//! Method descriptors of an ActionScript-style virtual machine.
//!
//! Every callable unit of the runtime, whether hosted by the interpreter or
//! loaded from a compiled bytecode container, is described by one descriptor.
//! Descriptors live in an [`arena::MethodArena`]; the [`method::Method`]
//! handles that refer to them are cheap to copy and share one descriptor,
//! including its lazily filled caches.

pub mod abc;
pub mod arena;
pub mod class;
pub mod error;
pub mod external_interface;
pub mod globals;
pub mod method;
pub mod script;
pub mod sharing;
pub mod signature;
pub mod value;
pub mod verify;
