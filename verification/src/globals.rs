//! Builtin classes that own native methods.

pub mod global_scope;
pub mod null;
