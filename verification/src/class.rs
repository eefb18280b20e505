//! What the class system is told of a builtin class.

use vstd::prelude::*;
use crate::method::Method;
use crate::value::Class;

verus! {

/// Reference to a trait of the class system: a member that a class
/// declares.
#[derive(Clone, Copy, Debug, PartialEq, Eq, Structural)]
pub struct Trait {
    pub id: u32,
}

/// Attributes of a class.
#[derive(Clone, Copy, Debug, PartialEq, Eq, Structural)]
pub struct ClassAttributes {
    /// Instances of the class take no members beyond the declared ones.
    pub is_sealed: bool,
    /// The class cannot be subclassed.
    pub is_final: bool,
}

/// The definition of a builtin class: what the class system needs to create
/// the class object.
#[derive(Debug)]
pub struct ClassDefinition {
    /// The local name of the class, in the public namespace.
    pub name: &'static str,
    /// The superclass, if the class has one.
    pub super_class: Option<Class>,
    /// The instance initializer.
    pub instance_init: Method,
    /// The traits of the class.
    pub traits: Vec<Trait>,
    /// The attributes of the class.
    pub attributes: ClassAttributes,
    /// Whether the class's table of virtual methods is to be set up as soon
    /// as the class object exists.
    pub init_vtable: bool,
}

} // verus!
