//! Plain handles and values that descriptors carry.

use vstd::prelude::*;
use vstd::std_specs::convert::FromSpecImpl;

verus! {

/// Reference to a symbolic type name that has not been resolved to a class.
#[derive(Clone, Copy, Debug, PartialEq, Eq, Structural)]
pub struct TypeName {
    pub id: u32,
}

/// Reference to a concrete class object of the live class system.
#[derive(Clone, Copy, Debug, PartialEq, Eq, Structural)]
pub struct Class {
    pub id: u32,
}

/// Reference to the movie a bytecode container was loaded from.
#[derive(Clone, Copy, Debug, PartialEq, Eq, Structural)]
pub struct MovieHandle {
    pub id: u32,
}

/// A runtime value, as far as a method declaration can mention one.
///
/// Numbers are held by their IEEE 754 bit pattern, strings and objects by a
/// reference into the runtime's own tables.
#[derive(Clone, Copy, Debug, PartialEq, Eq, Structural)]
pub enum Value {
    Undefined,
    Null,
    Bool(bool),
    Number(u64),
    Integer(i32),
    String(u32),
    Object(u32),
}

impl From<i32> for Value {
    fn from(value: i32) -> (v: Value) {
        Value::Integer(value)
    }
}

impl FromSpecImpl<i32> for Value {
    open spec fn obeys_from_spec() -> bool {
        true
    }

    open spec fn from_spec(value: i32) -> Value {
        Value::Integer(value)
    }
}

impl From<bool> for Value {
    fn from(value: bool) -> (v: Value) {
        Value::Bool(value)
    }
}

impl FromSpecImpl<bool> for Value {
    open spec fn obeys_from_spec() -> bool {
        true
    }

    open spec fn from_spec(value: bool) -> Value {
        Value::Bool(value)
    }
}

} // verus!
