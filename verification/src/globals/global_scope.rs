//! `global` constructor
//!
//! Globals are an undocumented class without public methods of its own;
//! they are the class that a script's global scope is an instance of.

use vstd::prelude::*;
use crate::arena::MethodArena;
use crate::class::{ClassAttributes, ClassDefinition, Trait};
use crate::error::Error;
use crate::method::{Method, NativeMethodImpl, NativeMethodView};
use crate::value::{Class, Value};

verus! {

/// Implements `global`'s instance constructor: it does nothing and yields
/// undefined, whatever it is called on and with.
pub fn instance_init(this: Value, args: &[Value]) -> (result: Result<Value, Error>)
    ensures
        result == Ok::<Value, Error>(Value::Undefined),
{
    Ok(Value::Undefined)
}

/// Construct `global`'s class: a final subclass of `object` with the given
/// traits, whose instance initializer is a new builtin without parameter
/// constraints.
pub fn create_class(object: Class, traits: Vec<Trait>, mc: &mut MethodArena) -> (class:
    ClassDefinition)
    ensures
        class.name@ == "global"@,
        class.super_class == Some(object),
        class.traits == traits,
        class.attributes == (ClassAttributes { is_sealed: false, is_final: true }),
        class.init_vtable,
        class.instance_init is Native,
        class.instance_init->Native_0.slot() == old(mc)@.natives.len(),
        final(mc)@ == old(mc)@.alloc_native(
            (NativeMethodView {
                method: NativeMethodImpl::GlobalInstanceInit,
                name: "<global instance initializer>"@,
                signature: Seq::empty(),
                resolved_signature: None,
                return_type: None,
                is_variadic: true,
            }),
        ),
{
    let instance_init = Method::from_builtin(
        NativeMethodImpl::GlobalInstanceInit,
        "<global instance initializer>",
        mc,
    );
    ClassDefinition {
        name: "global",
        super_class: Some(object),
        instance_init,
        traits,
        attributes: ClassAttributes { is_sealed: false, is_final: true },
        init_vtable: true,
    }
}

} // verus!
