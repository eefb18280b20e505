//! The class of `null`.

use vstd::prelude::*;
use crate::arena::MethodArena;
use crate::class::{ClassAttributes, ClassDefinition};
use crate::method::{Method, NativeMethodImpl, NativeMethodView};

verus! {

/// Construct the class of `null`: a final, sealed class without superclass
/// and without traits. Its instance initializer is a new builtin without
/// parameter constraints and without a name; it is never run.
pub fn create_class(mc: &mut MethodArena) -> (class: ClassDefinition)
    ensures
        class.name@ == "null"@,
        class.super_class is None,
        class.traits@.len() == 0,
        class.attributes == (ClassAttributes { is_sealed: true, is_final: true }),
        !class.init_vtable,
        class.instance_init is Native,
        class.instance_init->Native_0.slot() == old(mc)@.natives.len(),
        final(mc)@ == old(mc)@.alloc_native(
            (NativeMethodView {
                method: NativeMethodImpl::NullInit,
                name: ""@,
                signature: Seq::empty(),
                resolved_signature: None,
                return_type: None,
                is_variadic: true,
            }),
        ),
{
    let instance_init = Method::from_builtin(NativeMethodImpl::NullInit, "", mc);
    ClassDefinition {
        name: "null",
        super_class: None,
        instance_init,
        traits: Vec::new(),
        attributes: ClassAttributes { is_sealed: true, is_final: true },
        init_vtable: false,
    }
}

} // verus!
