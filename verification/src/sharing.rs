//! What the handles to one descriptor observe of its lazily filled cache.
//!
//! A descriptor's cache is part of the descriptor, and the descriptor is in
//! the arena once, however many handles refer to it. The lemmas here state
//! what follows for verification, for signature resolution and for the
//! queries that read a declaration.

use vstd::prelude::*;
use crate::arena::{BytecodeHandle, MethodArenaView, NativeHandle};
use crate::error::Error;
use crate::method::{BytecodeMethodView, Method, NativeMethodView};
use crate::value::{Class, TypeName};
use crate::verify::{resolution_of, VerifiedMethodInfo};

verus! {

/// After a successful verification the resolved return type of the method
/// is the class that the verifier reported. It stays so whatever is read,
/// through a failing verification of the same method, and through any
/// verification of another method.
pub proof fn lemma_verified_return_type_is_kept(
    arena: MethodArenaView,
    this: BytecodeHandle,
    info: VerifiedMethodInfo,
    other: BytecodeHandle,
    error: Error,
    outcome: Result<VerifiedMethodInfo, Error>,
)
    requires
        arena.has_bytecode(this),
        arena.has_bytecode(other),
        other != this,
    ensures
        arena.verify(this, Ok(info)).bytecode_at(this).resolved_return_type() == info.return_type,
        arena.verify(this, Ok(info)).verify(this, Err(error)).bytecode_at(
            this,
        ).resolved_return_type() == info.return_type,
        arena.verify(this, Ok(info)).verify(other, outcome).bytecode_at(
            this,
        ).resolved_return_type() == info.return_type,
{
    this.lemma_slot_names_handle(other);
}

/// A failing verification leaves the arena as it was: a method that was not
/// verified before is not verified after. A later verification is decided
/// by its own outcome: where that is a success, the method is verified with
/// what was found then.
pub proof fn lemma_failed_verification_leaves_no_trace(
    arena: MethodArenaView,
    this: BytecodeHandle,
    error: Error,
    info: VerifiedMethodInfo,
)
    requires
        arena.has_bytecode(this),
    ensures
        arena.verify(this, Err(error)) == arena,
        arena.bytecode_at(this).verified_info is None ==> arena.verify(
            this,
            Err(error),
        ).bytecode_at(this).verified_info is None,
        arena.verify(this, Err(error)).verify(this, Ok(info)).bytecode_at(this).verified_info
            == Some(info),
        arena.verify(this, Err(error)).verify(this, Err(error)) == arena,
{
}

/// Two handles that wrap the same bytecode descriptor observe the same
/// cache after a verification that either of them triggered: what the
/// verifier found where it succeeded, what was there before where it
/// failed.
pub proof fn lemma_handles_share_verification(
    arena: MethodArenaView,
    a: Method,
    b: Method,
    outcome: Result<VerifiedMethodInfo, Error>,
)
    requires
        a.valid_in(arena),
        a.spec_into_bytecode() is Some,
        a.spec_into_bytecode() == b.spec_into_bytecode(),
    ensures
        ({
            let this = a.spec_into_bytecode().unwrap();
            let after = arena.verify(this, outcome);
            let seen_by_a = after.bytecode_at(a.spec_into_bytecode().unwrap()).verified_info;
            let seen_by_b = after.bytecode_at(b.spec_into_bytecode().unwrap()).verified_info;
            &&& b.valid_in(after)
            &&& seen_by_a == seen_by_b
            &&& outcome matches Ok(info) ==> seen_by_b == Some(info)
            &&& outcome is Err ==> seen_by_b == arena.bytecode_at(this).verified_info
        }),
{
}

/// Two handles that wrap the same native descriptor observe the same
/// resolved signature after a resolution that either of them triggered;
/// the descriptor behind any other handle is left as it was.
pub proof fn lemma_handles_share_resolution(
    arena: MethodArenaView,
    a: NativeHandle,
    b: NativeHandle,
    other: NativeHandle,
    classes: Map<TypeName, Class>,
)
    requires
        arena.has_native(a),
        arena.has_native(other),
        a == b,
        other != a,
    ensures
        ({
            let after = arena.resolve_signature(a, classes);
            &&& after.has_native(b)
            &&& after.native_at(a).resolved_signature == after.native_at(b).resolved_signature
            &&& resolution_of(classes, arena.native_at(a).signature) matches Ok(resolved)
                ==> after.native_at(b).resolved_signature == Some(resolved)
            &&& resolution_of(classes, arena.native_at(a).signature) is Err ==> after == arena
            &&& after.native_at(other) == arena.native_at(other)
        }),
{
    a.lemma_slot_names_handle(other);
}

/// Allocation leaves every descriptor behind its handle: a handle that was
/// good stays good, and the queries on it answer as before.
pub proof fn lemma_allocation_keeps_descriptors(
    arena: MethodArenaView,
    method: Method,
    native: NativeMethodView,
    bytecode: BytecodeMethodView,
)
    requires
        method.valid_in(arena),
    ensures
        ({
            let after = arena.alloc_native(native);
            &&& method.valid_in(after)
            &&& method.spec_signature(after) == method.spec_signature(arena)
            &&& method.spec_return_type(after) == method.spec_return_type(arena)
            &&& method.spec_is_variadic(after) == method.spec_is_variadic(arena)
            &&& method.spec_needs_arguments_object(after) == method.spec_needs_arguments_object(
                arena,
            )
            &&& method matches Method::Native(nm) ==> after.native_at(nm) == arena.native_at(nm)
            &&& method matches Method::Bytecode(bm) ==> after.bytecode_at(bm) == arena.bytecode_at(
                bm,
            )
        }),
        ({
            let after = arena.alloc_bytecode(bytecode);
            &&& method.valid_in(after)
            &&& method.spec_signature(after) == method.spec_signature(arena)
            &&& method.spec_return_type(after) == method.spec_return_type(arena)
            &&& method.spec_is_variadic(after) == method.spec_is_variadic(arena)
            &&& method.spec_needs_arguments_object(after) == method.spec_needs_arguments_object(
                arena,
            )
            &&& method matches Method::Native(nm) ==> after.native_at(nm) == arena.native_at(nm)
            &&& method matches Method::Bytecode(bm) ==> after.bytecode_at(bm) == arena.bytecode_at(
                bm,
            )
        }),
{
}

/// The queries on a method read its declaration only: neither a
/// verification nor a signature resolution, of this method or of another,
/// changes what they answer, and every handle stays good.
pub proof fn lemma_queries_ignore_caches(
    arena: MethodArenaView,
    method: Method,
    verified: BytecodeHandle,
    outcome: Result<VerifiedMethodInfo, Error>,
    resolved: NativeHandle,
    classes: Map<TypeName, Class>,
)
    requires
        method.valid_in(arena),
        arena.has_bytecode(verified),
        arena.has_native(resolved),
    ensures
        ({
            let after = arena.verify(verified, outcome);
            &&& method.valid_in(after)
            &&& method.spec_signature(after) == method.spec_signature(arena)
            &&& method.spec_return_type(after) == method.spec_return_type(arena)
            &&& method.spec_is_variadic(after) == method.spec_is_variadic(arena)
            &&& method.spec_needs_arguments_object(after) == method.spec_needs_arguments_object(
                arena,
            )
            &&& arena.wf() ==> after.wf()
        }),
        ({
            let after = arena.resolve_signature(resolved, classes);
            &&& method.valid_in(after)
            &&& method.spec_signature(after) == method.spec_signature(arena)
            &&& method.spec_return_type(after) == method.spec_return_type(arena)
            &&& method.spec_is_variadic(after) == method.spec_is_variadic(arena)
            &&& method.spec_needs_arguments_object(after) == method.spec_needs_arguments_object(
                arena,
            )
            &&& arena.wf() ==> after.wf()
        }),
{
}

} // verus!
