//! The arena that owns every method descriptor, and the handles into it.

use vstd::prelude::*;
use crate::error::Error;
use crate::method::{
    BytecodeMethod, BytecodeMethodView, NativeMethod, NativeMethodView, ResolvedParamConfig,
};
use crate::value::{Class, TypeName};
use crate::verify::{resolution_of, VerifiedMethodInfo};

verus! {

/// Handle to a native method descriptor of a `MethodArena`.
#[derive(Clone, Copy, Debug, PartialEq, Eq, Structural)]
pub struct NativeHandle {
    index: usize,
}

/// Handle to a bytecode method descriptor of a `MethodArena`.
#[derive(Clone, Copy, Debug, PartialEq, Eq, Structural)]
pub struct BytecodeHandle {
    index: usize,
}

impl NativeHandle {
    /// The place of the descriptor among the native methods of its arena.
    pub closed spec fn slot(self) -> int {
        self.index as int
    }

    /// A handle is its place: handles to the same place are the same handle.
    pub proof fn lemma_slot_names_handle(self, other: NativeHandle)
        ensures
            self.slot() == other.slot() <==> self == other,
    {
    }
}

impl BytecodeHandle {
    /// The place of the descriptor among the bytecode methods of its arena.
    pub closed spec fn slot(self) -> int {
        self.index as int
    }

    /// A handle is its place: handles to the same place are the same handle.
    pub proof fn lemma_slot_names_handle(self, other: BytecodeHandle)
        ensures
            self.slot() == other.slot() <==> self == other,
    {
    }
}

/// An arena as a mathematical value: its descriptors in the order in which
/// they were allocated.
pub struct MethodArenaView {
    pub natives: Seq<NativeMethodView>,
    pub bytecodes: Seq<BytecodeMethodView>,
}

impl MethodArenaView {
    /// Every bytecode descriptor agrees with its container.
    pub open spec fn wf(self) -> bool {
        forall|i: int| 0 <= i < self.bytecodes.len() ==> (#[trigger] self.bytecodes[i]).wf()
    }

    /// `handle` refers to a descriptor of this arena.
    pub open spec fn has_native(self, handle: NativeHandle) -> bool {
        0 <= handle.slot() < self.natives.len()
    }

    /// `handle` refers to a descriptor of this arena.
    pub open spec fn has_bytecode(self, handle: BytecodeHandle) -> bool {
        0 <= handle.slot() < self.bytecodes.len()
    }

    /// The descriptor that `handle` refers to.
    pub open spec fn native_at(self, handle: NativeHandle) -> NativeMethodView {
        self.natives[handle.slot()]
    }

    /// The descriptor that `handle` refers to.
    pub open spec fn bytecode_at(self, handle: BytecodeHandle) -> BytecodeMethodView {
        self.bytecodes[handle.slot()]
    }

    /// The arena with one more native descriptor, behind a new handle.
    pub open spec fn alloc_native(self, method: NativeMethodView) -> MethodArenaView {
        MethodArenaView { natives: self.natives.push(method), ..self }
    }

    /// The arena with one more bytecode descriptor, behind a new handle.
    pub open spec fn alloc_bytecode(self, method: BytecodeMethodView) -> MethodArenaView {
        MethodArenaView { bytecodes: self.bytecodes.push(method), ..self }
    }

    /// The arena after a verification of the method behind `this` that
    /// ended in `outcome`: on success the descriptor keeps what was found,
    /// on failure nothing changes.
    pub open spec fn verify(
        self,
        this: BytecodeHandle,
        outcome: Result<VerifiedMethodInfo, Error>,
    ) -> MethodArenaView {
        match outcome {
            Ok(info) => MethodArenaView {
                bytecodes: self.bytecodes.update(this.slot(), self.bytecode_at(this).verified(info)),
                ..self
            },
            Err(_) => self,
        }
    }

    /// The arena after the signature of the method behind `this` has been
    /// resolved among `classes`: where every type name resolves the
    /// descriptor keeps the resolved signature, otherwise nothing changes.
    pub open spec fn resolve_signature(
        self,
        this: NativeHandle,
        classes: Map<TypeName, Class>,
    ) -> MethodArenaView {
        match resolution_of(classes, self.native_at(this).signature) {
            Ok(resolved) => MethodArenaView {
                natives: self.natives.update(this.slot(), self.native_at(this).resolved(resolved)),
                ..self
            },
            Err(_) => self,
        }
    }
}

/// Owns every method descriptor. Handles into the arena are cheap to copy;
/// all handles to one descriptor see the same descriptor, its lazily filled
/// cache included. Descriptors are never removed, so a handle stays good.
pub struct MethodArena {
    natives: Vec<NativeMethod>,
    bytecodes: Vec<BytecodeMethod>,
}

impl View for MethodArena {
    type V = MethodArenaView;

    closed spec fn view(&self) -> MethodArenaView {
        MethodArenaView {
            natives: Seq::new(self.natives@.len(), |i: int| self.natives@[i]@),
            bytecodes: Seq::new(self.bytecodes@.len(), |i: int| self.bytecodes@[i]@),
        }
    }
}

impl MethodArena {
    /// An arena without descriptors.
    pub fn new() -> (arena: MethodArena)
        ensures
            arena@.wf(),
            arena@.natives.len() == 0,
            arena@.bytecodes.len() == 0,
    {
        MethodArena { natives: Vec::new(), bytecodes: Vec::new() }
    }

    /// Moves a native descriptor into the arena and returns the handle to
    /// it. Every other descriptor keeps its handle.
    pub fn alloc_native(&mut self, method: NativeMethod) -> (handle: NativeHandle)
        ensures
            handle.slot() == old(self)@.natives.len(),
            final(self)@ == old(self)@.alloc_native(method@),
            final(self)@.has_native(handle),
            final(self)@.native_at(handle) == method@,
            old(self)@.wf() ==> final(self)@.wf(),
    {
        let index = self.natives.len();
        self.natives.push(method);
        assert(final(self)@.natives =~= old(self)@.natives.push(method@));
        NativeHandle { index }
    }

    /// Moves a bytecode descriptor into the arena and returns the handle to
    /// it. Every other descriptor keeps its handle.
    pub fn alloc_bytecode(&mut self, method: BytecodeMethod) -> (handle: BytecodeHandle)
        requires
            method@.wf(),
        ensures
            handle.slot() == old(self)@.bytecodes.len(),
            final(self)@ == old(self)@.alloc_bytecode(method@),
            final(self)@.has_bytecode(handle),
            final(self)@.bytecode_at(handle) == method@,
            old(self)@.wf() ==> final(self)@.wf(),
    {
        let index = self.bytecodes.len();
        self.bytecodes.push(method);
        assert(final(self)@.bytecodes =~= old(self)@.bytecodes.push(method@));
        BytecodeHandle { index }
    }

    /// Whether every bytecode descriptor agrees with its container. An arena
    /// that holds only descriptors that did so when they were moved in does.
    pub fn is_well_formed(&self) -> (wf: bool)
        ensures
            wf == self@.wf(),
    {
        let mut i: usize = 0;
        while i < self.bytecodes.len()
            invariant
                i <= self.bytecodes@.len(),
                forall|j: int| 0 <= j < i ==> (#[trigger] self@.bytecodes[j]).wf(),
            decreases self.bytecodes@.len() - i,
        {
            if !self.bytecodes[i].is_well_formed() {
                assert(!self@.bytecodes[i as int].wf());
                return false;
            }
            i += 1;
        }
        true
    }

    /// Whether `handle` refers to a descriptor of this arena.
    pub fn contains_native(&self, handle: NativeHandle) -> (found: bool)
        ensures
            found == self@.has_native(handle),
    {
        handle.index < self.natives.len()
    }

    /// Whether `handle` refers to a descriptor of this arena.
    pub fn contains_bytecode(&self, handle: BytecodeHandle) -> (found: bool)
        ensures
            found == self@.has_bytecode(handle),
    {
        handle.index < self.bytecodes.len()
    }

    /// The native descriptor that `handle` refers to.
    pub fn native(&self, handle: NativeHandle) -> (method: &NativeMethod)
        requires
            self@.has_native(handle),
        ensures
            method@ == self@.native_at(handle),
    {
        &self.natives[handle.index]
    }

    /// The bytecode descriptor that `handle` refers to.
    pub fn bytecode(&self, handle: BytecodeHandle) -> (method: &BytecodeMethod)
        requires
            self@.has_bytecode(handle),
        ensures
            method@ == self@.bytecode_at(handle),
            self@.wf() ==> method@.wf(),
    {
        &self.bytecodes[handle.index]
    }

    /// Stores what verification found in the descriptor behind `this`.
    pub(crate) fn store_verified_info(&mut self, this: BytecodeHandle, info: VerifiedMethodInfo)
        requires
            old(self)@.has_bytecode(this),
        ensures
            final(self)@ == old(self)@.verify(this, Ok(info)),
    {
        let method = &mut self.bytecodes[this.index];
        method.verified_info = Some(info);
        assert(final(self)@.bytecodes =~= old(self)@.bytecodes.update(
            this.slot(),
            old(self)@.bytecode_at(this).verified(info),
        ));
        assert(final(self)@.natives =~= old(self)@.natives);
    }

    /// Stores the resolved signature in the descriptor behind `this`.
    pub(crate) fn store_resolved_signature(
        &mut self,
        this: NativeHandle,
        resolved: Vec<ResolvedParamConfig>,
    )
        requires
            old(self)@.has_native(this),
        ensures
            final(self)@ == (MethodArenaView {
                natives: old(self)@.natives.update(
                    this.slot(),
                    old(self)@.native_at(this).resolved(resolved@),
                ),
                ..old(self)@
            }),
    {
        let method = &mut self.natives[this.index];
        method.resolved_signature = Some(resolved);
        assert(final(self)@.natives =~= old(self)@.natives.update(
            this.slot(),
            old(self)@.native_at(this).resolved(resolved@),
        ));
        assert(final(self)@.bytecodes =~= old(self)@.bytecodes);
    }
}

} // verus!
