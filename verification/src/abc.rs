//! The tables of a compiled bytecode container that method descriptors read.

use vstd::prelude::*;
use vstd::utf8::{decode_utf8, valid_utf8};
use swf::avm2::types::MethodFlags;

verus! {

/// A default-value constant of a formal parameter, as the container stores
/// it: the kind of the constant and, where it has one, its index into the
/// container's constant pool.
#[derive(Clone, Copy, Debug, PartialEq, Eq, Structural)]
pub enum DefaultValue {
    Int(u32),
    Uint(u32),
    Double(u32),
    String(u32),
    True,
    False,
    Null,
    Undefined,
    Namespace(u32),
    Package(u32),
    PackageInternal(u32),
    Protected(u32),
    Explicit(u32),
    StaticProtected(u32),
    Private(u32),
}

/// One formal parameter of a method entry.
#[derive(Clone, Copy, Debug, PartialEq, Eq, Structural)]
pub struct AbcMethodParam {
    /// Index of the declared type name; what it denotes is for the
    /// evaluation context to say.
    pub kind: u32,
    /// The declared default value, if any.
    pub default_value: Option<DefaultValue>,
}

/// One entry of the container's method table.
#[derive(Debug)]
pub struct AbcMethod {
    /// Index of the method's name: 0 for none, else one more than its place
    /// in the string table.
    pub name: u32,
    pub params: Vec<AbcMethodParam>,
    /// Index of the declared return type name.
    pub return_type: u32,
    /// The flags byte of the entry.
    pub flags: u8,
    /// Index of the method's body in the body table, if it has one.
    pub body: Option<u32>,
}

/// One entry of the container's method-body table.
#[derive(Debug)]
pub struct AbcMethodBody {
    pub method: u32,
    pub max_stack: u32,
    pub num_locals: u32,
    pub init_scope_depth: u32,
    pub max_scope_depth: u32,
    pub code: Vec<u8>,
}

/// The constant pool, as far as descriptors read it.
#[derive(Debug)]
pub struct ConstantPool {
    /// The string table; entries are raw bytes, not necessarily UTF-8.
    pub strings: Vec<Vec<u8>>,
}

/// A loaded bytecode container.
#[derive(Debug)]
pub struct AbcFile {
    pub constant_pool: ConstantPool,
    pub methods: Vec<AbcMethod>,
    pub method_bodies: Vec<AbcMethodBody>,
}

/// The flags byte asks for the legacy `arguments` object.
pub open spec fn needs_arguments(flags: u8) -> bool {
    flags & 0x01 != 0
}

/// The flags byte asks for the excess arguments as a rest array.
pub open spec fn needs_rest(flags: u8) -> bool {
    flags & 0x04 != 0
}

/// The bit of `swf::avm2::types::MethodFlags::NEED_ARGUMENTS`: bit 0 of the
/// flags byte.
#[verifier::external_body]
fn need_arguments_bits() -> (bits: u8)
    ensures
        bits == 0x01,
{
    MethodFlags::NEED_ARGUMENTS.bits()
}

/// The bit of `swf::avm2::types::MethodFlags::NEED_REST`: bit 2 of the flags
/// byte.
#[verifier::external_body]
fn need_rest_bits() -> (bits: u8)
    ensures
        bits == 0x04,
{
    MethodFlags::NEED_REST.bits()
}

/// `swf::avm2::types::MethodFlags::intersects`: the two flag sets share a
/// bit. Every bit of a byte is a declared flag, so no bit is dropped on the
/// way in.
#[verifier::external_body]
fn flags_intersect(flags: u8, mask: u8) -> (hit: bool)
    ensures
        hit == (flags & mask != 0),
{
    MethodFlags::from_bits_truncate(flags).intersects(MethodFlags::from_bits_truncate(mask))
}

/// `swf::avm2::types::MethodFlags::contains`: every bit of `mask` is set in
/// `flags`.
#[verifier::external_body]
fn flags_contain(flags: u8, mask: u8) -> (all: bool)
    ensures
        all == (flags & mask == mask),
{
    MethodFlags::from_bits_truncate(flags).contains(MethodFlags::from_bits_truncate(mask))
}

/// The text that `String::from_utf8_lossy` makes of a byte string.
pub uninterp spec fn utf8_lossy(bytes: Seq<u8>) -> Seq<char>;

/// `String::from_utf8_lossy`: the bytes as text, with each malformed
/// sequence replaced by the replacement character. Well-formed UTF-8 comes
/// out as the text it encodes.
#[verifier::external_body]
pub(crate) fn from_utf8_lossy(bytes: &[u8]) -> (text: String)
    ensures
        text@ == utf8_lossy(bytes@),
        valid_utf8(bytes@) ==> text@ == decode_utf8(bytes@),
{
    String::from_utf8_lossy(bytes).into_owned()
}

impl AbcMethod {
    /// Whether the entry declares the "needs arguments" flag.
    pub fn needs_arguments(&self) -> (r: bool)
        ensures
            r == needs_arguments(self.flags),
    {
        let flags = self.flags;
        let mask = need_arguments_bits();
        assert((flags & 0x01u8 == 0x01u8) == (flags & 0x01u8 != 0)) by (bit_vector);
        flags_contain(flags, mask)
    }

    /// Whether the entry declares the "needs rest" or the "needs arguments"
    /// flag.
    pub fn needs_rest_or_arguments(&self) -> (r: bool)
        ensures
            r == (needs_rest(self.flags) || needs_arguments(self.flags)),
    {
        let flags = self.flags;
        let mask = need_arguments_bits() | need_rest_bits();
        assert(0x01u8 | 0x04u8 == 0x05u8) by (bit_vector);
        assert((flags & 0x05u8 != 0) == (flags & 0x04u8 != 0 || flags & 0x01u8 != 0))
            by (bit_vector);
        flags_intersect(flags, mask)
    }
}

} // verus!
