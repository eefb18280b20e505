//! Recoverable errors of method construction, resolution and verification.

use vstd::prelude::*;
use crate::value::{TypeName, Value};

verus! {

/// A recoverable error. None of them is fatal to the runtime: each is handed
/// to the caller that triggered the failing operation.
#[derive(Clone, Copy, Debug, PartialEq, Eq, Structural)]
pub enum Error {
    /// A method index lies outside the container's method table.
    MethodInfoExceedsMethodCount,
    /// A declared type name does not resolve to a known class.
    UnresolvedTypeName(TypeName),
    /// An exception raised by a collaborator, carried as the thrown value.
    AvmError(Value),
}

/// Error code of the verify error for a method index beyond the method table.
pub const METHOD_INFO_EXCEEDS_METHOD_COUNT: u32 = 1027;

impl Error {
    /// The verify-error code of a malformed container, where the error has one.
    pub open spec fn spec_verify_error_code(self) -> Option<u32> {
        match self {
            Error::MethodInfoExceedsMethodCount => Some(METHOD_INFO_EXCEEDS_METHOD_COUNT),
            _ => None,
        }
    }

    /// The code under which the runtime raises this error as a verify error,
    /// or `None` for errors that are not verify errors of this library.
    #[verifier::when_used_as_spec(spec_verify_error_code)]
    pub fn verify_error_code(self) -> (code: Option<u32>)
        ensures
            code == self.spec_verify_error_code(),
    {
        match self {
            Error::MethodInfoExceedsMethodCount => Some(METHOD_INFO_EXCEEDS_METHOD_COUNT),
            _ => None,
        }
    }

    /// The message of the verify error, where `verify_error_code` gives a code.
    pub fn verify_error_message(self) -> (message: Option<&'static str>)
        ensures
            message is Some <==> self.spec_verify_error_code() is Some,
            self == Error::MethodInfoExceedsMethodCount ==> message.unwrap()@
                == "Error #1027: Method_info exceeds method_count."@,
    {
        match self {
            Error::MethodInfoExceedsMethodCount => Some(
                "Error #1027: Method_info exceeds method_count.",
            ),
            _ => None,
        }
    }
}

} // verus!
