//! Codec errors: every decode failure names the JSON attribute that failed
//! and carries a cause from a closed set.

use vstd::prelude::*;

verus! {

/// Why a decode failed.
#[derive(Debug, Clone, Copy, PartialEq, Eq, Hash)]
pub enum Cause {
    ExpectsEnum,
    ExpectsObject,
    InvalidUtf8,
    IsMandatory,
    IsInvalid,
    MustBeArray,
    MustBeBoolean,
    MustBeObject,
    MustBeString,
    MustBeUnsignedInteger,
    MustMapToStringOrNull,
    UnexpectedEof,
}

/// A decode error: the attribute at fault, and the cause.
#[derive(Debug, Clone, Copy, PartialEq, Eq, Hash)]
pub struct Error {
    pub attribute: &'static str,
    pub cause: Cause,
}

/// Mathematical model of an [`Error`]: the attribute as a character sequence.
pub struct ErrorV {
    pub attribute: Seq<char>,
    pub cause: Cause,
}

impl DeepView for Error {
    type V = ErrorV;

    open spec fn deep_view(&self) -> ErrorV {
        ErrorV { attribute: self.attribute@, cause: self.cause }
    }
}

impl Error {
    pub fn new(attribute: &'static str, cause: Cause) -> (r: Self)
        ensures
            r.attribute == attribute,
            r.cause == cause,
    {
        Error { attribute, cause }
    }
}

} // verus!
