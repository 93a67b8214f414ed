//! The errors of the contexts.

use vstd::prelude::*;

verus! {

/// Why an operation of a context failed. `P` is the error of the platform.
#[derive(PartialEq, Eq, Structural, Debug)]
pub enum GenericError<P> {
    /// The platform reported an error.
    Platform(P),
    /// No key and modifier combination of the layout types this character.
    UnsupportedUnicode(char),
    /// Something failed and the platform did not say what.
    Unknown,
}

/// An error code of the platform, which is never zero.
#[derive(Copy, Clone, PartialEq, Eq, Structural, Debug)]
pub struct PlatformError {
    code: u32,
}

impl PlatformError {
    #[verifier::type_invariant]
    spec fn inv(self) -> bool {
        self.code != 0
    }

    /// The error code.
    pub closed spec fn code_spec(&self) -> u32 {
        self.code
    }

    /// The error with the given code, or `None` for zero, which is no error.
    pub fn new(code: u32) -> (r: Option<Self>)
        ensures
            r.is_some() <==> code != 0,
            r.is_some() ==> r.unwrap().code_spec() == code,
    {
        if code != 0 {
            Some(PlatformError { code })
        } else {
            None
        }
    }

    /// The error code.
    pub fn code(&self) -> (code: u32)
        ensures
            code == self.code_spec(),
            code != 0,
    {
        proof {
            use_type_invariant(self);
        }
        self.code
    }

    /// How many units of a system message of `message_length` units are
    /// shown: all but the line break and the period at its end. Where the
    /// system had no message at all, there is nothing to show and the result
    /// is `None`.
    pub fn shown_length(message_length: u32) -> (r: Option<u32>)
        ensures
            message_length == 0 ==> r.is_none(),
            0 < message_length < 3 ==> r == Some(0u32),
            message_length >= 3 ==> r == Some((message_length - 3) as u32),
    {
        if message_length == 0 {
            None
        } else if message_length < 3 {
            Some(0)
        } else {
            Some(message_length - 3)
        }
    }
}

} // verus!
