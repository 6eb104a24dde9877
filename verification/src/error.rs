//! The one way in which a page can be refused.

use crate::dom::{error_kind, invalid_length_text};
use vstd::prelude::*;
use vstd::std_specs::convert::FromSpecImpl;

verus! {

/// Why a text could not be parsed.
#[derive(Clone, Copy, Debug, PartialEq, Eq, Structural)]
pub enum ParseFailure {
    /// The text is longer than the parser can address.
    InvalidLength,
}

impl ParseFailure {
    /// The words in which the parser itself reports the error.
    pub open spec fn diagnostic(self) -> Seq<char> {
        match self {
            ParseFailure::InvalidLength => "The input string length is too large to fit in a `u32`"@,
        }
    }

    /// Returns the parser's diagnostic message for the error.
    pub fn message(&self) -> (text: String)
        ensures
            text@ == self.diagnostic(),
    {
        match self {
            ParseFailure::InvalidLength => invalid_length_text(),
        }
    }
}

impl From<tl::ParseError> for ParseFailure {
    fn from(cause: tl::ParseError) -> (err: ParseFailure) {
        error_kind(&cause)
    }
}

impl FromSpecImpl<tl::ParseError> for ParseFailure {
    open spec fn obeys_from_spec() -> bool {
        true
    }

    open spec fn from_spec(cause: tl::ParseError) -> ParseFailure {
        ParseFailure::InvalidLength
    }
}

} // verus!
