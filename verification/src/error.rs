//! Why a model descriptor could not be built.

use vstd::prelude::*;
use vstd::string::*;

verus! {

/// The two ways in which the description of a record type is rejected.
#[derive(Clone, Copy, Debug, PartialEq, Eq, Structural)]
pub enum ModelError {
    /// The dialect annotation is present but names no supported dialect.
    UnknownDialect,
    /// The record type declares no field.
    NoFields,
}

impl ModelError {
    /// The text of the message that belongs to each error.
    pub open spec fn message_text(self) -> Seq<char> {
        match self {
            ModelError::UnknownDialect => "unknown database dialect"@,
            ModelError::NoFields => "a record type must declare at least one field"@,
        }
    }

    /// A human-readable description of the error.
    pub fn message(&self) -> (text: String)
        ensures
            text@ == self.message_text(),
    {
        match self {
            ModelError::UnknownDialect => String::from_str("unknown database dialect"),
            ModelError::NoFields => String::from_str(
                "a record type must declare at least one field",
            ),
        }
    }
}

} // verus!
