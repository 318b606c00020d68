//! Domain errors surfaced by command handling.

use vstd::prelude::*;

verus! {

/// Domain errors: local to one command, never retried automatically.
#[derive(Debug, PartialEq, Eq)]
pub enum Error {
    /// The addressed entity does not exist.
    NotFound {
        /// The entity type that was not found
        entity: String,
    },
    /// The entity exists but no longer accepts this change.
    Forbidden,
    /// Reserved: the caller may not perform this command.
    Unauthorized(Option<String>),
    /// A uniqueness conflict.
    Uniqueness {
        /// The field that failed a uniqueness check
        field: String,
    },
}

/// The human-readable message of an error.
pub open spec fn spec_error_message(e: Error) -> Seq<char> {
    match e {
        Error::NotFound { entity } => entity@ + " not found"@,
        Error::Forbidden => "Forbidden"@,
        Error::Unauthorized(_) => "Unauthorized"@,
        Error::Uniqueness { field } => "The field `"@ + field@ + "` must be unique"@,
    }
}

impl Error {
    /// The human-readable message of this error.
    pub fn message(&self) -> (r: String)
        ensures
            r@ == spec_error_message(*self),
    {
        match self {
            Error::NotFound { entity } => {
                let mut s = entity.clone();
                s.append(" not found");
                s
            },
            Error::Forbidden => String::from_str("Forbidden"),
            Error::Unauthorized(_) => String::from_str("Unauthorized"),
            Error::Uniqueness { field } => {
                let mut s = String::from_str("The field `");
                s.append(field.as_str());
                s.append("` must be unique");
                s
            },
        }
    }
}

} // verus!
