//! The error model: a describable-error capability and the retrieval
//! error type, which distinguishes a missing required value from a
//! present but unparseable one.

use vstd::prelude::*;
use vstd::string::StringExecFns;

verus! {

/// A describable error: it renders a human-readable message, pinned
/// down by a specification-level view of that message.
pub trait ErrorMessage {
    /// The message this error renders, as a sequence of characters.
    spec fn message_spec(&self) -> Seq<char>;

    /// Render the human-readable message.
    fn message(&self) -> (r: String)
        ensures
            r@ == self.message_spec(),
    ;
}

/// Why a retrieval failed: the named value was present but could not
/// be converted (carrying the conversion error), or it was required
/// and missing. Both carry the name that was looked up.
#[derive(Debug, PartialEq)]
pub enum EnvOptionError<E> {
    /// The value was present but failed to parse; carries the name and
    /// the type-specific conversion error.
    ParseError(String, E),
    /// The value was required but absent; carries the name.
    Missing(String),
}

impl<E> EnvOptionError<E> {
    /// A short, fixed description of the error kind.
    pub fn description(&self) -> (r: &'static str)
        ensures
            self matches EnvOptionError::ParseError(_, _) ==> r@ == "parse error"@,
            self matches EnvOptionError::Missing(_) ==> r@ == "variable is required"@,
    {
        match self {
            EnvOptionError::ParseError(_, _) => "parse error",
            EnvOptionError::Missing(_) => "variable is required",
        }
    }

    /// The underlying conversion error, where there is one.
    pub fn cause(&self) -> (r: Option<&E>)
        ensures
            self matches EnvOptionError::ParseError(_, e) ==> (r matches Some(c) && c == e),
            self matches EnvOptionError::Missing(_) ==> r is None,
    {
        match self {
            EnvOptionError::ParseError(_, e) => Some(e),
            EnvOptionError::Missing(_) => None,
        }
    }
}

impl<E: ErrorMessage> ErrorMessage for EnvOptionError<E> {
    open spec fn message_spec(&self) -> Seq<char> {
        match self {
            EnvOptionError::ParseError(n, c) => "parsing "@ + n@ + ": "@ + c.message_spec(),
            EnvOptionError::Missing(n) => n@ + " not found"@,
        }
    }

    fn message(&self) -> (r: String)
        ensures
            r@ == self.message_spec(),
    {
        match self {
            EnvOptionError::ParseError(n, c) => {
                let mut r = "parsing ".to_owned();
                r.append(n.as_str());
                r.append(": ");
                let cm = c.message();
                r.append(cm.as_str());
                r
            },
            EnvOptionError::Missing(n) => {
                let mut r = n.as_str().to_owned();
                r.append(" not found");
                r
            },
        }
    }
}

} // verus!
