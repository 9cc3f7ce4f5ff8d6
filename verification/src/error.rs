//! The failure taxonomy of the workflow. Every failure is fatal: it is
//! reported once at the top level and ends the session, with no retry.

use vstd::prelude::*;
use vstd::string::StringExecFns;

verus! {

/// Everything that can end the session early.
#[derive(Debug, Clone, Copy, PartialEq, Eq, Structural)]
pub enum SessionError {
    /// The connection string could not be parsed, or the server could not
    /// be reached.
    ConnectionError,
    /// A listing call or the document cursor failed at the server side.
    RetrievalError,
    /// A typed alias does not match the encoding expected at this step.
    AliasParseError,
    /// A typed alias resolved to an index outside the listed items.
    AliasRangeError,
}

impl SessionError {
    /// The description that `describe` renders for each variant.
    pub open spec fn describe_spec(self) -> Seq<char> {
        match self {
            SessionError::ConnectionError => "could not connect to the server"@,
            SessionError::RetrievalError => "could not retrieve results from the server"@,
            SessionError::AliasParseError => "the alias does not match the expected encoding"@,
            SessionError::AliasRangeError => "the alias is out of range for the listed items"@,
        }
    }

    /// A short human-readable description, for the one report printed when
    /// the session fails.
    pub fn describe(&self) -> (r: String)
        ensures
            r@ == self.describe_spec(),
    {
        match self {
            SessionError::ConnectionError => String::from_str("could not connect to the server"),
            SessionError::RetrievalError => String::from_str(
                "could not retrieve results from the server",
            ),
            SessionError::AliasParseError => String::from_str(
                "the alias does not match the expected encoding",
            ),
            SessionError::AliasRangeError => String::from_str(
                "the alias is out of range for the listed items",
            ),
        }
    }
}

} // verus!
