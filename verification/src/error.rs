//! The errors of the engine and the envelope they are reported in.

use vstd::prelude::*;

verus! {

/// Why a request was turned down.
pub enum EngineError {
    /// The root of the tree declares no `type`.
    MissingType,
    /// The shader target is none of the supported ones; holds the target as
    /// it was asked for.
    UnknownTarget(String),
}

/// The uniform error envelope: what went wrong, and details where there are
/// any.
pub struct ErrorBody {
    pub error: String,
    pub details: Option<String>,
}

/// Status code of a request that the caller got wrong.
pub const BAD_REQUEST: u16 = 400;

impl EngineError {
    /// The text of the error. An unknown target is named in it.
    pub open spec fn text(self) -> Seq<char> {
        match self {
            EngineError::MissingType => "Missing type"@,
            EngineError::UnknownTarget(target) => "Unknown target: "@ + target@,
        }
    }

    /// The text of the error.
    pub fn message(&self) -> (s: String)
        ensures
            s@ == self.text(),
    {
        match self {
            EngineError::MissingType => String::from_str("Missing type"),
            EngineError::UnknownTarget(target) => {
                let mut s = String::from_str("Unknown target: ");
                s.append(target.as_str());
                s
            },
        }
    }

    /// The status code the error is answered with: every error of the engine
    /// is the caller's.
    pub fn status(&self) -> (code: u16)
        ensures
            code == BAD_REQUEST,
    {
        BAD_REQUEST
    }

    /// The envelope of the error: its text, and no details.
    pub fn body(&self) -> (b: ErrorBody)
        ensures
            b.error@ == self.text(),
            b.details is None,
    {
        ErrorBody { error: self.message(), details: None }
    }
}

} // verus!
