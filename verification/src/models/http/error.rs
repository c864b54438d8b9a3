//! The ways in which reading a request fails.

use vstd::prelude::*;
use vstd::string::StringExecFns;

verus! {

/// Why a request could not be read. Each failure ends the reading of that
/// request; nothing is recovered from it.
#[derive(Debug, Clone, Copy, PartialEq, Eq, Hash, Structural)]
pub enum HTTPParseError {
    /// The request line has fewer than three tokens.
    MalformedRequestLine,
    /// The first token is none of the methods.
    UnsupportedMethod,
    /// The third token is none of the versions.
    UnsupportedVersion,
}

impl HTTPParseError {
    /// A short description of the failure.
    pub open spec fn message(&self) -> Seq<char> {
        match self {
            HTTPParseError::MalformedRequestLine => "Malformed request line"@,
            HTTPParseError::UnsupportedMethod => "Invalid HTTP method"@,
            HTTPParseError::UnsupportedVersion => "Invalid HTTP version"@,
        }
    }

    /// A short description of the failure.
    pub fn as_str(&self) -> (s: &'static str)
        ensures
            s@ == self.message(),
    {
        match self {
            HTTPParseError::MalformedRequestLine => "Malformed request line",
            HTTPParseError::UnsupportedMethod => "Invalid HTTP method",
            HTTPParseError::UnsupportedVersion => "Invalid HTTP version",
        }
    }

    /// A copy of the description of the failure.
    pub fn to_string(&self) -> (s: String)
        ensures
            s@ == self.message(),
    {
        let mut s = String::new();
        s.append(self.as_str());
        s
    }
}

} // verus!
