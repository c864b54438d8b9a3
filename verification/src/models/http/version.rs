//! Protocol versions.

use crate::models::http::error::HTTPParseError;
use crate::text::{chars_of, lower_seq, spells_ignoring_case};
use vstd::prelude::*;
use vstd::string::StringExecFns;

verus! {

/// The protocol versions that are recognised. A version is a label only:
/// nothing in the framing depends on it.
#[derive(Debug, Clone, Copy, PartialEq, Eq, Hash, Structural)]
pub enum HTTPVersion {
    HTTP1_1,
    HTTP2,
    HTTP3,
}

impl HTTPVersion {
    /// The token that stands for the version on the request line.
    pub open spec fn name(&self) -> Seq<char> {
        match self {
            HTTPVersion::HTTP1_1 => "HTTP/1.1"@,
            HTTPVersion::HTTP2 => "HTTP/2"@,
            HTTPVersion::HTTP3 => "HTTP/3"@,
        }
    }

    /// The version that `token` stands for: the one whose name it is once
    /// ASCII case is set aside.
    pub open spec fn named(token: Seq<char>) -> Option<HTTPVersion> {
        if lower_seq(token) == lower_seq(HTTPVersion::HTTP1_1.name()) {
            Some(HTTPVersion::HTTP1_1)
        } else if lower_seq(token) == lower_seq(HTTPVersion::HTTP2.name()) {
            Some(HTTPVersion::HTTP2)
        } else if lower_seq(token) == lower_seq(HTTPVersion::HTTP3.name()) {
            Some(HTTPVersion::HTTP3)
        } else {
            None
        }
    }

    /// Every version is the one that its own name stands for.
    pub proof fn lemma_named_name(v: HTTPVersion)
        ensures
            Self::named(v.name()) == Some(v),
            v.name().len() > 0,
            !v.name().contains(' '),
            !v.name().contains('\n'),
            !crate::text::is_whitespace(v.name().last()),
    {
        reveal_strlit("HTTP/1.1");
        reveal_strlit("HTTP/2");
        reveal_strlit("HTTP/3");
        let a = lower_seq("HTTP/1.1"@);
        let b = lower_seq("HTTP/2"@);
        let c = lower_seq("HTTP/3"@);
        assert(a.len() == 8 && b.len() == 6 && c.len() == 6);
        assert(b[5] == '2' && c[5] == '3');
    }

    /// The token that stands for the version.
    pub fn as_str(&self) -> (s: &'static str)
        ensures
            s@ == self.name(),
    {
        match self {
            HTTPVersion::HTTP1_1 => "HTTP/1.1",
            HTTPVersion::HTTP2 => "HTTP/2",
            HTTPVersion::HTTP3 => "HTTP/3",
        }
    }

    /// A copy of the token that stands for the version.
    pub fn to_string(&self) -> (s: String)
        ensures
            s@ == self.name(),
    {
        let mut s = String::new();
        s.append(self.as_str());
        s
    }

    /// The version that `token` stands for, or
    /// [`HTTPParseError::UnsupportedVersion`] where it stands for none.
    pub fn from_chars(token: &[char]) -> (r: Result<HTTPVersion, HTTPParseError>)
        ensures
            r == match Self::named(token@) {
                Some(v) => Ok::<HTTPVersion, HTTPParseError>(v),
                None => Err(HTTPParseError::UnsupportedVersion),
            },
    {
        if spells_ignoring_case(token, "HTTP/1.1") {
            Ok(HTTPVersion::HTTP1_1)
        } else if spells_ignoring_case(token, "HTTP/2") {
            Ok(HTTPVersion::HTTP2)
        } else if spells_ignoring_case(token, "HTTP/3") {
            Ok(HTTPVersion::HTTP3)
        } else {
            Err(HTTPParseError::UnsupportedVersion)
        }
    }

    /// The version that `s` stands for; see [`HTTPVersion::from_chars`].
    pub fn from_str(s: &str) -> (r: Result<HTTPVersion, HTTPParseError>)
        ensures
            r == match Self::named(s@) {
                Some(v) => Ok::<HTTPVersion, HTTPParseError>(v),
                None => Err(HTTPParseError::UnsupportedVersion),
            },
    {
        let chars = chars_of(s);
        Self::from_chars(chars.as_slice())
    }
}

impl core::str::FromStr for HTTPVersion {
    type Err = HTTPParseError;

    /// The version that `s` stands for, or
    /// [`HTTPParseError::UnsupportedVersion`] where it stands for none.
    fn from_str(s: &str) -> (r: Result<HTTPVersion, HTTPParseError>)
        ensures
            r == match HTTPVersion::named(s@) {
                Some(v) => Ok::<HTTPVersion, HTTPParseError>(v),
                None => Err(HTTPParseError::UnsupportedVersion),
            },
    {
        HTTPVersion::from_str(s)
    }
}

} // verus!
