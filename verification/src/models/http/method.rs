//! Request methods.

use crate::models::http::error::HTTPParseError;
use crate::text::{chars_of, spells};
use vstd::prelude::*;
use vstd::string::StringExecFns;

verus! {

/// The request methods that are understood. Any other token is an error,
/// not a further method.
#[derive(Debug, Clone, Copy, PartialEq, Eq, Hash, Structural)]
pub enum HTTPMethod {
    GET,
    POST,
    PATCH,
    DELETE,
}

impl HTTPMethod {
    /// The token that stands for the method on the request line.
    pub open spec fn name(&self) -> Seq<char> {
        match self {
            HTTPMethod::GET => "GET"@,
            HTTPMethod::POST => "POST"@,
            HTTPMethod::PATCH => "PATCH"@,
            HTTPMethod::DELETE => "DELETE"@,
        }
    }

    /// The method that `token` stands for: the one whose name it is,
    /// character for character.
    pub open spec fn named(token: Seq<char>) -> Option<HTTPMethod> {
        if token == HTTPMethod::GET.name() {
            Some(HTTPMethod::GET)
        } else if token == HTTPMethod::POST.name() {
            Some(HTTPMethod::POST)
        } else if token == HTTPMethod::PATCH.name() {
            Some(HTTPMethod::PATCH)
        } else if token == HTTPMethod::DELETE.name() {
            Some(HTTPMethod::DELETE)
        } else {
            None
        }
    }

    /// Every method is the one that its own name stands for.
    pub proof fn lemma_named_name(m: HTTPMethod)
        ensures
            Self::named(m.name()) == Some(m),
            m.name().len() > 0,
            !m.name().contains(' '),
            !m.name().contains('\n'),
    {
        reveal_strlit("GET");
        reveal_strlit("POST");
        reveal_strlit("PATCH");
        reveal_strlit("DELETE");
        assert("GET"@.len() == 3 && "POST"@.len() == 4 && "PATCH"@.len() == 5 && "DELETE"@.len()
            == 6);
    }

    /// The token that stands for the method.
    pub fn as_str(&self) -> (s: &'static str)
        ensures
            s@ == self.name(),
    {
        match self {
            HTTPMethod::GET => "GET",
            HTTPMethod::POST => "POST",
            HTTPMethod::PATCH => "PATCH",
            HTTPMethod::DELETE => "DELETE",
        }
    }

    /// A copy of the token that stands for the method.
    pub fn to_string(&self) -> (s: String)
        ensures
            s@ == self.name(),
    {
        let mut s = String::new();
        s.append(self.as_str());
        s
    }

    /// The method that `token` stands for, or
    /// [`HTTPParseError::UnsupportedMethod`] where it stands for none.
    pub fn from_chars(token: &[char]) -> (r: Result<HTTPMethod, HTTPParseError>)
        ensures
            r == match Self::named(token@) {
                Some(m) => Ok::<HTTPMethod, HTTPParseError>(m),
                None => Err(HTTPParseError::UnsupportedMethod),
            },
    {
        if spells(token, "GET") {
            Ok(HTTPMethod::GET)
        } else if spells(token, "POST") {
            Ok(HTTPMethod::POST)
        } else if spells(token, "PATCH") {
            Ok(HTTPMethod::PATCH)
        } else if spells(token, "DELETE") {
            Ok(HTTPMethod::DELETE)
        } else {
            Err(HTTPParseError::UnsupportedMethod)
        }
    }

    /// The method that `s` stands for; see [`HTTPMethod::from_chars`].
    pub fn from_str(s: &str) -> (r: Result<HTTPMethod, HTTPParseError>)
        ensures
            r == match Self::named(s@) {
                Some(m) => Ok::<HTTPMethod, HTTPParseError>(m),
                None => Err(HTTPParseError::UnsupportedMethod),
            },
    {
        let chars = chars_of(s);
        Self::from_chars(chars.as_slice())
    }
}

impl core::str::FromStr for HTTPMethod {
    type Err = HTTPParseError;

    /// The method that `s` stands for, or
    /// [`HTTPParseError::UnsupportedMethod`] where it stands for none.
    fn from_str(s: &str) -> (r: Result<HTTPMethod, HTTPParseError>)
        ensures
            r == match HTTPMethod::named(s@) {
                Some(m) => Ok::<HTTPMethod, HTTPParseError>(m),
                None => Err(HTTPParseError::UnsupportedMethod),
            },
    {
        HTTPMethod::from_str(s)
    }
}

} // verus!
