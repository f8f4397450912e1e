//! Utility functions for HTTP headers.

use crate::util::text::split_at_first;
use vstd::prelude::*;
use vstd::string::StringExecFns;

verus! {

/// Representation of the HTTP "Authorization" header.
#[derive(Debug)]
pub struct Authorization {
    pub scheme: String,
    pub params: String,
}

#[derive(Debug, Clone, Copy, PartialEq, Eq, Structural)]
#[non_exhaustive]
pub enum AuthorizationParseError {
    /// The header holds no space, and so no scheme.
    MissingScheme,
}

impl Authorization {
    /// Splits a header at its first space into scheme and parameters.
    pub fn from_str(s: &str) -> (parsed: Result<Self, AuthorizationParseError>)
        ensures
            match parsed {
                Ok(header) => {
                    &&& s@ == header.scheme@ + seq![' '] + header.params@
                    &&& !header.scheme@.contains(' ')
                },
                Err(error) => !s@.contains(' ') && error == AuthorizationParseError::MissingScheme,
            },
    {
        if let Some((scheme, params)) = split_at_first(s, ' ') {
            Ok(Authorization { scheme: scheme.to_owned(), params: params.to_owned() })
        } else {
            Err(AuthorizationParseError::MissingScheme)
        }
    }

    /// The header as it is sent: the scheme, a space and the parameters.
    pub fn to_string(&self) -> (text: String)
        ensures
            text@ == self.scheme@ + seq![' '] + self.params@,
    {
        let mut text = self.scheme.clone();
        text.append(" ");
        text.append(self.params.as_str());
        proof {
            reveal_strlit(" ");
        }
        text
    }
}

impl core::str::FromStr for Authorization {
    type Err = AuthorizationParseError;

    fn from_str(s: &str) -> (parsed: Result<Self, Self::Err>)
        ensures
            match parsed {
                Ok(header) => {
                    &&& s@ == header.scheme@ + seq![' '] + header.params@
                    &&& !header.scheme@.contains(' ')
                },
                Err(error) => !s@.contains(' ') && error == AuthorizationParseError::MissingScheme,
            },
    {
        Authorization::from_str(s)
    }
}

impl Clone for Authorization {
    fn clone(&self) -> (copy: Self)
        ensures
            copy == *self,
    {
        Authorization { scheme: self.scheme.clone(), params: self.params.clone() }
    }
}

impl AuthorizationParseError {
    /// What the error says.
    pub fn to_string(&self) -> (text: String)
        ensures
            text@ == "Could not find authorization scheme"@,
    {
        String::from_str("Could not find authorization scheme")
    }
}

} // verus!
