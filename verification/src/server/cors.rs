//! The headers that open an answer to every origin.

use vstd::prelude::*;

verus! {

/// Wrapper for adding wildcard CORS headers to an answer.
#[derive(Debug)]
pub struct WithWildcardCors<T>(pub T);

/// A header of an answer: its name and its value.
#[derive(Debug, Clone, Copy)]
pub struct CorsHeader {
    pub name: &'static str,
    pub value: &'static str,
}

impl<T> WithWildcardCors<T> {
    /// The headers that are added to the answer: any origin may ask, with
    /// the methods `GET`, `POST` and `OPTIONS`, and may send the header
    /// `Content-Type`.
    pub fn headers(&self) -> (headers: [CorsHeader; 3])
        ensures
            headers[0].name@ == "Access-Control-Allow-Origin"@,
            headers[0].value@ == "*"@,
            headers[1].name@ == "Access-Control-Allow-Methods"@,
            headers[1].value@ == "GET, POST, OPTIONS"@,
            headers[2].name@ == "Access-Control-Allow-Headers"@,
            headers[2].value@ == "Content-Type"@,
    {
        [
            CorsHeader { name: "Access-Control-Allow-Origin", value: "*" },
            CorsHeader { name: "Access-Control-Allow-Methods", value: "GET, POST, OPTIONS" },
            CorsHeader { name: "Access-Control-Allow-Headers", value: "Content-Type" },
        ]
    }

    /// The answer without the headers.
    pub fn into_inner(self) -> (inner: T)
        ensures
            inner == self.0,
    {
        self.0
    }
}

} // verus!
