//! The request that a call of the API comes to, and how it is put together.

use vstd::prelude::*;
use vstd::string::*;
use crate::error::ErrorKind;
use crate::query::{form_urlencoded, Query};

verus! {

/// The HTTP methods that the API uses.
#[derive(Clone, Copy, Debug, PartialEq, Eq, Structural)]
pub enum Method {
    Get,
    Post,
}

/// One request, ready to be sent.
#[derive(Clone, Debug)]
pub struct Request {
    pub method: Method,
    /// The path below the host, beginning with `/`.
    pub path: String,
    /// The encoded query, without the `?` before it.
    pub query: String,
    /// The value of the `Authorization` header, if the request is signed.
    pub authorization: Option<Vec<u8>>,
}

/// What a [`Request`] holds, as plain sequences.
pub ghost struct RequestView {
    pub method: Method,
    pub path: Seq<char>,
    pub query: Seq<char>,
    pub authorization: Option<Seq<u8>>,
}

impl View for Request {
    type V = RequestView;

    open spec fn view(&self) -> RequestView {
        RequestView {
            method: self.method,
            path: self.path@,
            query: self.query@,
            authorization: header_bytes(self.authorization),
        }
    }
}

/// The bytes of a header value that may be absent.
pub open spec fn header_bytes(value: Option<Vec<u8>>) -> Option<Seq<u8>> {
    match value {
        Some(bytes) => Some(bytes@),
        None => None,
    }
}

/// The host that every request goes to, with its scheme.
pub open spec fn base_url() -> Seq<char> {
    "https://api.hitbtc.com"@
}

/// The address of `path` on the host.
pub fn with_base_url(path: &str) -> (url: String)
    ensures
        url@ == base_url() + path@,
{
    let mut url = "https://api.hitbtc.com".to_owned();
    url.append(path);
    url
}

impl RequestView {
    /// The address that the request is sent to: the host, the path, a `?`
    /// and the query. The `?` is there even with an empty query.
    pub open spec fn url(self) -> Seq<char> {
        base_url() + (self.path + "?"@ + self.query)
    }
}

impl Request {
    /// Puts a request together from its parts, `query` being the text that
    /// the parameters were encoded to.
    pub fn assemble(
        authorization: Option<Vec<u8>>,
        method: Method,
        path: &str,
        query: String,
    ) -> (request: Request)
        ensures
            request@ == (RequestView {
                method,
                path: path@,
                query: query@,
                authorization: header_bytes(authorization),
            }),
    {
        Request { method, path: path.to_owned(), query, authorization }
    }

    /// The address that the request is sent to.
    pub fn url(&self) -> (url: String)
        ensures
            url@ == self@.url(),
    {
        let mut tail = self.path.clone();
        tail.append("?");
        tail.append(self.query.as_str());
        with_base_url(tail.as_str())
    }
}

/// What comes of a call, as plain sequences.
pub open spec fn outcome(result: Result<Request, ErrorKind>) -> Result<RequestView, ErrorKind> {
    match result {
        Ok(request) => Ok(request@),
        Err(kind) => Err(kind),
    }
}

/// The request with the given parts and the parameters `pairs`: a
/// serialization error where the parameters cannot be encoded, and else the
/// request whose query is their encoded text.
pub open spec fn prepared(
    authorization: Option<Seq<u8>>,
    method: Method,
    path: Seq<char>,
    pairs: Seq<(Seq<char>, Seq<char>)>,
) -> Result<RequestView, ErrorKind> {
    match form_urlencoded(pairs) {
        Some(query) => Ok(RequestView { method, path, query, authorization }),
        None => Err(ErrorKind::Serialization),
    }
}

/// Encodes the parameters and puts the request together. Nothing is sent: a
/// parameter that cannot be encoded ends the call here. With no parameters
/// the call always succeeds, and the query is empty.
pub fn prepare(
    authorization: Option<Vec<u8>>,
    method: Method,
    path: &str,
    query: &Query,
) -> (result: Result<Request, ErrorKind>)
    ensures
        outcome(result) == prepared(header_bytes(authorization), method, path@, query@),
        query@.len() == 0 ==> result is Ok && result->Ok_0@.query == Seq::<char>::empty(),
{
    match query.encode() {
        Ok(text) => Ok(Request::assemble(authorization, method, path, text)),
        Err(kind) => Err(kind),
    }
}

} // verus!
