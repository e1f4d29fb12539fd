//! HTTP Basic authentication.

use vstd::prelude::*;

verus! {

/// The value of the `Authorization` header that the headers crate writes for
/// the user name `key` and the password `secret`.
pub uninterp spec fn basic_credentials(key: Seq<char>, secret: Seq<char>) -> Seq<u8>;

/// Calls `headers::Authorization::basic` and encodes the credentials it gives
/// with `headers::authorization::Credentials::encode`. The bytes of the header
/// value depend on the two strings alone; the contract gives them the name
/// [`basic_credentials`].
#[verifier::external_body]
fn headers_basic(key: &str, secret: &str) -> (value: Vec<u8>)
    ensures
        value@ == basic_credentials(key@, secret@),
{
    let authorization = headers::Authorization::basic(key, secret);
    headers::authorization::Credentials::encode(&authorization.0).as_bytes().to_vec()
}

/// The value of the `Authorization` header that signs a request with the
/// pair `key`, `secret`: the scheme `Basic` and the pair in base64.
pub fn basic_authorization(key: &str, secret: &str) -> (value: Vec<u8>)
    ensures
        value@ == basic_credentials(key@, secret@),
{
    headers_basic(key, secret)
}

} // verus!
