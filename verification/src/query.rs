//! Query parameters and their `application/x-www-form-urlencoded` text.

use vstd::prelude::*;
use crate::error::ErrorKind;

verus! {

#[verifier::external_type_specification]
#[verifier::external_body]
pub struct ExUrlencodedError(serde_urlencoded::ser::Error);

/// The parameters of one request, in the order in which they are sent.
#[derive(Clone, Debug)]
pub struct Query {
    pairs: Vec<(String, String)>,
}

/// The text that serde_urlencoded writes for the pairs `pairs`, key first;
/// `None` where it refuses them.
pub uninterp spec fn form_urlencoded(pairs: Seq<(Seq<char>, Seq<char>)>) -> Option<Seq<char>>;

/// Calls `serde_urlencoded::to_string` on the pairs. Its answer depends on the
/// pairs alone and is the one that [`form_urlencoded`] names. For no pairs at
/// all the serializer appends nothing to the empty string it starts from, and
/// that empty string is the answer.
#[verifier::external_body]
fn urlencode(pairs: &Vec<(String, String)>) -> (text: Result<String, serde_urlencoded::ser::Error>)
    ensures
        match text {
            Ok(t) => form_urlencoded(pairs.deep_view()) == Some(t@),
            Err(_) => form_urlencoded(pairs.deep_view()) is None,
        },
        pairs@.len() == 0 ==> text is Ok && text->Ok_0@ == Seq::<char>::empty(),
{
    serde_urlencoded::to_string(pairs)
}

impl View for Query {
    type V = Seq<(Seq<char>, Seq<char>)>;

    closed spec fn view(&self) -> Seq<(Seq<char>, Seq<char>)> {
        self.pairs.deep_view()
    }
}

impl Query {
    /// A query without parameters.
    pub fn new() -> (query: Query)
        ensures
            query@ == Seq::<(Seq<char>, Seq<char>)>::empty(),
    {
        let query = Query { pairs: Vec::new() };
        assert(query@ =~= Seq::<(Seq<char>, Seq<char>)>::empty());
        query
    }

    /// Adds the parameter `key` with the value `value` behind those that are
    /// there.
    pub fn push(&mut self, key: &str, value: String)
        ensures
            final(self)@ == old(self)@.push((key@, value@)),
    {
        self.pairs.push((key.to_owned(), value));
        assert(self@ =~= old(self)@.push((key@, value@)));
    }

    /// Adds the parameter `key` if it has a value, and nothing if it has
    /// none: an absent parameter is left out, not sent empty.
    pub fn push_present(&mut self, key: &str, value: Option<String>)
        ensures
            final(self)@ == old(self)@ + present(key@, value.deep_view()),
    {
        match value {
            Some(v) => {
                self.push(key, v);
                assert(self@ =~= old(self)@ + present(key@, Some(v@)));
            },
            None => {
                assert(self@ =~= old(self)@ + present(key@, None));
            },
        }
    }

    /// The text of the query, as it follows the `?` of a URL.
    pub open spec fn encoded(self) -> Option<Seq<char>> {
        form_urlencoded(self@)
    }

    /// Encodes the parameters as `key=value` pairs joined by `&`, each key
    /// and value percent-encoded. A query without parameters always encodes,
    /// to the empty string.
    pub fn encode(&self) -> (text: Result<String, ErrorKind>)
        ensures
            match text {
                Ok(t) => self.encoded() == Some(t@),
                Err(e) => e == ErrorKind::Serialization && self.encoded() is None,
            },
            self@.len() == 0 ==> text is Ok && text->Ok_0@ == Seq::<char>::empty(),
    {
        match urlencode(&self.pairs) {
            Ok(t) => Ok(t),
            Err(_) => Err(ErrorKind::Serialization),
        }
    }
}

/// The pairs that an optional parameter contributes: one if it has a value,
/// none if it has not.
pub open spec fn present(key: Seq<char>, value: Option<Seq<char>>) -> Seq<(Seq<char>, Seq<char>)> {
    match value {
        Some(v) => seq![(key, v)],
        None => Seq::empty(),
    }
}

} // verus!
