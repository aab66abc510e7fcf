//! Reading the target of a redirect.

use vstd::prelude::*;

verus! {

/// The serialization of the absolute URL that `text` parses to, if it parses.
pub uninterp spec fn parsed_url(text: Seq<char>) -> Option<Seq<char>>;

/// Relies on `url::Url::parse`, which accepts only an absolute URL, and on
/// `From<Url> for String`, which hands back the URL's serialization.
#[verifier::external_body]
pub(crate) fn parse_absolute(text: &str) -> (r: Option<String>)
    ensures
        r is None <==> parsed_url(text@) is None,
        r is Some ==> parsed_url(text@) == Some(r->0@),
{
    url::Url::parse(text).ok().map(String::from)
}

} // verus!
