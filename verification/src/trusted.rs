//! Calls into outside crates that the core relies on.

use vstd::prelude::*;

verus! {

/// Relies on uuid::Uuid::new_v4 and its Display impl: a freshly generated
/// version-4 UUID, formatted as the hyphenated lowercase form, which is
/// always 36 characters long. The value is random, so nothing more is
/// stated of it.
#[verifier::external_body]
pub(crate) fn new_list_id() -> (r: String)
    ensures
        r@.len() == 36,
{
    uuid::Uuid::new_v4().to_string()
}

/// What the first query pair's value of a URI text is, after the URI is
/// parsed and its query decoded: a function of the text alone, named here
/// because spelling out URL parsing would take pages.
pub uninterp spec fn uri_first_query_value(uri: Seq<char>) -> Option<Seq<char>>;

/// Relies on reqwest::Url::from_str (the url crate's parser) and
/// Url::query_pairs: parsing a URI and decoding its query pairs are
/// deterministic functions of the text, so the first pair's value, or its
/// absence, is named by `uri_first_query_value`.
#[verifier::external_body]
pub(crate) fn first_query_value(uri: &str) -> (r: Option<String>)
    ensures
        r matches Some(v) ==> uri_first_query_value(uri@) == Some(v@),
        r is None ==> uri_first_query_value(uri@) is None,
{
    match <reqwest::Url as std::str::FromStr>::from_str(uri) {
        Ok(url) => url.query_pairs().next().map(|pair| pair.1.to_string()),
        Err(_) => None,
    }
}

} // verus!
