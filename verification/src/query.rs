use vstd::prelude::*;
use vstd::string::StringExecFns;

verus! {

/// The `application/x-www-form-urlencoded` rendering of an ordered list of
/// query-parameter pairs: each name and value percent-encoded, written
/// `name=value` and joined with `&`.
pub uninterp spec fn urlencoded_of(pairs: Seq<(Seq<char>, Seq<char>)>) -> Seq<char>;

/// The content of a list of query-parameter pairs.
pub open spec fn pairs_model(pairs: Seq<(String, String)>) -> Seq<(Seq<char>, Seq<char>)> {
    pairs.map(|i: int, p: (String, String)| (p.0@, p.1@))
}

/// Relies on `serde_urlencoded::to_string`: for a sequence of string
/// pairs serialization always succeeds — its errors arise only for
/// unsupported data types — and the encoding depends on the pairs alone.
#[verifier::external_body]
fn encode_query(pairs: &Vec<(String, String)>) -> (r: Option<String>)
    ensures
        r is Some,
        r matches Some(q) ==> q@ == urlencoded_of(pairs_model(pairs@)),
{
    serde_urlencoded::to_string(pairs).ok()
}

/// Builds the upstream request URL: the base URL, a `?`, and the
/// percent-encoded query parameters in their given order.
pub fn build_query_url(base: &str, pairs: &Vec<(String, String)>) -> (r: String)
    ensures
        r@ == base@ + "?"@ + urlencoded_of(pairs_model(pairs@)),
{
    let encoded = encode_query(pairs).unwrap();
    String::from_str(base).concat("?").concat(encoded.as_str())
}

} // verus!
