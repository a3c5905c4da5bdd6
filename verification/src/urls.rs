use vstd::prelude::*;
use crate::numfmt::{int_dec, i64_to_dec_string};

verus! {

/// The text of the URL that `url`'s parser and query serializer produce
/// from an absolute base URL and one appended key/value query pair; it
/// depends on the three arguments alone.
pub uninterp spec fn url_query_encoded(base: Seq<char>, key: Seq<char>, value: Seq<char>) -> Seq<
    char,
>;

/// Relies on url::Url::parse and form_urlencoded's append_pair (reached
/// through Url::query_pairs_mut): the fixed search endpoint is a valid
/// absolute URL without a query or fragment, so parsing it cannot fail;
/// appending one percent-encoded `q=value` pair and rendering the result
/// is deterministic in `value`.
#[verifier::external_body]
fn search_endpoint_with_query(value: &str) -> (r: String)
    ensures
        r@ == url_query_encoded("https://slavart.gamesdrive.net/api/search"@, "q"@, value@),
{
    let mut u = url::Url::parse("https://slavart.gamesdrive.net/api/search").unwrap();
    u.query_pairs_mut().append_pair("q", value);
    u.as_str().to_string()
}

/// Relies on url::Url::parse and form_urlencoded's append_pair (reached
/// through Url::query_pairs_mut): the fixed download endpoint is a valid
/// absolute URL without a query or fragment, so parsing it cannot fail;
/// appending one percent-encoded `id=value` pair and rendering the result
/// is deterministic in `value`.
#[verifier::external_body]
fn download_endpoint_with_id(value: &str) -> (r: String)
    ensures
        r@ == url_query_encoded(
            "https://slavart-api.gamesdrive.net/api/download/track"@,
            "id"@,
            value@,
        ),
{
    let mut u = url::Url::parse("https://slavart-api.gamesdrive.net/api/download/track").unwrap();
    u.query_pairs_mut().append_pair("id", value);
    u.as_str().to_string()
}

/// Builds the search URL for a free-text query: the fixed search endpoint
/// with the query as its `q` parameter.
pub fn build_search_url(query: &str) -> (r: String)
    ensures
        r@ == url_query_encoded("https://slavart.gamesdrive.net/api/search"@, "q"@, query@),
{
    search_endpoint_with_query(query)
}

/// Builds the download URL for a track: the fixed download endpoint with
/// the track identifier, in decimal, as its `id` parameter.
pub fn build_download_url(track_id: i64) -> (r: String)
    ensures
        r@ == url_query_encoded(
            "https://slavart-api.gamesdrive.net/api/download/track"@,
            "id"@,
            int_dec(track_id as int),
        ),
{
    let id_text = i64_to_dec_string(track_id);
    download_endpoint_with_id(id_text.as_str())
}

} // verus!
