use vstd::prelude::*;
use vstd::string::*;

verus! {

/// The path segment, between the aggregator's base URL and a blob identifier, under which
/// the aggregator serves blobs.
pub open spec fn blobs_path() -> Seq<char> {
    "/v1/blobs/"@
}

/// The URL at which the aggregator `base` serves the blob `blob_id`.
pub open spec fn blob_url_of(base: Seq<char>, blob_id: Seq<char>) -> Seq<char> {
    base + blobs_path() + blob_id
}

/// Builds `{base}/v1/blobs/{blob_id}`.
pub fn blob_url(base: &str, blob_id: &str) -> (r: String)
    ensures
        r@ == blob_url_of(base@, blob_id@),
{
    let mut url = String::from_str(base);
    url.append("/v1/blobs/");
    url.append(blob_id);
    url
}

} // verus!
