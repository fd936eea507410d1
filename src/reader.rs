use vstd::prelude::*;

use crate::outcome::{BlobError, Failure, STATUS_OK};
use crate::request::{blob_url, blob_url_of};

verus! {

/// What reading a blob yields from the aggregator's answer `status`, `body`.
pub open spec fn read_outcome(status: u16, body: Seq<u8>) -> Result<Seq<u8>, Failure> {
    if status == STATUS_OK {
        Ok(body)
    } else {
        Err(Failure::Status(status))
    }
}

/// The view of a read's result.
pub open spec fn read_view(r: Result<Vec<u8>, BlobError>) -> Result<Seq<u8>, Failure> {
    match r {
        Ok(b) => Ok(b@),
        Err(e) => Err(e@),
    }
}

/// The URL that the service fetches to read the blob `blob_id` from `aggregator_url`.
pub fn read_request_url(aggregator_url: &str, blob_id: &str) -> (r: String)
    ensures
        r@ == blob_url_of(aggregator_url@, blob_id@),
{
    blob_url(aggregator_url, blob_id)
}

/// The bytes of the blob, passed through unchanged, if the aggregator answered with status
/// 200; otherwise an error that carries the status.
pub fn read_response(status: u16, body: Vec<u8>) -> (r: Result<Vec<u8>, BlobError>)
    ensures
        read_view(r) == read_outcome(status, body@),
        status == STATUS_OK ==> r == Ok::<Vec<u8>, BlobError>(body),
{
    if status == STATUS_OK {
        Ok(body)
    } else {
        Err(BlobError::Status { status })
    }
}

} // verus!
