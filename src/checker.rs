use vstd::prelude::*;

use crate::digest::{digests_equal, sha256, sha256_of};
use crate::outcome::{failure_of, BlobError, Failure, STATUS_OK};
use crate::request::{blob_url, blob_url_of};
use crate::Operation;

verus! {

/// What comparing an expected digest with the blob's actual one yields.
pub open spec fn digest_outcome(expected: Seq<u8>, actual: Seq<u8>) -> Option<Failure> {
    if expected == actual {
        None
    } else {
        Some(Failure::Mismatch { expected, actual })
    }
}

/// What checking the aggregator's answer `status`, `body` against `expected` yields.
pub open spec fn check_outcome(status: u16, body: Seq<u8>, expected: Seq<u8>) -> Option<Failure> {
    if status != STATUS_OK {
        Some(Failure::Status(status))
    } else {
        digest_outcome(expected, sha256_of(body))
    }
}

/// Compares the digest that a caller expects with the one computed from a blob.
pub fn verify_digest(expected: &[u8; 32], actual: &[u8; 32]) -> (r: Result<(), BlobError>)
    ensures
        failure_of(r) == digest_outcome(expected@, actual@),
        r is Err ==> r == Err::<(), BlobError>(
            BlobError::HashMismatch { expected: *expected, actual: *actual },
        ),
{
    if digests_equal(expected, actual) {
        Ok(())
    } else {
        Err(BlobError::HashMismatch { expected: *expected, actual: *actual })
    }
}

/// Checks an aggregator's answer: the status must be 200 and the SHA-256 digest of the body
/// must be `expected`.
pub fn check_response(status: u16, body: &[u8], expected: &[u8; 32]) -> (r: Result<(), BlobError>)
    ensures
        failure_of(r) == check_outcome(status, body@, expected@),
{
    if status != STATUS_OK {
        return Err(BlobError::Status { status });
    }
    let actual = sha256(body);
    verify_digest(expected, &actual)
}

/// The contract's decisions: which blob to fetch for an operation, and whether the
/// aggregator's answer passes. The aggregator it asks is fixed when it is made.
pub struct BlobVerifier {
    aggregator_url: String,
}

impl BlobVerifier {
    /// The base URL of the aggregator that this verifier asks.
    pub closed spec fn aggregator(&self) -> Seq<char> {
        self.aggregator_url@
    }

    /// A verifier bound to the aggregator at `aggregator_url`.
    pub fn new(aggregator_url: String) -> (r: Self)
        ensures
            r.aggregator() == aggregator_url@,
    {
        BlobVerifier { aggregator_url }
    }

    /// The aggregator's base URL.
    pub fn aggregator_url(&self) -> (r: &str)
        ensures
            r@ == self.aggregator(),
    {
        self.aggregator_url.as_str()
    }

    /// The URL to fetch for `operation`: `{aggregator}/v1/blobs/{blob_id}`.
    pub fn request_url(&self, operation: &Operation) -> (r: String)
        ensures
            r@ == (match operation {
                Operation::CheckBlob { blob_id, .. } => blob_url_of(self.aggregator(), blob_id@),
            }),
    {
        match operation {
            Operation::CheckBlob { blob_id, .. } => blob_url(self.aggregator_url.as_str(), blob_id.as_str()),
        }
    }

    /// Whether the aggregator's answer to the request for `operation` lets the operation
    /// complete; an `Err` aborts it.
    pub fn check(&self, operation: &Operation, status: u16, body: &[u8]) -> (r: Result<(), BlobError>)
        ensures
            failure_of(r) == (match operation {
                Operation::CheckBlob { blob_hash, .. } => check_outcome(status, body@, blob_hash@),
            }),
    {
        match operation {
            Operation::CheckBlob { blob_hash, .. } => check_response(status, body, blob_hash),
        }
    }
}

} // verus!
