use vstd::prelude::*;

pub mod digest;
pub mod outcome;
pub mod request;
pub mod checker;
pub mod reader;
pub mod laws;

verus! {

/// The interface shared by the blob-checking contract and the blob-reading service.
pub struct ApplicationAbi;

/// Operations that the contract accepts.
#[derive(Clone, Debug)]
pub enum Operation {
    /// Checks that the blob `blob_id` can be fetched from the aggregator and that the
    /// SHA-256 digest of its contents is `blob_hash`.
    CheckBlob { blob_id: String, blob_hash: [u8; 32] },
}

} // verus!
