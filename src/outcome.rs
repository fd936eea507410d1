use vstd::prelude::*;
use vstd::string::*;

use crate::digest::{decimal, decimal_of, hex_encode, hex_of};

verus! {

/// Why fetching or checking a blob failed, as mathematical values.
pub enum Failure {
    /// The aggregator answered with a status other than 200.
    Status(u16),
    /// The blob's digest `actual` differs from the expected one.
    Mismatch { expected: Seq<u8>, actual: Seq<u8> },
}

/// Why fetching or checking a blob failed.
#[derive(Clone, Copy, Debug, PartialEq, Eq)]
pub enum BlobError {
    /// The aggregator answered with a status other than 200.
    Status { status: u16 },
    /// The SHA-256 digest of the blob's contents, `actual`, differs from `expected`.
    HashMismatch { expected: [u8; 32], actual: [u8; 32] },
}

impl View for BlobError {
    type V = Failure;

    open spec fn view(&self) -> Failure {
        match self {
            BlobError::Status { status } => Failure::Status(*status),
            BlobError::HashMismatch { expected, actual } => Failure::Mismatch {
                expected: expected@,
                actual: actual@,
            },
        }
    }
}

/// The HTTP status with which an aggregator serves a blob.
pub const STATUS_OK: u16 = 200;

/// The failure of an outcome with no value, if any.
pub open spec fn failure_of(r: Result<(), BlobError>) -> Option<Failure> {
    match r {
        Ok(()) => None,
        Err(e) => Some(e@),
    }
}

/// The text that describes a failure.
pub open spec fn message_of(f: Failure) -> Seq<char> {
    match f {
        Failure::Status(status) => "Failed to read blob. Status code: "@ + decimal_of(status as nat),
        Failure::Mismatch { expected, actual } => "Expected blob hash "@ + hex_of(expected)
            + ", but got "@ + hex_of(actual),
    }
}

impl BlobError {
    /// Describes the failure; a digest mismatch names both digests in hexadecimal.
    pub fn message(&self) -> (r: String)
        ensures
            r@ == message_of(self@),
    {
        match self {
            BlobError::Status { status } => {
                let mut text = String::from_str("Failed to read blob. Status code: ");
                let code = decimal(*status);
                text.append(code.as_str());
                text
            },
            BlobError::HashMismatch { expected, actual } => {
                let mut text = String::from_str("Expected blob hash ");
                let expected_hex = hex_encode(expected.as_slice());
                text.append(expected_hex.as_str());
                text.append(", but got ");
                let actual_hex = hex_encode(actual.as_slice());
                text.append(actual_hex.as_str());
                text
            },
        }
    }

    /// The HTTP status code, where the aggregator's answer was the failure.
    pub fn status(&self) -> (r: Option<u16>)
        ensures
            r == (match self@ {
                Failure::Status(s) => Some(s),
                Failure::Mismatch { .. } => None,
            }),
    {
        match self {
            BlobError::Status { status } => Some(*status),
            BlobError::HashMismatch { .. } => None,
        }
    }
}

} // verus!
