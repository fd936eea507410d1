use walrus_demo::checker::{check_response, verify_digest, BlobVerifier};
use walrus_demo::digest::digests_equal;
use walrus_demo::outcome::BlobError;
use walrus_demo::reader::read_response;
use walrus_demo::request::blob_url;
use walrus_demo::Operation;

const CONTENTS: &[u8] = b"Linera test blob";

const CONTENTS_DIGEST: [u8; 32] = [
    176, 16, 248, 36, 73, 249, 200, 4, 17, 18, 147, 221, 241, 218, 125, 89, 71, 34, 155, 170,
    183, 208, 80, 116, 54, 51, 61, 85, 2, 137, 243, 104,
];

const CONTENTS_DIGEST_HEX: &str =
    "b010f82449f9c804111293ddf1da7d5947229baab7d0507436333d550289f368";

#[test]
fn blob_url_joins_base_path_and_id() {
    assert_eq!(
        blob_url("https://agg.example", "abc"),
        "https://agg.example/v1/blobs/abc"
    );
    assert_eq!(blob_url("", ""), "/v1/blobs/");
}

#[test]
fn matching_digest_passes() {
    assert_eq!(check_response(200, CONTENTS, &CONTENTS_DIGEST), Ok(()));
}

#[test]
fn all_zero_digest_aborts_with_mismatch() {
    let zero = [0u8; 32];
    let r = check_response(200, CONTENTS, &zero);
    assert_eq!(
        r,
        Err(BlobError::HashMismatch { expected: zero, actual: CONTENTS_DIGEST })
    );
    let message = r.unwrap_err().message();
    assert_eq!(
        message,
        format!("Expected blob hash {}, but got {}", "0".repeat(64), CONTENTS_DIGEST_HEX)
    );
}

#[test]
fn empty_blob_digest() {
    let empty_digest: [u8; 32] = [
        0xe3, 0xb0, 0xc4, 0x42, 0x98, 0xfc, 0x1c, 0x14, 0x9a, 0xfb, 0xf4, 0xc8, 0x99, 0x6f, 0xb9,
        0x24, 0x27, 0xae, 0x41, 0xe4, 0x64, 0x9b, 0x93, 0x4c, 0xa4, 0x95, 0x99, 0x1b, 0x78, 0x52,
        0xb8, 0x55,
    ];
    assert_eq!(check_response(200, &[], &empty_digest), Ok(()));
    assert_eq!(read_response(200, Vec::new()), Ok(Vec::new()));
}

#[test]
fn bad_status_fails_check_and_read() {
    assert_eq!(
        check_response(404, CONTENTS, &CONTENTS_DIGEST),
        Err(BlobError::Status { status: 404 })
    );
    let err = read_response(500, CONTENTS.to_vec()).unwrap_err();
    assert_eq!(err, BlobError::Status { status: 500 });
    assert_eq!(err.status(), Some(500));
    assert_eq!(err.message(), "Failed to read blob. Status code: 500");
}

#[test]
fn status_message_for_small_code() {
    assert_eq!(
        BlobError::Status { status: 7 }.message(),
        "Failed to read blob. Status code: 7"
    );
}

#[test]
fn read_is_repeatable() {
    let first = read_response(200, CONTENTS.to_vec());
    let second = read_response(200, CONTENTS.to_vec());
    assert_eq!(first, second);
    assert_eq!(first.unwrap(), CONTENTS);
}

#[test]
fn verify_digest_compares_bytes() {
    let mut other = CONTENTS_DIGEST;
    other[31] ^= 1;
    assert_eq!(verify_digest(&CONTENTS_DIGEST, &CONTENTS_DIGEST), Ok(()));
    let err = verify_digest(&other, &CONTENTS_DIGEST).unwrap_err();
    assert_eq!(err, BlobError::HashMismatch { expected: other, actual: CONTENTS_DIGEST });
    assert_eq!(err.status(), None);
    assert!(digests_equal(&CONTENTS_DIGEST, &CONTENTS_DIGEST));
    assert!(!digests_equal(&other, &CONTENTS_DIGEST));
}

#[test]
fn verifier_keeps_its_aggregator() {
    let verifier = BlobVerifier::new("http://localhost:9000".to_owned());
    assert_eq!(verifier.aggregator_url(), "http://localhost:9000");
    let operation = Operation::CheckBlob { blob_id: "id".to_owned(), blob_hash: [0; 32] };
    assert_eq!(verifier.request_url(&operation), "http://localhost:9000/v1/blobs/id");
    assert_eq!(
        verifier.check(&operation, 503, CONTENTS),
        Err(BlobError::Status { status: 503 })
    );
    assert!(matches!(
        verifier.check(&operation, 200, CONTENTS),
        Err(BlobError::HashMismatch { .. })
    ));
}
