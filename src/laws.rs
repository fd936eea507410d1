use vstd::prelude::*;

use crate::checker::check_outcome;
use crate::digest::{decimal_of, hex_of, sha256_of};
use crate::outcome::{message_of, BlobError, Failure, STATUS_OK};
use crate::reader::{read_outcome, read_view};

verus! {

/// Whether `t` occurs in `s` as a contiguous run.
pub open spec fn has_infix(s: Seq<char>, t: Seq<char>) -> bool {
    exists|i: int| 0 <= i && i + t.len() <= s.len() && #[trigger] s.subrange(i, i + t.len()) == t
}

proof fn lemma_infix_of_concat(a: Seq<char>, t: Seq<char>, c: Seq<char>)
    ensures
        has_infix(a + t + c, t),
{
    let s = a + t + c;
    assert(s.subrange(a.len() as int, (a.len() + t.len()) as int) =~= t);
}

/// A blob served with status 200 whose digest is the expected one passes the check, and
/// reading it yields exactly its bytes.
pub proof fn lemma_retrievable_blob_passes(body: Seq<u8>, expected: Seq<u8>)
    requires
        expected == sha256_of(body),
    ensures
        check_outcome(STATUS_OK, body, expected) == None::<Failure>,
        read_outcome(STATUS_OK, body) == Ok::<Seq<u8>, Failure>(body),
{
}

/// Checking a blob served with status 200 against any digest but its own fails with a
/// mismatch, whose message holds both digests in hexadecimal.
pub proof fn lemma_wrong_digest_aborts(body: Seq<u8>, expected: Seq<u8>)
    requires
        expected != sha256_of(body),
    ensures
        check_outcome(STATUS_OK, body, expected) == Some(
            Failure::Mismatch { expected, actual: sha256_of(body) },
        ),
        has_infix(
            message_of(Failure::Mismatch { expected, actual: sha256_of(body) }),
            hex_of(expected),
        ),
        has_infix(
            message_of(Failure::Mismatch { expected, actual: sha256_of(body) }),
            hex_of(sha256_of(body)),
        ),
{
    let e = hex_of(expected);
    let a = hex_of(sha256_of(body));
    lemma_infix_of_concat("Expected blob hash "@, e, ", but got "@ + a);
    assert("Expected blob hash "@ + e + (", but got "@ + a) =~= "Expected blob hash "@ + e
        + ", but got "@ + a);
    lemma_infix_of_concat("Expected blob hash "@ + e + ", but got "@, a, Seq::empty());
    assert("Expected blob hash "@ + e + ", but got "@ + a + Seq::<char>::empty()
        =~= "Expected blob hash "@ + e + ", but got "@ + a);
}

/// An answer with a status other than 200 fails both the check and the read, and either
/// failure carries the status, which its message names.
pub proof fn lemma_bad_status_fails(status: u16, body: Seq<u8>, expected: Seq<u8>)
    requires
        status != STATUS_OK,
    ensures
        check_outcome(status, body, expected) == Some(Failure::Status(status)),
        read_outcome(status, body) == Err::<Seq<u8>, Failure>(Failure::Status(status)),
        has_infix(message_of(Failure::Status(status)), decimal_of(status as nat)),
{
    let prefix = "Failed to read blob. Status code: "@;
    let d = decimal_of(status as nat);
    lemma_infix_of_concat(prefix, d, Seq::empty());
    assert(prefix + d + Seq::<char>::empty() =~= prefix + d);
}

/// Reading a blob twice, with the aggregator's answer unchanged, yields the same result.
pub proof fn lemma_read_is_repeatable(
    status: u16,
    body: Seq<u8>,
    first: Result<Vec<u8>, BlobError>,
    second: Result<Vec<u8>, BlobError>,
)
    requires
        read_view(first) == read_outcome(status, body),
        read_view(second) == read_outcome(status, body),
    ensures
        read_view(first) == read_view(second),
        first is Ok <==> second is Ok,
        first is Ok ==> first->Ok_0@ == second->Ok_0@,
{
}

} // verus!
