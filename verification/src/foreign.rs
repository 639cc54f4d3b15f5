use vstd::prelude::*;
use vstd::utf8::{decode_utf8, valid_utf8};

verus! {

// ---------------------------------------------------------------------------
// uuid crate
// ---------------------------------------------------------------------------
/// `uuid::Uuid` carried through decoding as an opaque value.
#[verifier::external_type_specification]
#[verifier::external_body]
pub struct ExUuid(uuid::Uuid);

/// The UUID that the uuid crate builds from sixteen given bytes; it depends on
/// the bytes alone.
pub uninterp spec fn uuid_of(b: Seq<u8>) -> uuid::Uuid;

/// Relies on `uuid::Uuid::from_slice`: on a slice of exactly sixteen bytes it
/// always returns `Ok` of the UUID made of those bytes in order.
#[verifier::external_body]
pub(crate) fn uuid_from_bytes(b: &[u8]) -> (r: uuid::Uuid)
    requires
        b@.len() == 16,
    ensures
        r == uuid_of(b@),
{
    uuid::Uuid::from_slice(b).unwrap()
}

// ---------------------------------------------------------------------------
// time crate
// ---------------------------------------------------------------------------
/// `time::Timespec` with its two public fields visible to the verifier.
#[verifier::external_type_specification]
pub struct ExTimespec(time::Timespec);

/// Relies on `time::Timespec::new`: it stores its two arguments unchanged, and
/// asserts that the nanosecond part lies in `[0, 1_000_000_000)`, so that
/// range is required here.
pub assume_specification[ time::Timespec::new ](sec: i64, nsec: i32) -> (r: time::Timespec)
    requires
        0 <= nsec < 1_000_000_000,
    ensures
        r.sec == sec,
        r.nsec == nsec,
;

// ---------------------------------------------------------------------------
// std items that vstd leaves unspecified
// ---------------------------------------------------------------------------
/// Relies on `String::from_utf8`: it returns `Ok` exactly on a valid UTF-8
/// byte string, and the string then reads as that byte string's decoding.
#[verifier::external_body]
pub(crate) fn string_from_utf8(b: Vec<u8>) -> (r: Option<String>)
    ensures
        r is Some <==> valid_utf8(b@),
        r is Some ==> r->0@ == decode_utf8(b@),
{
    String::from_utf8(b).ok()
}

/// Relies on `Arc::clone`: the clone shares the same schema value.
#[verifier::external_body]
pub(crate) fn share_schema(s: &std::sync::Arc<crate::rows::ResultSchema>) -> (r: std::sync::Arc<
    crate::rows::ResultSchema,
>)
    ensures
        r == *s,
{
    std::sync::Arc::clone(s)
}

/// Relies on `<str as PartialEq>::eq`: two string slices compare equal exactly
/// when their characters do.
#[verifier::external_body]
pub(crate) fn str_eq(a: &str, b: &str) -> (r: bool)
    ensures
        r == (a@ == b@),
{
    a == b
}

} // verus!
