//! UUIDs, held as their 128-bit values.
use vstd::prelude::*;

verus! {

/// What `uuid::Uuid::parse_str` gives for `s`: the UUID's 128-bit value
/// (`Uuid::as_u128`), or `None` when `s` is not a UUID.
pub uninterp spec fn parsed_uuid(s: Seq<char>) -> Option<u128>;

/// Calls `uuid::Uuid::parse_str` and takes the value of the parsed UUID.
/// The contract names the result; the accepted textual forms are not
/// restated.
#[verifier::external_body]
pub(crate) fn parse_uuid(s: &str) -> (r: Option<u128>)
    ensures
        r == parsed_uuid(s@),
{
    match uuid::Uuid::parse_str(s) {
        Ok(u) => Some(u.as_u128()),
        Err(_) => None,
    }
}

/// Calls `uuid::Uuid::new_v4`: a random version-4 UUID, whose version
/// nibble is 4 and whose variant bits are `10`.
#[verifier::external_body]
pub(crate) fn fresh_uuid() -> (r: u128)
    ensures
        (r >> 76u128) & 0xfu128 == 4,
        (r >> 62u128) & 0x3u128 == 2,
{
    uuid::Uuid::new_v4().as_u128()
}

/// The trace id of a request: its request id when that parses as a UUID,
/// else `fallback`.
pub fn trace_id_or(request_id: Option<&str>, fallback: u128) -> (t: u128)
    ensures
        t == match request_id {
            Some(s) => match parsed_uuid(s@) {
                Some(u) => u,
                None => fallback,
            },
            None => fallback,
        },
{
    match request_id {
        Some(s) => match parse_uuid(s) {
            Some(u) => u,
            None => fallback,
        },
        None => fallback,
    }
}

/// The request id as a UUID value, when it is one.
pub open spec fn requested_trace(request_id: Option<Seq<char>>) -> Option<u128> {
    match request_id {
        Some(s) => parsed_uuid(s),
        None => None,
    }
}

/// The trace id of a request: its request id when that parses as a UUID,
/// else a fresh random (version 4) one, so that a missing id never fails
/// the request.
pub fn trace_id(request_id: Option<&str>) -> (t: u128)
    ensures
        requested_trace(crate::text::opt_str_view(request_id)) matches Some(u) ==> t == u,
        requested_trace(crate::text::opt_str_view(request_id)) is None ==> (t >> 76u128) & 0xfu128
            == 4,
{
    let parsed = match request_id {
        Some(s) => parse_uuid(s),
        None => None,
    };
    match parsed {
        Some(u) => u,
        None => fresh_uuid(),
    }
}

} // verus!
