use vstd::prelude::*;

verus! {

/// The number of seconds since the Unix epoch named by an RFC 3339
/// timestamp text, or `None` when the text is not a valid RFC 3339
/// timestamp. The value depends on the text alone.
pub uninterp spec fn rfc3339_seconds(s: Seq<char>) -> Option<i64>;

/// Relies on chrono's `DateTime::parse_from_rfc3339` to read an RFC 3339
/// timestamp, and on `DateTime::timestamp` to express it as non-leap
/// seconds since the Unix epoch; both results depend on the text alone.
#[verifier::external_body]
pub fn parse_rfc3339_seconds(s: &str) -> (r: Option<i64>)
    ensures
        r == rfc3339_seconds(s@),
{
    match chrono::DateTime::parse_from_rfc3339(s) {
        Ok(d) => Some(d.timestamp()),
        Err(_) => None,
    }
}

} // verus!
