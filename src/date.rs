//! Writing an instant as RFC 2822 text in UTC, through chrono.
use vstd::prelude::*;

verus! {

/// The text that chrono's strftime-style `format` gives for the UTC instant
/// `secs` seconds after the Unix epoch, written with `pattern`.
pub uninterp spec fn utc_text(secs: i64, pattern: Seq<char>) -> Seq<char>;

/// RFC 2822 with the day of the month padded by a space, as in
/// `Tue,  8 Jul 2014 09:10:11 +0000`.
pub open spec fn rfc2822_pattern() -> Seq<char> {
    "%a, %e %b %Y %H:%M:%S %z"@
}

/// First second of year 0, UTC.
pub const MIN_SECS: i64 = -62167219200;

/// Last second of year 9999, UTC.
pub const MAX_SECS: i64 = 253402300799;

/// The instant falls in the years 0 through 9999, which RFC 2822 can write.
pub open spec fn secs_in_range(secs: i64) -> bool {
    MIN_SECS <= secs <= MAX_SECS
}

/// The RFC 2822 text of an instant.
pub open spec fn rfc2822_of(secs: i64) -> Seq<char> {
    utc_text(secs, rfc2822_pattern())
}

/// Relies on chrono's `DateTime::from_timestamp`, which gives `Some` for every
/// instant of the years 0 through 9999, and on `DateTime::format`, which
/// writes it with the strftime items of `pattern` (all of them valid here).
#[verifier::external_body]
fn format_utc(secs: i64, pattern: &str) -> (r: Option<String>)
    requires
        secs_in_range(secs),
        pattern@ == rfc2822_pattern(),
    ensures
        r is Some,
        r matches Some(s) ==> s@ == utc_text(secs, pattern@),
{
    chrono::DateTime::from_timestamp(secs, 0).map(|d| d.format(pattern).to_string())
}

/// The instant `secs` written as RFC 2822 text in UTC.
pub fn rfc2822(secs: i64) -> (r: String)
    requires
        secs_in_range(secs),
    ensures
        r@ == rfc2822_of(secs),
{
    let pattern: &str = "%a, %e %b %Y %H:%M:%S %z";
    proof {
        reveal_strlit("%a, %e %b %Y %H:%M:%S %z");
    }
    format_utc(secs, pattern).unwrap()
}

} // verus!
