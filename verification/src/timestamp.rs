//! The text that a beacon publishes: an instant written as an HTTP date.

use vstd::prelude::*;

verus! {

/// The first instant, in seconds since the Unix epoch, that cannot be written
/// as an HTTP date any more: the start of the year 10000.
pub const HTTP_DATE_END: u64 = 253402300800;

/// The HTTP date (`Sun, 06 Nov 1994 08:49:37 GMT`) of the instant `secs`
/// seconds after the Unix epoch, as `httpdate` writes it.
pub uninterp spec fn http_date(secs: u64) -> Seq<char>;

/// Trusted: calls `httpdate::HttpDate::from` on the instant `secs` seconds
/// after the Unix epoch and writes the date out through its `Display` impl.
///
/// The conversion panics from the year 10000 on, which `requires` excludes.
/// It reads nothing but the instant (no time zone, no locale), so the text is
/// claimed to be a function of `secs` alone.
#[verifier::external_body]
fn write_http_date(secs: u64) -> (text: String)
    requires
        secs < HTTP_DATE_END,
    ensures
        text@ == http_date(secs),
{
    let instant = std::time::UNIX_EPOCH + std::time::Duration::from_secs(secs);
    httpdate::HttpDate::from(instant).to_string()
}

/// Writes the instant `secs` seconds after the Unix epoch as an HTTP date.
pub fn timestamp(secs: u64) -> (text: String)
    requires
        secs < HTTP_DATE_END,
    ensures
        text@ == http_date(secs),
{
    write_http_date(secs)
}

/// Writes the instant `secs` seconds after the Unix epoch as an HTTP date, if
/// it lies before the year 10000.
pub fn checked_timestamp(secs: u64) -> (text: Option<String>)
    ensures
        secs < HTTP_DATE_END ==> text is Some && text->0@ == http_date(secs),
        secs >= HTTP_DATE_END ==> text is None,
{
    if secs < HTTP_DATE_END {
        Some(timestamp(secs))
    } else {
        None
    }
}

/// Formatting is a function of the instant: the same instant always gives the
/// same text.
pub proof fn timestamp_is_repeatable(first: u64, second: u64)
    requires
        first == second,
    ensures
        http_date(first) == http_date(second),
{
}

} // verus!
