use vstd::prelude::*;

verus! {

/// The layout of a message date on the web pages, e.g. `2024-03-01 @ 12:30`.
pub const MESSAGE_DATE_PATTERN: &'static str = "%Y-%m-%d @ %H:%M";

/// The text that chrono's strftime-style formatting gives for the UTC instant
/// `secs` seconds after 1970-01-01 00:00 under `pattern`.
pub uninterp spec fn strftime_utc(secs: i64, pattern: Seq<char>) -> Seq<char>;

/// Instants of about thirty thousand years either side of 1970, all of which
/// chrono can represent.
pub open spec fn in_calendar_range(secs: i64) -> bool {
    -1_000_000_000_000 <= secs <= 1_000_000_000_000
}

/// Relies on chrono's `DateTime::from_timestamp`, which fails only for
/// instants out of its range (years beyond +-262142), and on
/// `NaiveDateTime::format` for the text. A malformed pattern would make
/// `to_string` panic, so only the message pattern is admitted.
#[verifier::external_body]
fn format_utc(secs: i64, pattern: &str) -> (r: Option<String>)
    requires
        pattern@ == MESSAGE_DATE_PATTERN@,
    ensures
        r matches Some(t) ==> t@ == strftime_utc(secs, pattern@),
        in_calendar_range(secs) ==> r is Some,
{
    match chrono::DateTime::from_timestamp(secs, 0) {
        Some(t) => Some(t.naive_utc().format(pattern).to_string()),
        None => None,
    }
}

/// Relies on std's `SystemTime::now` measured from `UNIX_EPOCH`: the
/// current time in whole seconds since 1970-01-01 00:00 UTC, or `None`
/// where the system clock reads an earlier time (or one past `i64`).
/// Nothing is promised of its value.
#[verifier::external_body]
pub(crate) fn now_timestamp() -> (r: Option<i64>) {
    match std::time::SystemTime::now().duration_since(std::time::UNIX_EPOCH) {
        Ok(d) => i64::try_from(d.as_secs()).ok(),
        Err(_) => None,
    }
}

/// The text of a message's date on the web pages.
pub open spec fn message_date_text(secs: i64) -> Seq<char> {
    strftime_utc(secs, MESSAGE_DATE_PATTERN@)
}

/// Formats a message date, or says "Unknown date" where there is none.
pub fn format_datetime_to_message_string(timestamp: Option<i64>) -> (r: String)
    ensures
        timestamp is None ==> r@ == "Unknown date"@,
        timestamp is Some && in_calendar_range(timestamp->0) ==> r@ == message_date_text(timestamp->0),
        timestamp is Some ==> r@ == message_date_text(timestamp->0) || r@ == "Unknown date"@,
{
    proof {
        reveal_strlit("Unknown date");
    }
    match timestamp {
        None => "Unknown date".to_string(),
        Some(t) => match format_utc(t, MESSAGE_DATE_PATTERN) {
            Some(s) => s,
            None => "Unknown date".to_string(),
        },
    }
}

} // verus!
