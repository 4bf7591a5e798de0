//! Points in time and dates.

use vstd::prelude::*;
use crate::text;
use crate::text::{cat2, decimal_u64};

verus! {

/// A UTC point in time: seconds since the Unix epoch and nanoseconds within the second.
#[derive(Debug, Clone, Copy, PartialEq, Eq, Structural)]
pub struct Timestamp {
    pub secs: i64,
    pub nanos: u32,
}

impl View for Timestamp {
    type V = Timestamp;

    open spec fn view(&self) -> Timestamp {
        *self
    }
}

impl Timestamp {
    /// Whether this point in time lies behind `other`.
    pub open spec fn later_than(self, other: Timestamp) -> bool {
        self.secs > other.secs || (self.secs == other.secs && self.nanos > other.nanos)
    }

    /// Whether this point in time lies behind `other`.
    pub fn is_after(&self, other: &Timestamp) -> (r: bool)
        ensures
            r == self.later_than(*other),
    {
        self.secs > other.secs || (self.secs == other.secs && self.nanos > other.nanos)
    }
}

/// Seconds in thirty days.
pub const THIRTY_DAYS: i64 = 2_592_000;

/// The point in time thirty days after `now`.
pub open spec fn in_thirty_days(now: Timestamp) -> Timestamp {
    Timestamp { secs: (now.secs + THIRTY_DAYS) as i64, nanos: now.nanos }
}

/// Whether thirty days after `now` can still be written down.
pub open spec fn deferrable(now: Timestamp) -> bool {
    now.secs + THIRTY_DAYS <= i64::MAX
}

/// The point in time thirty days after `now`.
pub fn thirty_days_after(now: Timestamp) -> (r: Timestamp)
    requires
        deferrable(now),
    ensures
        r == in_thirty_days(now),
{
    Timestamp { secs: now.secs + THIRTY_DAYS, nanos: now.nanos }
}

/// `chrono::Utc::now`, as seconds and nanoseconds: it holds no leap second, and the date type
/// that carries it counts its days in an `i32`, so the seconds stay below
/// `200_000_000_000_000` in size. It panics where the machine's clock stands before the epoch.
/// Which moment it returns is left open.
#[verifier::external_body]
pub(crate) fn now_utc() -> (r: Timestamp)
    ensures
        -200_000_000_000_000 < r.secs < 200_000_000_000_000,
        r.nanos < 1_000_000_000,
{
    let now = chrono::Utc::now();
    Timestamp { secs: now.timestamp(), nanos: now.timestamp_subsec_nanos() }
}

/// The text of a Unix time in UTC by a `strftime` pattern, where the calendar reaches that far.
pub uninterp spec fn utc_text(secs: i64, pattern: Seq<char>) -> Option<Seq<char>>;

/// `chrono::DateTime::from_timestamp`, and `format` of what it returns: the text depends on the
/// seconds and the pattern alone. The pattern is the one for which formatting is known to
/// succeed.
#[verifier::external_body]
fn format_utc(secs: i64, pattern: &str) -> (r: Option<String>)
    requires
        pattern@ == "%Y-%m-%d"@,
    ensures
        r.deep_view() == utc_text(secs, pattern@),
{
    match chrono::DateTime::from_timestamp(secs, 0) {
        Some(dt) => Some(dt.format(pattern).to_string()),
        None => None,
    }
}

/// The date of a Unix time as `YYYY-MM-DD`, or `—` where it is unknown.
pub open spec fn date_text(date: Option<Seq<char>>) -> Seq<char> {
    match date {
        Some(d) => d,
        None => "—"@,
    }
}

/// A date, or `—` where there is none.
pub fn date_or_dash(date: Option<String>) -> (r: String)
    ensures
        r@ == date_text(date.deep_view()),
{
    match date {
        Some(d) => d,
        None => "—".to_string(),
    }
}

/// The date of a Unix time as `YYYY-MM-DD`, where the calendar reaches that far.
pub fn utc_date(secs: i64) -> (r: Option<String>)
    ensures
        r.deep_view() == utc_text(secs, "%Y-%m-%d"@),
{
    format_utc(secs, "%Y-%m-%d")
}

/// How long ago `then` was at `now`, in the largest whole unit.
pub open spec fn relative_text(now: Timestamp, then: Timestamp) -> Seq<char> {
    let secs = now.secs - then.secs;
    if secs < 60 {
        "just now"@
    } else if secs < 3600 {
        text::decimal((secs / 60) as nat) + "m ago"@
    } else if secs < 86400 {
        text::decimal((secs / 3600) as nat) + "h ago"@
    } else {
        text::decimal((secs / 86400) as nat) + "d ago"@
    }
}

/// How long ago `then` was at `now`, in the largest whole unit.
pub fn format_relative(now: Timestamp, then: Timestamp) -> (r: String)
    ensures
        r@ == relative_text(now, then),
{
    if now.secs <= then.secs {
        return "just now".to_string();
    }
    let secs: u64 = (now.secs as i128 - then.secs as i128) as u64;
    if secs < 60 {
        "just now".to_string()
    } else if secs < 3600 {
        cat2(decimal_u64(secs / 60).as_str(), "m ago")
    } else if secs < 86400 {
        cat2(decimal_u64(secs / 3600).as_str(), "h ago")
    } else {
        cat2(decimal_u64(secs / 86400).as_str(), "d ago")
    }
}

/// One point in time lies behind another exactly when more nanoseconds have gone by; of any two
/// different ones, one lies behind the other.
pub proof fn law_time_is_ordered(a: Timestamp, b: Timestamp)
    requires
        a.nanos < 1_000_000_000,
        b.nanos < 1_000_000_000,
    ensures
        a.later_than(b) <==> a.secs * 1_000_000_000 + a.nanos > b.secs * 1_000_000_000 + b.nanos,
        a != b ==> a.later_than(b) || b.later_than(a),
        !a.later_than(a),
{
}

/// Thirty days are thirty times twenty-four hours of sixty minutes of sixty seconds.
pub proof fn law_thirty_days(now: Timestamp)
    requires
        deferrable(now),
    ensures
        in_thirty_days(now).secs - now.secs == 30 * 24 * 60 * 60,
        in_thirty_days(now).nanos == now.nanos,
{
}

/// Times are told in the largest unit that fits in them: minutes from a minute on, hours from
/// sixty minutes on, days from twenty-four hours on; what lies ahead counts as now.
pub proof fn law_relative_times_are_whole_units(now: Timestamp, then: Timestamp, n: nat)
    ensures
        now.secs - then.secs < 60 ==> relative_text(now, then) == "just now"@,
        0 < n < 60 && 60 * n <= now.secs - then.secs < 60 * (n + 1) ==> relative_text(now, then)
            == text::decimal(n) + "m ago"@,
        0 < n < 24 && 60 * 60 * n <= now.secs - then.secs < 60 * 60 * (n + 1) ==> relative_text(
            now,
            then,
        ) == text::decimal(n) + "h ago"@,
        0 < n && 24 * 60 * 60 * n <= now.secs - then.secs < 24 * 60 * 60 * (n + 1)
            ==> relative_text(now, then) == text::decimal(n) + "d ago"@,
{
    let secs = now.secs - then.secs;
    if 0 < n && 60 * n <= secs < 60 * (n + 1) {
        assert(secs / 60 == n) by (nonlinear_arith)
            requires
                60 * n <= secs < 60 * (n + 1),
        ;
    }
    if 0 < n && 3600 * n <= secs < 3600 * (n + 1) {
        assert(secs / 3600 == n) by (nonlinear_arith)
            requires
                3600 * n <= secs < 3600 * (n + 1),
        ;
    }
    if 0 < n && 86400 * n <= secs < 86400 * (n + 1) {
        assert(secs / 86400 == n) by (nonlinear_arith)
            requires
                86400 * n <= secs < 86400 * (n + 1),
        ;
    }
}

/// A date that is there is shown as it is, one that is not as a dash.
pub proof fn law_missing_date_is_a_dash(date: Seq<char>)
    ensures
        date_text(Some(date)) == date,
        date_text(None) == "—"@,
{
}

} // verus!
