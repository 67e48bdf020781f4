//! Calendar arithmetic on timestamps in UTC, as `jiff` computes it.
use jiff::tz::TimeZone;
use jiff::{SpanRound, Timestamp, Unit, Zoned};
use std::fmt::Write;
use vstd::prelude::*;

verus! {

/// A unit of a calendar span.
#[derive(Clone, Copy, Debug, PartialEq, Eq, Structural)]
pub enum TimeUnit {
    Year,
    Month,
    Day,
    Hour,
    Minute,
    Second,
}

/// What a span is rounded against: the later instant, the earlier one, or neither.
#[derive(Clone, Copy, Debug, PartialEq, Eq, Structural)]
pub enum RoundRelative {
    Now,
    Then,
    Plain,
}

/// The units of a calendar span, largest first.
#[derive(Clone, Copy, Debug, PartialEq, Eq, Structural)]
pub struct SpanParts {
    pub years: i64,
    pub months: i64,
    pub days: i64,
    pub hours: i64,
    pub minutes: i64,
    pub seconds: i64,
}

/// The units of a span as `jiff` reports them: years, months, days, hours, minutes, seconds.
pub type SpanTuple = (i64, i64, i64, i64, i64, i64);

/// The span `t` as named parts.
pub open spec fn parts_of(t: SpanTuple) -> SpanParts {
    SpanParts { years: t.0, months: t.1, days: t.2, hours: t.3, minutes: t.4, seconds: t.5 }
}

/// Names the span from `then_ms` to `now_ms` (milliseconds since the Unix epoch, read in UTC),
/// with years as its largest unit, as `jiff`'s `Zoned::until` computes it; `None` when `jiff`
/// refuses either timestamp or the difference.
pub uninterp spec fn span_between(then_ms: i64, now_ms: i64) -> Option<SpanTuple>;

/// Names that span rounded by `jiff`'s `Span::round` to `unit`, relative to `now_ms`.
pub uninterp spec fn span_rounded_at_now(then_ms: i64, now_ms: i64, unit: TimeUnit) -> Option<SpanTuple>;

/// Names that span rounded by `jiff`'s `Span::round` to `unit`, relative to `then_ms`.
pub uninterp spec fn span_rounded_at_then(then_ms: i64, now_ms: i64, unit: TimeUnit) -> Option<SpanTuple>;

/// Names that span rounded by `jiff`'s `Span::round` to `unit`, with no relative instant.
pub uninterp spec fn span_rounded_plain(then_ms: i64, now_ms: i64, unit: TimeUnit) -> Option<SpanTuple>;

/// Names how `jiff` formats `ms` in UTC with the `strftime` directives `format`; `None` when
/// `jiff` refuses the timestamp or the directives.
pub uninterp spec fn formatted_timestamp(ms: i64, format: Seq<char>) -> Option<Seq<char>>;

/// How the pages write an instant, as in "Jan 01, 2024 at 1:01am UTC".
pub const TIMESTAMP_FORMAT: &'static str = "%b %d, %Y at %-I:%M%P %Z";

/// The span from `then_ms` to `now_ms` rounded to `unit` against the chosen instant.
pub open spec fn span_rounded(then_ms: i64, now_ms: i64, unit: TimeUnit, relative: RoundRelative) -> Option<SpanTuple> {
    match relative {
        RoundRelative::Now => span_rounded_at_now(then_ms, now_ms, unit),
        RoundRelative::Then => span_rounded_at_then(then_ms, now_ms, unit),
        RoundRelative::Plain => span_rounded_plain(then_ms, now_ms, unit),
    }
}

/// Calls `jiff::Zoned::until` with years as the largest unit, on the two timestamps in UTC; the
/// result is `span_between(then_ms, now_ms)`, a function of the two timestamps alone.
#[verifier::external_body]
pub(crate) fn calendar_span(then_ms: i64, now_ms: i64) -> (r: Option<SpanTuple>)
    ensures
        r == span_between(then_ms, now_ms),
{
    let then = Zoned::new(Timestamp::from_millisecond(then_ms).ok()?, TimeZone::UTC);
    let now = Zoned::new(Timestamp::from_millisecond(now_ms).ok()?, TimeZone::UTC);
    let s = then.until((Unit::Year, &now)).ok()?;
    Some((s.get_years().into(), s.get_months().into(), s.get_days().into(), s.get_hours().into(), s.get_minutes(), s.get_seconds()))
}

/// Calls `jiff::Span::round` with `unit` as the smallest unit, relative to `now_ms`, on the span
/// that `calendar_span` computes; the result is `span_rounded_at_now(then_ms, now_ms, unit)`.
#[verifier::external_body]
pub(crate) fn round_at_now(then_ms: i64, now_ms: i64, unit: TimeUnit) -> (r: Option<SpanTuple>)
    ensures
        r == span_rounded_at_now(then_ms, now_ms, unit),
{
    let units = [Unit::Year, Unit::Month, Unit::Day, Unit::Hour, Unit::Minute, Unit::Second];
    let then = Zoned::new(Timestamp::from_millisecond(then_ms).ok()?, TimeZone::UTC);
    let now = Zoned::new(Timestamp::from_millisecond(now_ms).ok()?, TimeZone::UTC);
    let span = then.until((Unit::Year, &now)).ok()?;
    let s = span.round(SpanRound::new().smallest(units[unit as usize]).relative(&now)).ok()?;
    Some((s.get_years().into(), s.get_months().into(), s.get_days().into(), s.get_hours().into(), s.get_minutes(), s.get_seconds()))
}

/// Calls `jiff::Span::round` with `unit` as the smallest unit, relative to `then_ms`, on the
/// span that `calendar_span` computes; the result is `span_rounded_at_then(then_ms, now_ms, unit)`.
#[verifier::external_body]
pub(crate) fn round_at_then(then_ms: i64, now_ms: i64, unit: TimeUnit) -> (r: Option<SpanTuple>)
    ensures
        r == span_rounded_at_then(then_ms, now_ms, unit),
{
    let units = [Unit::Year, Unit::Month, Unit::Day, Unit::Hour, Unit::Minute, Unit::Second];
    let then = Zoned::new(Timestamp::from_millisecond(then_ms).ok()?, TimeZone::UTC);
    let now = Zoned::new(Timestamp::from_millisecond(now_ms).ok()?, TimeZone::UTC);
    let span = then.until((Unit::Year, &now)).ok()?;
    let s = span.round(SpanRound::new().smallest(units[unit as usize]).relative(&then)).ok()?;
    Some((s.get_years().into(), s.get_months().into(), s.get_days().into(), s.get_hours().into(), s.get_minutes(), s.get_seconds()))
}

/// Calls `jiff::Span::round` with `unit` as the smallest unit and no relative instant, on the
/// span that `calendar_span` computes; the result is `span_rounded_plain(then_ms, now_ms, unit)`.
#[verifier::external_body]
pub(crate) fn round_plain(then_ms: i64, now_ms: i64, unit: TimeUnit) -> (r: Option<SpanTuple>)
    ensures
        r == span_rounded_plain(then_ms, now_ms, unit),
{
    let units = [Unit::Year, Unit::Month, Unit::Day, Unit::Hour, Unit::Minute, Unit::Second];
    let then = Zoned::new(Timestamp::from_millisecond(then_ms).ok()?, TimeZone::UTC);
    let now = Zoned::new(Timestamp::from_millisecond(now_ms).ok()?, TimeZone::UTC);
    let span = then.until((Unit::Year, &now)).ok()?;
    let s = span.round(units[unit as usize]).ok()?;
    Some((s.get_years().into(), s.get_months().into(), s.get_days().into(), s.get_hours().into(), s.get_minutes(), s.get_seconds()))
}

/// Calls `jiff::Zoned::strftime` with `format` on `ms` in UTC and writes the result out; the
/// result is `formatted_timestamp(ms, format@)`.
#[verifier::external_body]
fn strftime_utc(ms: i64, format: &str) -> (r: Option<String>)
    ensures
        match r {
            Some(s) => formatted_timestamp(ms, format@) == Some(s@),
            None => formatted_timestamp(ms, format@) is None,
        },
{
    let t = Timestamp::from_millisecond(ms).ok()?;
    let mut out = String::new();
    write!(out, "{}", Zoned::new(t, TimeZone::UTC).strftime(format)).ok()?;
    Some(out)
}

/// The instant `ms` as the pages write it, in UTC with `TIMESTAMP_FORMAT`; `None` when `jiff`
/// refuses the timestamp.
pub fn format_timestamp(ms: i64) -> (r: Option<String>)
    ensures
        match r {
            Some(s) => formatted_timestamp(ms, TIMESTAMP_FORMAT@) == Some(s@),
            None => formatted_timestamp(ms, TIMESTAMP_FORMAT@) is None,
        },
{
    strftime_utc(ms, TIMESTAMP_FORMAT)
}

/// The earliest instant `jiff` represents, in milliseconds since the Unix epoch (in the year
/// -9999).
pub const MIN_TIMESTAMP_MS: i64 = -377_705_023_201_000;
/// The latest instant `jiff` represents, in milliseconds since the Unix epoch (in the year 9999).
pub const MAX_TIMESTAMP_MS: i64 = 253_402_207_200_999;
/// The largest number of seconds a `jiff` span holds, either way.
pub const MAX_SPAN_SECONDS: i64 = 631_107_417_600;

/// Whether `jiff` represents the instant `ms`.
pub open spec fn in_timestamp_range(ms: int) -> bool {
    MIN_TIMESTAMP_MS <= ms <= MAX_TIMESTAMP_MS
}

/// The instant `secs` seconds before `ms`, as `jiff`'s `Timestamp::checked_sub` computes it:
/// `None` when `ms`, the span or the result lies outside what `jiff` represents.
pub open spec fn instant_before(ms: i64, secs: i64) -> Option<i64> {
    let r = ms - secs * 1000;
    if in_timestamp_range(ms as int) && -MAX_SPAN_SECONDS <= secs <= MAX_SPAN_SECONDS
        && in_timestamp_range(r) {
        Some(r as i64)
    } else {
        None
    }
}

/// Calls `jiff::Timestamp::checked_sub` with a span of `secs` seconds on the timestamp `ms`:
/// `Timestamp::from_millisecond` accepts `ms` within jiff's range, `Span::try_seconds` accepts
/// up to `MAX_SPAN_SECONDS` either way, and the subtraction succeeds when the result stays in
/// range, which is then exactly `secs` seconds earlier.
#[verifier::external_body]
pub(crate) fn seconds_before(ms: i64, secs: i64) -> (r: Option<i64>)
    ensures
        r == instant_before(ms, secs),
{
    let span = jiff::Span::new().try_seconds(secs).ok()?;
    Some(Timestamp::from_millisecond(ms).ok()?.checked_sub(span).ok()?.as_millisecond())
}

/// The span from `then_ms` to `now_ms` rounded to `unit` against the chosen instant.
pub(crate) fn rounded_span(then_ms: i64, now_ms: i64, unit: TimeUnit, relative: RoundRelative) -> (r:
    Option<SpanTuple>)
    ensures
        r == span_rounded(then_ms, now_ms, unit, relative),
{
    match relative {
        RoundRelative::Now => round_at_now(then_ms, now_ms, unit),
        RoundRelative::Then => round_at_then(then_ms, now_ms, unit),
        RoundRelative::Plain => round_plain(then_ms, now_ms, unit),
    }
}

} // verus!
