use gluestick::helpers::view_helper::{
    format_timestamp_relative, format_timestamp_relative_at, linewise_truncate,
    linewise_truncate_html, linewise_truncate_html_10,
};
use gluestick::helpers::time::{RoundRelative, SpanParts, TimeUnit};
use gluestick::helpers::view_helper::{format_timestamp, phrase_of_rounded, unit_of_span};
use gluestick::text::trim;
use jiff::tz::TimeZone;
use jiff::{Span, Timestamp, Zoned};

fn ago(span: Span) -> i64 {
    let now = Zoned::new(Timestamp::now(), TimeZone::UTC);
    now.checked_sub(span).unwrap().timestamp().as_millisecond()
}

#[test]
fn exact_timespans() {
    assert_eq!(format_timestamp_relative(ago(Span::new().years(2))).unwrap(), "2 years ago");
    assert_eq!(format_timestamp_relative(ago(Span::new().months(5))).unwrap(), "5 months ago");
    assert_eq!(format_timestamp_relative(ago(Span::new().days(17))).unwrap(), "17 days ago");
    assert_eq!(format_timestamp_relative(ago(Span::new().hours(12))).unwrap(), "12 hours ago");
    assert_eq!(
        format_timestamp_relative(ago(Span::new().minutes(42))).unwrap(),
        "42 minutes ago"
    );
}

#[test]
fn singular_timespans() {
    assert_eq!(format_timestamp_relative(ago(Span::new().years(1))).unwrap(), "1 year ago");
    assert_eq!(format_timestamp_relative(ago(Span::new().months(1))).unwrap(), "1 month ago");
    assert_eq!(format_timestamp_relative(ago(Span::new().days(1))).unwrap(), "1 day ago");
    assert_eq!(format_timestamp_relative(ago(Span::new().hours(1))).unwrap(), "1 hour ago");
    assert_eq!(format_timestamp_relative(ago(Span::new().minutes(1))).unwrap(), "1 minute ago");
}

#[test]
fn rounded_timespans() {
    assert_eq!(
        format_timestamp_relative(ago(Span::new().years(3).months(2).days(18))).unwrap(),
        "3 years ago"
    );
    assert_eq!(
        format_timestamp_relative(ago(Span::new().months(1).days(24).hours(7))).unwrap(),
        "2 months ago"
    );
    assert_eq!(
        format_timestamp_relative(ago(Span::new().days(5).hours(7).minutes(22).seconds(18)))
            .unwrap(),
        "5 days ago"
    );
    assert_eq!(
        format_timestamp_relative(ago(Span::new().hours(7).minutes(33).seconds(18))).unwrap(),
        "8 hours ago"
    );
    assert_eq!(
        format_timestamp_relative(ago(Span::new().minutes(39).seconds(18))).unwrap(),
        "39 minutes ago"
    );
}

#[test]
fn relative_time_at_fixed_instants() {
    // 2024-01-01T00:00:00Z and 90 seconds later.
    let then = 1_704_067_200_000;
    assert_eq!(format_timestamp_relative_at(then, then + 90_000).unwrap(), "2 minutes ago");
    assert_eq!(format_timestamp_relative_at(then, then).unwrap(), "0 seconds ago");
    assert_eq!(format_timestamp_relative_at(then, then + 1_000).unwrap(), "1 second ago");
    assert_eq!(
        format_timestamp_relative_at(then, then + 3 * 3_600_000).unwrap(),
        "3 hours ago"
    );
}

#[test]
fn relative_time_refuses_out_of_range_instants() {
    assert!(format_timestamp_relative_at(i64::MIN, 0).is_err());
}

#[test]
fn truncate_keeps_short_text() {
    assert_eq!(linewise_truncate("a\nb", 3), "a\nb");
    assert_eq!(linewise_truncate("a\nb\nc", 3), "a\nb\nc");
    assert_eq!(linewise_truncate("", 3), "");
}

#[test]
fn truncate_marks_cut_text() {
    assert_eq!(linewise_truncate("a\nb\nc  \nd", 3), "a\nb\nc...");
    assert_eq!(linewise_truncate("one\r\ntwo\r\nthree", 2), "one\ntwo...");
}

#[test]
fn truncate_to_one_line_starts_with_newline() {
    assert_eq!(linewise_truncate("only", 1), "\nonly");
    assert_eq!(linewise_truncate("first\nsecond", 1), "\nfirst...");
}

#[test]
fn truncate_html_keeps_short_html() {
    let html = "<pre>\n<span>a</span>\n</pre>";
    assert_eq!(linewise_truncate_html(html, 2), html);
}

#[test]
fn truncate_html_closes_open_elements() {
    let html = "<pre style=\"x\">\n<span>a</span>\nb\nc\n</pre>";
    assert_eq!(linewise_truncate_html(html, 1), "<pre style=\"x\">\n<span>a</span>...</pre>");
}

#[test]
fn truncate_html_ten_lines() {
    let mut html = String::from("<div>\n");
    for i in 0..20 {
        html.push_str(&format!("line {i}\n"));
    }
    html.push_str("</div>");
    let expected = "<div>\nline 0\nline 1\nline 2\nline 3\nline 4\nline 5\nline 6\nline 7\nline 8\nline 9...</div>";
    assert_eq!(linewise_truncate_html_10(&html), expected);
}

#[test]
fn truncate_yields_at_most_n_lines() {
    let text = (0..10).map(|i| format!("line {i}")).collect::<Vec<_>>().join("\n");
    for n in 2..12 {
        let out = linewise_truncate(&text, n);
        assert!(out.matches('\n').count() <= n - 1);
    }
}

fn span(years: i64, months: i64, days: i64, hours: i64, minutes: i64, seconds: i64) -> SpanParts {
    SpanParts { years, months, days, hours, minutes, seconds }
}

#[test]
fn unit_and_phrase_of_spans() {
    assert_eq!(unit_of_span(span(3, 2, 18, 0, 0, 0)), (TimeUnit::Year, RoundRelative::Now));
    assert_eq!(unit_of_span(span(0, 1, 24, 7, 0, 0)), (TimeUnit::Month, RoundRelative::Then));
    assert_eq!(unit_of_span(span(0, 0, 5, 7, 22, 18)), (TimeUnit::Day, RoundRelative::Now));
    assert_eq!(unit_of_span(span(0, 0, 0, 7, 33, 18)), (TimeUnit::Hour, RoundRelative::Plain));
    assert_eq!(unit_of_span(span(0, 0, 0, 0, 39, 18)), (TimeUnit::Minute, RoundRelative::Plain));
    assert_eq!(unit_of_span(span(0, 0, 0, 0, 0, 0)), (TimeUnit::Second, RoundRelative::Plain));
    assert_eq!(phrase_of_rounded(span(0, 0, 0, 8, 0, 0), TimeUnit::Hour), "8 hours ago");
    assert_eq!(phrase_of_rounded(span(1, 0, 0, 0, 0, 0), TimeUnit::Year), "1 year ago");
    assert_eq!(phrase_of_rounded(span(0, 0, 0, 0, 0, 0), TimeUnit::Second), "0 seconds ago");
}

#[test]
fn timestamps_are_written_in_utc() {
    assert_eq!(format_timestamp(1_704_067_200_000).unwrap(), "Jan 01, 2024 at 12:00am UTC");
    assert_eq!(format_timestamp(1_704_117_900_000).unwrap(), "Jan 01, 2024 at 2:05pm UTC");
    assert_eq!(format_timestamp(i64::MAX), None);
}

#[test]
fn trim_uses_unicode_white_space() {
    assert_eq!(trim("\u{3000}\u{a0} a b\u{85}\u{2028}\t"), "a b");
    assert_eq!(trim("\u{200b}a"), "\u{200b}a");
}
