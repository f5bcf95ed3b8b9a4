//! Publish instants and their canonical renderings.
//!
//! An instant is held as whole seconds since the Unix epoch. All display
//! and ordering happens after conversion to the site's canonical timezone,
//! Asia/Tokyo, which has been a fixed +09:00 offset without daylight saving
//! for the whole supported range. The supported range is the epoch up to the
//! end of year 9999 Tokyo time, so that every instant has a four-digit year
//! both in the canonical date rendering and in RFC 2822.

use vstd::prelude::*;

verus! {

/// Seconds of the Tokyo offset: +09:00.
pub const JST_OFFSET_SECS: i64 = 32400;

/// First instant whose Tokyo-time year is 10000; publish instants must lie
/// strictly below it (and at or above 0, the epoch).
pub const MAX_PUBLISH_INSTANT: i64 = 253402268400;

/// The instants the library accepts as publish dates.
pub open spec fn valid_instant(t: int) -> bool {
    0 <= t < MAX_PUBLISH_INSTANT
}

/// Year, month and day of the proleptic Gregorian calendar for a day number
/// counted from 1970-01-01. This is the standard civil-from-days
/// computation; every quantity stays non-negative for the day numbers the
/// library admits.
pub open spec fn spec_civil_from_days(z: int) -> (int, int, int) {
    let zz = z + 719468;
    let era = zz / 146097;
    let doe = zz - era * 146097;
    let yoe = (doe - doe / 1460 + doe / 36524 - doe / 146096) / 365;
    let doy = doe - (365 * yoe + yoe / 4 - yoe / 100);
    let mp = (5 * doy + 2) / 153;
    let d = doy - (153 * mp + 2) / 5 + 1;
    let m = if mp < 10 {
        mp + 3
    } else {
        mp - 9
    };
    let y = yoe + era * 400;
    (if m <= 2 {
        y + 1
    } else {
        y
    }, m, d)
}

/// The Tokyo-time civil date of an instant: the +09:00 offset is fixed over
/// the supported range, so it is the civil date of `t + 32400` seconds.
pub open spec fn spec_jst_civil(t: int) -> (int, int, int) {
    spec_civil_from_days((t + JST_OFFSET_SECS) / 86400)
}

/// Relies on chrono's `TimeZone::timestamp_opt` and `Datelike` accessors
/// after `with_timezone(&chrono_tz::Asia::Tokyo)`. chrono-tz's table gives
/// Asia/Tokyo a fixed +09:00 offset with no daylight saving for every
/// instant from the epoch on, so the resulting civil date is the proleptic
/// Gregorian date of `t + 32400` epoch seconds, with the documented field
/// ranges (month 1..=12, day 1..=31).
#[verifier::external_body]
fn jst_civil(t: i64) -> (r: (i64, u8, u8))
    requires
        valid_instant(t as int),
    ensures
        (r.0 as int, r.1 as int, r.2 as int) == spec_jst_civil(t as int),
        1970 <= r.0 <= 9999,
        1 <= r.1 <= 12,
        1 <= r.2 <= 31,
{
    let dt = chrono::TimeZone::timestamp_opt(&chrono::Utc, t, 0).unwrap().with_timezone(
        &chrono_tz::Asia::Tokyo,
    );
    (
        chrono::Datelike::year(&dt) as i64,
        chrono::Datelike::month(&dt) as u8,
        chrono::Datelike::day(&dt) as u8,
    )
}

/// The instant an RFC 3339 date-and-time string denotes, in whole seconds,
/// or `None` where the string is not RFC 3339.
pub uninterp spec fn rfc3339_instant_of(s: Seq<char>) -> Option<int>;

/// The instant an RFC 2822 date-and-time string denotes, in whole seconds,
/// or `None` where the string is not RFC 2822.
pub uninterp spec fn rfc2822_instant_of(s: Seq<char>) -> Option<int>;

/// The RFC 2822 rendering of an instant in the Tokyo timezone.
pub uninterp spec fn rfc2822_string_of(t: int) -> Seq<char>;

/// Relies on chrono's `DateTime::parse_from_rfc3339` and `timestamp`: the
/// parsed instant is a function of the text alone, and chrono instants lie
/// within about ±262,000 years of the epoch.
#[verifier::external_body]
pub(crate) fn parse_rfc3339(s: &str) -> (r: Option<i64>)
    ensures
        match r {
            Some(t) => rfc3339_instant_of(s@) == Some(t as int) && -8300000000000 < t
                < 8300000000000,
            None => rfc3339_instant_of(s@) is None,
        },
{
    match chrono::DateTime::parse_from_rfc3339(s) {
        Ok(dt) => Some(dt.timestamp()),
        Err(_) => None,
    }
}

/// Relies on chrono's `DateTime::parse_from_rfc2822` and `timestamp`: the
/// parsed instant is a function of the text alone, and chrono instants lie
/// within about ±262,000 years of the epoch.
#[verifier::external_body]
pub(crate) fn parse_rfc2822(s: &str) -> (r: Option<i64>)
    ensures
        match r {
            Some(t) => rfc2822_instant_of(s@) == Some(t as int) && -8300000000000 < t
                < 8300000000000,
            None => rfc2822_instant_of(s@) is None,
        },
{
    match chrono::DateTime::parse_from_rfc2822(s) {
        Ok(dt) => Some(dt.timestamp()),
        Err(_) => None,
    }
}

/// Relies on chrono's `DateTime::to_rfc2822` on a Tokyo-zone value: the
/// rendering is a function of the instant alone (the offset is fixed), it
/// keeps seconds and the numeric offset, and `parse_from_rfc2822` therefore
/// recovers the instant from it. Years of valid instants are four digits,
/// which RFC 2822 requires.
#[verifier::external_body]
pub(crate) fn format_rfc2822(t: i64) -> (r: String)
    requires
        valid_instant(t as int),
    ensures
        r@ == rfc2822_string_of(t as int),
        rfc2822_instant_of(r@) == Some(t as int),
{
    chrono::TimeZone::timestamp_opt(&chrono::Utc, t, 0).unwrap().with_timezone(
        &chrono_tz::Asia::Tokyo,
    ).to_rfc2822()
}

/// The character of a single decimal digit.
pub open spec fn spec_digit(v: int) -> char {
    if v == 0 {
        '0'
    } else if v == 1 {
        '1'
    } else if v == 2 {
        '2'
    } else if v == 3 {
        '3'
    } else if v == 4 {
        '4'
    } else if v == 5 {
        '5'
    } else if v == 6 {
        '6'
    } else if v == 7 {
        '7'
    } else if v == 8 {
        '8'
    } else {
        '9'
    }
}

fn digit_str(v: u8) -> (r: &'static str)
    requires
        v < 10,
    ensures
        r@ =~= seq![spec_digit(v as int)],
{
    let r: &'static str = match v {
        0 => "0",
        1 => "1",
        2 => "2",
        3 => "3",
        4 => "4",
        5 => "5",
        6 => "6",
        7 => "7",
        8 => "8",
        _ => "9",
    };
    proof {
        reveal_strlit("0");
        reveal_strlit("1");
        reveal_strlit("2");
        reveal_strlit("3");
        reveal_strlit("4");
        reveal_strlit("5");
        reveal_strlit("6");
        reveal_strlit("7");
        reveal_strlit("8");
        reveal_strlit("9");
    }
    r
}

/// The canonical `YYYY/MM/DD` rendering of a civil date, zero-padded.
pub open spec fn spec_render_date(y: int, m: int, d: int) -> Seq<char> {
    seq![
        spec_digit(y / 1000 % 10),
        spec_digit(y / 100 % 10),
        spec_digit(y / 10 % 10),
        spec_digit(y % 10),
        '/',
        spec_digit(m / 10),
        spec_digit(m % 10),
        '/',
        spec_digit(d / 10),
        spec_digit(d % 10),
    ]
}

/// The canonical date rendering of an instant: its Tokyo civil date as
/// `YYYY/MM/DD`.
pub open spec fn spec_format_jst(t: int) -> Seq<char> {
    spec_render_date(spec_jst_civil(t).0, spec_jst_civil(t).1, spec_jst_civil(t).2)
}

proof fn lemma_digit_order(a: int, b: int)
    requires
        0 <= a <= 9,
        0 <= b <= 9,
    ensures
        ((spec_digit(a) as int) < (spec_digit(b) as int)) <==> a < b,
        (spec_digit(a) == spec_digit(b)) <==> a == b,
{
}

#[verifier::rlimit(100)]
proof fn lemma_decimal4(y1: int, y2: int)
    requires
        0 <= y1 <= 9999,
        0 <= y2 <= 9999,
    ensures
        y1 < y2 <==> (y1 / 1000 % 10 < y2 / 1000 % 10 || (y1 / 1000 % 10 == y2 / 1000 % 10 && (y1
            / 100 % 10 < y2 / 100 % 10 || (y1 / 100 % 10 == y2 / 100 % 10 && (y1 / 10 % 10 < y2
            / 10 % 10 || (y1 / 10 % 10 == y2 / 10 % 10 && y1 % 10 < y2 % 10)))))),
        y1 == y2 <==> (y1 / 1000 % 10 == y2 / 1000 % 10 && y1 / 100 % 10 == y2 / 100 % 10 && y1
            / 10 % 10 == y2 / 10 % 10 && y1 % 10 == y2 % 10),
{
    assert(y1 == 1000 * (y1 / 1000 % 10) + 100 * (y1 / 100 % 10) + 10 * (y1 / 10 % 10) + y1 % 10);
    assert(y2 == 1000 * (y2 / 1000 % 10) + 100 * (y2 / 100 % 10) + 10 * (y2 / 10 % 10) + y2 % 10);
}

proof fn lemma_decimal2(v1: int, v2: int)
    requires
        0 <= v1 <= 99,
        0 <= v2 <= 99,
    ensures
        v1 < v2 <==> (v1 / 10 < v2 / 10 || (v1 / 10 == v2 / 10 && v1 % 10 < v2 % 10)),
        v1 == v2 <==> (v1 / 10 == v2 / 10 && v1 % 10 == v2 % 10),
{
    assert(v1 == 10 * (v1 / 10) + v1 % 10);
    assert(v2 == 10 * (v2 / 10) + v2 % 10);
}

/// Law: the canonical `YYYY/MM/DD` rendering orders as the civil date does.
/// Comparing two renderings lexicographically compares the dates year first,
/// then month, then day, and equal renderings are equal dates — so ordering
/// and tie-breaking articles by their rendered dates is ordering them by
/// their canonical-timezone civil date, at day precision.
pub proof fn lemma_render_date_order(y1: int, m1: int, d1: int, y2: int, m2: int, d2: int)
    requires
        1000 <= y1 <= 9999,
        1 <= m1 <= 12,
        1 <= d1 <= 31,
        1000 <= y2 <= 9999,
        1 <= m2 <= 12,
        1 <= d2 <= 31,
    ensures
        crate::text::lex_lt(spec_render_date(y1, m1, d1), spec_render_date(y2, m2, d2)) <==> (y1
            < y2 || (y1 == y2 && m1 < m2) || (y1 == y2 && m1 == m2 && d1 < d2)),
        (spec_render_date(y1, m1, d1) == spec_render_date(y2, m2, d2)) <==> (y1 == y2 && m1 == m2
            && d1 == d2),
{
    let s1 = spec_render_date(y1, m1, d1);
    let s2 = spec_render_date(y2, m2, d2);
    lemma_decimal4(y1, y2);
    lemma_decimal2(m1, m2);
    lemma_decimal2(d1, d2);
    lemma_digit_order(y1 / 1000 % 10, y2 / 1000 % 10);
    lemma_digit_order(y1 / 100 % 10, y2 / 100 % 10);
    lemma_digit_order(y1 / 10 % 10, y2 / 10 % 10);
    lemma_digit_order(y1 % 10, y2 % 10);
    lemma_digit_order(m1 / 10, m2 / 10);
    lemma_digit_order(m1 % 10, m2 % 10);
    lemma_digit_order(d1 / 10, d2 / 10);
    lemma_digit_order(d1 % 10, d2 % 10);
    // Find the first index where the renderings can differ and let the
    // common-prefix lemma decide the comparison there.
    if s1[0] != s2[0] {
        assert(crate::text::lex_lt(s1, s2) == ((s1[0] as int) < (s2[0] as int)));
    } else if s1[1] != s2[1] {
        crate::text::lemma_lex_common_prefix(s1, s2, 1);
    } else if s1[2] != s2[2] {
        crate::text::lemma_lex_common_prefix(s1, s2, 2);
    } else if s1[3] != s2[3] {
        crate::text::lemma_lex_common_prefix(s1, s2, 3);
    } else if s1[5] != s2[5] {
        crate::text::lemma_lex_common_prefix(s1, s2, 5);
    } else if s1[6] != s2[6] {
        crate::text::lemma_lex_common_prefix(s1, s2, 6);
    } else if s1[8] != s2[8] {
        crate::text::lemma_lex_common_prefix(s1, s2, 8);
    } else if s1[9] != s2[9] {
        crate::text::lemma_lex_common_prefix(s1, s2, 9);
    } else {
        assert(s1 =~= s2);
        crate::text::lemma_lex_irrefl(s1, 0);
        assert(crate::text::lex_lt_from(s1, s2, 0) == crate::text::lex_lt_from(s1, s1, 0));
    }
    if s1 == s2 {
        assert(s1[0] == s2[0] && s1[1] == s2[1] && s1[2] == s2[2] && s1[3] == s2[3] && s1[5]
            == s2[5] && s1[6] == s2[6] && s1[8] == s2[8] && s1[9] == s2[9]);
    }
}

fn render_date(y: i64, m: u8, d: u8) -> (r: String)
    requires
        1000 <= y <= 9999,
        1 <= m <= 12,
        1 <= d <= 31,
    ensures
        r@ =~= spec_render_date(y as int, m as int, d as int),
{
    let mut s = String::new();
    s.append(digit_str((y / 1000 % 10) as u8));
    s.append(digit_str((y / 100 % 10) as u8));
    s.append(digit_str((y / 10 % 10) as u8));
    s.append(digit_str((y % 10) as u8));
    s.append("/");
    s.append(digit_str(m / 10));
    s.append(digit_str(m % 10));
    s.append("/");
    s.append(digit_str(d / 10));
    s.append(digit_str(d % 10));
    proof {
        reveal_strlit("/");
    }
    s
}

/// The canonical rendering of a publish instant for display and ordering:
/// its date in the site's canonical timezone, as `YYYY/MM/DD`.
pub fn format_jst_pub_date(pub_date: i64) -> (r: String)
    requires
        valid_instant(pub_date as int),
    ensures
        r@ =~= spec_format_jst(pub_date as int),
{
    let (y, m, d) = jst_civil(pub_date);
    render_date(y, m, d)
}

} // verus!
