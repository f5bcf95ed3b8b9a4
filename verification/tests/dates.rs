use overture::date::format_jst_pub_date;
use overture::text::file_stem;
use overture::text::str_contains;
use overture::text::str_lex_lt;

// 2021-01-01T00:00:00+09:00
const NEW_YEAR_2021_JST: i64 = 1609426800;

#[test]
fn test_format_jst_pub_date_exact() {
    assert_eq!(format_jst_pub_date(NEW_YEAR_2021_JST), "2021/01/01");
}

#[test]
fn test_format_jst_pub_date_day_boundary() {
    // One second before midnight in Tokyo is still the previous day.
    assert_eq!(format_jst_pub_date(NEW_YEAR_2021_JST - 1), "2020/12/31");
    // Midnight UTC is already 09:00 in Tokyo.
    assert_eq!(format_jst_pub_date(1609459200), "2021/01/01");
}

#[test]
fn test_format_jst_pub_date_epoch() {
    assert_eq!(format_jst_pub_date(0), "1970/01/01");
}

#[test]
fn test_format_jst_pub_date_padding() {
    // 2021-02-03 00:00:00 JST: month and day are zero-padded.
    assert_eq!(format_jst_pub_date(1612278000), "2021/02/03");
}

#[test]
fn test_format_jst_pub_date_leap_and_century() {
    // 2024-02-29 00:00:00 JST: a leap day.
    assert_eq!(format_jst_pub_date(1709132400), "2024/02/29");
    // 2000-02-29 12:30:00 JST: the century leap day, mid-day.
    assert_eq!(format_jst_pub_date(951795000), "2000/02/29");
    // 2100-03-01 00:00:00 JST: 2100 is not a leap year.
    assert_eq!(format_jst_pub_date(4107510000), "2100/03/01");
    assert_eq!(format_jst_pub_date(4107510000 - 1), "2100/02/28");
    // 1999-12-31 23:59:59 JST.
    assert_eq!(format_jst_pub_date(946652399), "1999/12/31");
    // The last supported instant: the end of year 9999, Tokyo time.
    assert_eq!(format_jst_pub_date(253402268399), "9999/12/31");
}

#[test]
fn test_file_stem() {
    assert_eq!(file_stem("test.md"), "test");
    assert_eq!(file_stem("archive.tar.gz"), "archive");
    assert_eq!(file_stem("no_extension"), "no_extension");
    assert_eq!(file_stem(""), "");
}

#[test]
fn test_str_contains() {
    assert!(str_contains("https://zenn.dev/x", "zenn.dev"));
    assert!(!str_contains("https://example.com", "zenn.dev"));
    assert!(str_contains("abc", ""));
    assert!(!str_contains("ab", "abc"));
}

#[test]
fn test_str_lex_lt() {
    assert!(str_lex_lt("2020/12/31", "2021/01/01"));
    assert!(!str_lex_lt("2021/01/01", "2021/01/01"));
    assert!(!str_lex_lt("2021/01/02", "2021/01/01"));
    assert!(str_lex_lt("abc", "abcd"));
}
