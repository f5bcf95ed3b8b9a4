use overture::article::Source;
use overture::article::detect_source;

#[test]
fn test_detect_source_zenn_articles() {
    assert_eq!(detect_source("https://zenn.dev/ucpr/articles/abc123"), Source::Zenn);
}

#[test]
fn test_detect_source_zenn_scraps() {
    assert_eq!(detect_source("https://zenn.dev/ucpr/scraps/xyz"), Source::ZennScraps);
    assert_eq!(detect_source("https://zenn.dev/ucpr/feed"), Source::ZennScraps);
}

#[test]
fn test_detect_source_hatenablog() {
    assert_eq!(detect_source("https://ucpr.hatenablog.com/entry/2024/01/01"), Source::HatenaBlog);
}

#[test]
fn test_detect_source_unknown() {
    assert_eq!(detect_source("https://example.com/articles/1"), Source::Unknown);
    assert_eq!(detect_source(""), Source::Unknown);
}

#[test]
fn test_detect_source_is_pure() {
    let url = "https://zenn.dev/ucpr/articles/abc123";
    assert_eq!(detect_source(url), detect_source(url));
}

#[test]
fn test_source_to_string() {
    assert_eq!(Source::Unknown.to_string(), "Unknown");
    assert_eq!(Source::Local.to_string(), "Local");
    assert_eq!(Source::Zenn.to_string(), "Zenn");
    assert_eq!(Source::ZennScraps.to_string(), "Zenn Scraps");
    assert_eq!(Source::HatenaBlog.to_string(), "HatenaBlog");
}
