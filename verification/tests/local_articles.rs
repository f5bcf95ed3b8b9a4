use overture::frontmatter::extract_frontmatter;
use overture::local::ArticleError;
use overture::local::LocalArticle;
use overture::local::RawOptions;

const DOCUMENT: &str = "+++
title = \"Test Article\"
description = \"Test article description\"
date = \"2021-01-01T00:00:00+09:00\"
tags = [\"test\", \"article\"]
+++

## h2
body
";

// 2021-01-01T00:00:00+09:00
const NEW_YEAR_2021_JST: i64 = 1609426800;

fn raw_options_from(frontmatter: &str) -> RawOptions {
    let table: toml::Table = frontmatter.parse().expect("frontmatter should be TOML");
    let get = |key: &str| table.get(key).and_then(|v| v.as_str()).map(|s| s.to_string());
    let tags = table.get("tags").and_then(|v| v.as_array()).map(|a| {
        a.iter().filter_map(|v| v.as_str()).map(|s| s.to_string()).collect::<Vec<String>>()
    });
    RawOptions { title: get("title"), description: get("description"), date: get("date"), tags }
}

fn expect_err(r: Result<LocalArticle, ArticleError>) -> ArticleError {
    match r {
        Ok(_) => panic!("expected an error"),
        Err(e) => e,
    }
}

fn full_raw_options() -> RawOptions {
    RawOptions {
        title: Some("Test Article".to_string()),
        description: Some("Test article description".to_string()),
        date: Some("2021-01-01T00:00:00+09:00".to_string()),
        tags: Some(vec!["test".to_string(), "article".to_string()]),
    }
}

#[test]
fn test_document_scenario() {
    let fm = extract_frontmatter(DOCUMENT);
    assert!(fm.contains("title = \"Test Article\""));
    let raw = raw_options_from(&fm);
    let article =
        LocalArticle::from_file("test.md".to_string(), DOCUMENT.to_string(), raw).unwrap();
    assert_eq!(article.options.title, "Test Article");
    assert_eq!(article.options.description, "Test article description");
    assert_eq!(article.options.tags, vec!["test".to_string(), "article".to_string()]);
    assert_eq!(article.pub_date, NEW_YEAR_2021_JST);
    assert_eq!(article.file_name, "test.md");
}

#[test]
fn test_no_frontmatter_extracts_empty() {
    assert_eq!(extract_frontmatter("## just a body\ntext\n"), "");
}

#[test]
fn test_missing_fields_fail() {
    let mut raw = full_raw_options();
    raw.title = None;
    let r = LocalArticle::from_file("a.md".to_string(), String::new(), raw);
    assert_eq!(expect_err(r), ArticleError::MissingTitle);

    let mut raw = full_raw_options();
    raw.description = None;
    let r = LocalArticle::from_file("a.md".to_string(), String::new(), raw);
    assert_eq!(expect_err(r), ArticleError::MissingDescription);

    let mut raw = full_raw_options();
    raw.date = None;
    let r = LocalArticle::from_file("a.md".to_string(), String::new(), raw);
    assert_eq!(expect_err(r), ArticleError::MissingDate);

    let mut raw = full_raw_options();
    raw.tags = None;
    let r = LocalArticle::from_file("a.md".to_string(), String::new(), raw);
    assert_eq!(expect_err(r), ArticleError::MissingTags);
}

#[test]
fn test_invalid_date_fails() {
    let mut raw = full_raw_options();
    raw.date = Some("2021-01-01".to_string());
    let r = LocalArticle::from_file("a.md".to_string(), String::new(), raw);
    assert_eq!(expect_err(r), ArticleError::InvalidDate);
}

#[test]
fn test_date_out_of_range_fails() {
    let mut raw = full_raw_options();
    raw.date = Some("1969-12-31T23:59:59+00:00".to_string());
    let r = LocalArticle::from_file("a.md".to_string(), String::new(), raw);
    assert_eq!(expect_err(r), ArticleError::DateOutOfRange);
}

#[test]
fn test_build_wraps_rendered_body() {
    let raw = raw_options_from(&extract_frontmatter(DOCUMENT));
    let article =
        LocalArticle::from_file("test.md".to_string(), DOCUMENT.to_string(), raw).unwrap();
    let html = article.build();
    assert_eq!(html, "<h1>Test Article</h1><div><h2>h2</h2>\n<p>body</p>\n</div>");
}

#[test]
fn test_paths() {
    let raw = full_raw_options();
    let article =
        LocalArticle::from_file("test.md".to_string(), DOCUMENT.to_string(), raw).unwrap();
    assert_eq!(article.url_path(), "/articles/test");
    assert_eq!(article.artifact_path(), "articles/test.html");
}
