use overture::config::Rss;
use overture::external::ExternalArticles;
use overture::local::LocalArticle;
use overture::local::LocalArticles;
use overture::local::RawOptions;
use overture::rss::Item;
use overture::rss::RSS;
use overture::article::Source;

fn local(file_name: &str, title: &str, date: &str) -> LocalArticle {
    let raw = RawOptions {
        title: Some(title.to_string()),
        description: Some(format!("about {}", title)),
        date: Some(date.to_string()),
        tags: Some(Vec::new()),
    };
    LocalArticle::from_file(file_name.to_string(), "body".to_string(), raw).unwrap()
}

fn feed_config() -> Rss {
    Rss {
        external_rss_links: Vec::new(),
        title: "site feed".to_string(),
        url: "https://example.com/".to_string(),
        description: "articles of the site".to_string(),
    }
}

#[test]
fn test_feed_round_trip() {
    let a = local("first.md", "First Post", "2021-01-01T00:00:00+09:00");
    let b = local("second.md", "Second Post", "2021-01-02T12:34:56+09:00");
    let instants = vec![a.pub_date, b.pub_date];
    let locals = LocalArticles::new(vec![a, b]);
    let xml = locals.generate_rss(&feed_config()).expect("generation should succeed");

    // Re-parse with the external feed fetcher's own parser.
    let bodies = vec![xml.into_bytes()];
    let ea = ExternalArticles::from_rss(&bodies).expect("own feed should parse");
    assert_eq!(ea.articles.len(), 2);
    assert_eq!(ea.articles[0].title, "First Post");
    assert_eq!(ea.articles[0].url, "https://example.com/articles/first.html");
    assert_eq!(ea.articles[0].pub_date, instants[0]);
    assert_eq!(ea.articles[1].title, "Second Post");
    assert_eq!(ea.articles[1].url, "https://example.com/articles/second.html");
    assert_eq!(ea.articles[1].pub_date, instants[1]);
}

#[test]
fn test_feed_pub_date_is_rfc2822() {
    let a = local("a.md", "a", "2021-01-01T00:00:00+09:00");
    let locals = LocalArticles::new(vec![a]);
    let xml = locals.generate_rss(&feed_config()).unwrap();
    assert!(xml.contains("<pubDate>Fri, 1 Jan 2021 00:00:00 +0900</pubDate>"));
    assert!(xml.contains("<title>site feed</title>"));
    assert!(xml.contains("<description>articles of the site</description>"));
}

#[test]
fn test_bad_base_url_fails_on_first_item() {
    let a = local("a.md", "a", "2021-01-01T00:00:00+09:00");
    let locals = LocalArticles::new(vec![a]);
    let mut cfg = feed_config();
    cfg.url = "not a url".to_string();
    let err = locals.generate_rss(&cfg).unwrap_err();
    assert_eq!(err.item_index, 0);
}

#[test]
fn test_empty_feed_generates() {
    let locals = LocalArticles::new(Vec::new());
    let xml = locals.generate_rss(&feed_config()).unwrap();
    let channel = rss::Channel::read_from(xml.as_bytes()).unwrap();
    assert_eq!(channel.items().len(), 0);
    assert_eq!(channel.title(), "site feed");
}

#[test]
fn test_rss_new_and_generate_with_items() {
    let items = vec![Item {
        title: "hand built".to_string(),
        link: "articles/hand.html".to_string(),
        source: Source::Local,
        pub_date: "Fri, 1 Jan 2021 00:00:00 +0900".to_string(),
        description: "desc".to_string(),
    }];
    let feed = RSS::new(
        "t".to_string(),
        "d".to_string(),
        "https://example.com/".to_string(),
        items,
    );
    let xml = feed.generate_rss().unwrap();
    let channel = rss::Channel::read_from(xml.as_bytes()).unwrap();
    assert_eq!(channel.items().len(), 1);
    assert_eq!(channel.items()[0].link(), Some("https://example.com/articles/hand.html"));
    assert_eq!(channel.items()[0].description(), Some("desc"));
}
