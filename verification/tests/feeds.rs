use overture::article::Source;
use overture::external::ExternalArticles;
use overture::rss::aggregate_rss_items;

fn feed_with(items: &str) -> Vec<u8> {
    format!(
        "<rss version=\"2.0\"><channel>\
         <title>test feed</title>\
         <link>https://example.com</link>\
         <description>a feed</description>\
         {}\
         </channel></rss>",
        items
    )
    .into_bytes()
}

fn item_xml(title: &str, link: &str, pub_date: Option<&str>) -> String {
    let date = match pub_date {
        Some(d) => format!("<pubDate>{}</pubDate>", d),
        None => String::new(),
    };
    format!("<item><title>{}</title><link>{}</link>{}</item>", title, link, date)
}

#[test]
fn test_three_items_one_missing_pub_date() {
    let items = [
        item_xml("first", "https://zenn.dev/u/articles/1", Some("Fri, 1 Jan 2021 00:00:00 +0900")),
        item_xml("second", "https://zenn.dev/u/articles/2", None),
        item_xml("third", "https://zenn.dev/u/articles/3", Some("Sat, 2 Jan 2021 00:00:00 +0900")),
    ]
    .concat();
    let bodies = vec![feed_with(&items)];
    let ea = ExternalArticles::from_rss(&bodies).expect("feed should parse");
    assert_eq!(ea.articles.len(), 2);
    assert_eq!(ea.articles[0].title, "first");
    assert_eq!(ea.articles[0].pub_date, 1609426800);
    assert_eq!(ea.articles[1].title, "third");
    assert_eq!(ea.articles[1].pub_date, 1609513200);
}

#[test]
fn test_empty_title_or_link_skipped() {
    let items = [
        item_xml("", "https://example.com/1", Some("Fri, 1 Jan 2021 00:00:00 +0900")),
        item_xml("kept", "https://example.com/2", Some("Fri, 1 Jan 2021 00:00:00 +0900")),
        item_xml("no link", "", Some("Fri, 1 Jan 2021 00:00:00 +0900")),
    ]
    .concat();
    let bodies = vec![feed_with(&items)];
    let ea = ExternalArticles::from_rss(&bodies).expect("feed should parse");
    assert_eq!(ea.articles.len(), 1);
    assert_eq!(ea.articles[0].title, "kept");
}

#[test]
fn test_unparseable_date_skipped() {
    let items = [
        item_xml("bad date", "https://example.com/1", Some("2021-01-01")),
        item_xml("good", "https://example.com/2", Some("Fri, 1 Jan 2021 00:00:00 +0900")),
    ]
    .concat();
    let bodies = vec![feed_with(&items)];
    let ea = ExternalArticles::from_rss(&bodies).expect("feed should parse");
    assert_eq!(ea.articles.len(), 1);
    assert_eq!(ea.articles[0].title, "good");
}

#[test]
fn test_malformed_feed_is_fatal() {
    let good = feed_with(&item_xml(
        "a",
        "https://example.com/1",
        Some("Fri, 1 Jan 2021 00:00:00 +0900"),
    ));
    let bad = b"this is not xml at all".to_vec();
    let bodies = vec![good, bad];
    let err = match ExternalArticles::from_rss(&bodies) {
        Ok(_) => panic!("a non-XML body must be fatal"),
        Err(e) => e,
    };
    assert_eq!(err.feed_index, 1);
}

#[test]
fn test_feeds_concatenate_in_order() {
    let f1 = feed_with(&item_xml(
        "from first feed",
        "https://zenn.dev/u/articles/1",
        Some("Sat, 2 Jan 2021 00:00:00 +0900"),
    ));
    let f2 = feed_with(&item_xml(
        "from second feed",
        "https://ucpr.hatenablog.com/entry/1",
        Some("Fri, 1 Jan 2021 00:00:00 +0900"),
    ));
    let bodies = vec![f1, f2];
    let ea = ExternalArticles::from_rss(&bodies).unwrap();
    assert_eq!(ea.articles.len(), 2);
    assert_eq!(ea.articles[0].title, "from first feed");
    assert_eq!(ea.articles[1].title, "from second feed");
}

#[test]
fn test_articles_from_rss_all_valid() {
    let items = [
        item_xml(
            "embedding xml in cdata",
            "https://www.ucpr.dev/articles/go_nested_xml_in_cdata.html",
            Some("Thu, 25 Apr 2024 00:00:00 +0900"),
        ),
        item_xml(
            "reading front matter values",
            "https://www.ucpr.dev/articles/markdown-rs_front-matter.html",
            Some("Thu, 18 Apr 2024 00:00:00 +0900"),
        ),
        item_xml(
            "a test article",
            "https://www.ucpr.dev/articles/test.html",
            Some("Sat, 1 Jan 2000 00:00:00 +0900"),
        ),
    ]
    .concat();
    let bodies = vec![feed_with(&items)];
    match ExternalArticles::from_rss(&bodies) {
        Ok(articles) => {
            assert_eq!(articles.articles.len(), 3);
        }
        Err(e) => {
            panic!("Failed to parse RSS: {:?}", e);
        }
    };
}

#[test]
fn test_aggregate_rss_items_classifies_and_renders() {
    let items = [
        item_xml(
            "zenn article",
            "https://zenn.dev/u/articles/1",
            Some("Fri, 1 Jan 2021 00:00:00 +0900"),
        ),
        item_xml("zenn scrap", "https://zenn.dev/u/scraps/2", Some("Sat, 2 Jan 2021 00:00:00 +0900")),
        item_xml(
            "hatena entry",
            "https://ucpr.hatenablog.com/entry/3",
            Some("Sun, 3 Jan 2021 00:00:00 +0900"),
        ),
    ]
    .concat();
    let bodies = vec![feed_with(&items)];
    let got = aggregate_rss_items(&bodies).unwrap();
    assert_eq!(got.len(), 3);
    assert_eq!(got[0].source, Source::Zenn);
    assert_eq!(got[0].pub_date, "2021/01/01");
    assert_eq!(got[0].link, "https://zenn.dev/u/articles/1");
    assert_eq!(got[1].source, Source::ZennScraps);
    assert_eq!(got[1].pub_date, "2021/01/02");
    assert_eq!(got[2].source, Source::HatenaBlog);
    assert_eq!(got[2].pub_date, "2021/01/03");
    assert_eq!(got[2].description, "hatena entry");
}
