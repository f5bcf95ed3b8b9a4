use overture::article::Articles;
use overture::article::Source;
use overture::article::top_articles;
use overture::external::ExternalArticle;
use overture::external::ExternalArticles;
use overture::local::LocalArticle;
use overture::local::LocalArticles;
use overture::local::RawOptions;

fn local(file_name: &str, title: &str, date: &str) -> LocalArticle {
    let raw = RawOptions {
        title: Some(title.to_string()),
        description: Some("d".to_string()),
        date: Some(date.to_string()),
        tags: Some(Vec::new()),
    };
    LocalArticle::from_file(file_name.to_string(), "body".to_string(), raw).unwrap()
}

fn external(title: &str, url: &str, pub_date: i64) -> ExternalArticle {
    ExternalArticle::new(title.to_string(), url.to_string(), pub_date)
}

fn articles_of(locals: Vec<LocalArticle>, externals: Vec<ExternalArticle>) -> Articles {
    Articles::new(LocalArticles::new(locals), ExternalArticles { articles: externals })
}

#[test]
fn test_aggregate_len_is_sum() {
    let arts = articles_of(
        vec![
            local("a.md", "a", "2021-01-01T00:00:00+09:00"),
            local("b.md", "b", "2021-01-02T00:00:00+09:00"),
        ],
        vec![external("c", "https://zenn.dev/u/articles/c", 1609599600)],
    );
    assert_eq!(arts.aggregate_articles().len(), 3);
}

#[test]
fn test_aggregate_sorted_newest_first() {
    let arts = articles_of(
        vec![
            local("old.md", "old", "2021-01-01T00:00:00+09:00"),
            local("new.md", "new", "2021-01-03T00:00:00+09:00"),
        ],
        vec![external("mid", "https://zenn.dev/u/articles/m", 1609513200)],
    );
    let unified = arts.aggregate_articles();
    let titles: Vec<&str> = unified.iter().map(|a| a.title.as_str()).collect();
    assert_eq!(titles, vec!["new", "mid", "old"]);
    for w in unified.windows(2) {
        assert!(w[0].pub_date >= w[1].pub_date);
    }
}

#[test]
fn test_aggregate_fields() {
    let arts = articles_of(
        vec![local("hello.md", "hello", "2021-01-01T00:00:00+09:00")],
        vec![external("scrap", "https://zenn.dev/u/scraps/1", 1609513200)],
    );
    let unified = arts.aggregate_articles();
    assert_eq!(unified[1].title, "hello");
    assert_eq!(unified[1].url, "/articles/hello");
    assert_eq!(unified[1].source, Source::Local);
    assert_eq!(unified[1].pub_date, "2021/01/01");
    assert_eq!(unified[0].title, "scrap");
    assert_eq!(unified[0].url, "https://zenn.dev/u/scraps/1");
    assert_eq!(unified[0].source, Source::ZennScraps);
    assert_eq!(unified[0].pub_date, "2021/01/02");
}

#[test]
fn test_aggregate_both_empty() {
    let arts = articles_of(Vec::new(), Vec::new());
    let unified = arts.aggregate_articles();
    assert!(unified.is_empty());
    assert!(top_articles(&unified, 5).is_empty());
}

#[test]
fn test_aggregate_only_locals_or_only_externals() {
    let arts = articles_of(vec![local("a.md", "a", "2021-01-01T00:00:00+09:00")], Vec::new());
    assert_eq!(arts.aggregate_articles().len(), 1);
    let arts = articles_of(Vec::new(), vec![external("e", "https://x.invalid/e", 1609513200)]);
    assert_eq!(arts.aggregate_articles().len(), 1);
}

#[test]
fn test_equal_dates_keep_insertion_order() {
    // Same canonical date for all four; sub-day instants differ, which the
    // day-granularity rendering deliberately ignores.
    let arts = articles_of(
        vec![
            local("l1.md", "l1", "2021-01-01T10:00:00+09:00"),
            local("l2.md", "l2", "2021-01-01T05:00:00+09:00"),
        ],
        vec![
            external("e1", "https://a.invalid/1", 1609426800 + 3600),
            external("e2", "https://a.invalid/2", 1609426800 + 60),
        ],
    );
    let unified = arts.aggregate_articles();
    let titles: Vec<&str> = unified.iter().map(|a| a.title.as_str()).collect();
    assert_eq!(titles, vec!["l1", "l2", "e1", "e2"]);
}

#[test]
fn test_equal_dates_reordered_inputs_keep_their_order() {
    let e1 = || external("e1", "https://a.invalid/1", 1609426800);
    let e2 = || external("e2", "https://a.invalid/2", 1609426800 + 7200);
    let newer = || external("newer", "https://a.invalid/3", 1609513200);
    let out1 = articles_of(Vec::new(), vec![e1(), newer(), e2()]).aggregate_articles();
    let out2 = articles_of(Vec::new(), vec![newer(), e1(), e2()]).aggregate_articles();
    let titles1: Vec<String> = out1.iter().map(|a| a.title.clone()).collect();
    let titles2: Vec<String> = out2.iter().map(|a| a.title.clone()).collect();
    assert_eq!(titles1, vec!["newer", "e1", "e2"]);
    assert_eq!(titles1, titles2);
}

#[test]
fn test_top_articles_limits() {
    let arts = articles_of(
        vec![
            local("a.md", "a", "2021-01-01T00:00:00+09:00"),
            local("b.md", "b", "2021-01-02T00:00:00+09:00"),
            local("c.md", "c", "2021-01-03T00:00:00+09:00"),
        ],
        Vec::new(),
    );
    let unified = arts.aggregate_articles();
    let top = top_articles(&unified, 2);
    assert_eq!(top.len(), 2);
    assert_eq!(top[0].title, "c");
    assert_eq!(top[1].title, "b");
    assert_eq!(top_articles(&unified, 5).len(), 3);
}
