//! Locally authored articles: typed document metadata, validation of the
//! fields a document's frontmatter must carry, and the per-article values
//! the emitters use (HTML body, URL path, artifact path).

use vstd::prelude::*;

use crate::article::Source;
use crate::config;
use crate::date;
use crate::frontmatter;
use crate::rss::Item;
use crate::rss::RSS;
use crate::rss::RssError;
use crate::rss::channel_xml_of;
use crate::rss::join_or_empty;
use crate::rss::spec_rss_entries;
use crate::rss::url_join_of;
use crate::text;

verus! {

/// A document's parsed metadata. Every field is required; tags may be an
/// empty sequence but must be present.
pub struct Options {
    pub title: String,
    pub description: String,
    pub date: String,
    pub tags: Vec<String>,
}

/// A document's metadata as deserialized, before required-field validation:
/// each field may be absent.
pub struct RawOptions {
    pub title: Option<String>,
    pub description: Option<String>,
    pub date: Option<String>,
    pub tags: Option<Vec<String>>,
}

/// Why a local document was rejected. Any of these is fatal to the build.
#[derive(Clone, Copy, Debug, PartialEq, Eq, Structural)]
pub enum ArticleError {
    MissingTitle,
    MissingDescription,
    MissingDate,
    MissingTags,
    InvalidDate,
    DateOutOfRange,
}

/// The instant a raw metadata block's date field denotes, where it has one
/// and the field is RFC 3339.
pub open spec fn spec_raw_instant(raw: RawOptions) -> Option<int> {
    match raw.date {
        Some(d) => date::rfc3339_instant_of(d@),
        None => None,
    }
}

/// A locally authored article: its raw body, its file name (the stem of
/// which becomes the URL slug), its validated metadata, and its publish
/// instant, the metadata date normalized to whole epoch seconds.
pub struct LocalArticle {
    pub raw_body: String,
    pub file_name: String,
    pub pub_date: i64,
    pub options: Options,
}

impl LocalArticle {
    /// A constructed article's publish instant lies in the supported range.
    pub open spec fn wf(self) -> bool {
        date::valid_instant(self.pub_date as int)
    }

    /// Build a local article from a file's name, its raw contents, and its
    /// deserialized metadata. Fails exactly where a required field is
    /// absent, where the date is not RFC 3339, or where the date lies
    /// outside the supported publish range.
    pub fn from_file(file_name: String, raw_body: String, raw: RawOptions) -> (r: Result<
        LocalArticle,
        ArticleError,
    >)
        ensures
            match r {
                Ok(a) => {
                    &&& raw.title matches Some(t) && a.options.title@ == t@
                    &&& raw.description matches Some(ds) && a.options.description@ == ds@
                    &&& raw.date matches Some(d) && a.options.date@ == d@
                    &&& raw.tags matches Some(tg) && a.options.tags.deep_view() == tg.deep_view()
                    &&& date::rfc3339_instant_of(a.options.date@) == Some(a.pub_date as int)
                    &&& a.file_name@ == file_name@
                    &&& a.raw_body@ == raw_body@
                    &&& a.wf()
                },
                Err(e) => {
                    &&& (e == ArticleError::MissingTitle <==> raw.title is None)
                    &&& (e == ArticleError::MissingDescription <==> raw.title is Some
                        && raw.description is None)
                    &&& (e == ArticleError::MissingDate <==> raw.title is Some
                        && raw.description is Some && raw.date is None)
                    &&& (e == ArticleError::MissingTags <==> raw.title is Some
                        && raw.description is Some && raw.date is Some && raw.tags is None)
                    &&& (e == ArticleError::InvalidDate <==> raw.title is Some
                        && raw.description is Some && raw.date is Some && raw.tags is Some
                        && spec_raw_instant(raw) is None)
                    &&& (e == ArticleError::DateOutOfRange <==> raw.title is Some
                        && raw.description is Some && raw.date is Some && raw.tags is Some && (
                    match spec_raw_instant(raw) {
                        Some(t) => !date::valid_instant(t),
                        None => false,
                    }))
                },
            },
    {
        let title = match raw.title {
            Some(t) => t,
            None => {
                return Err(ArticleError::MissingTitle);
            },
        };
        let description = match raw.description {
            Some(d) => d,
            None => {
                return Err(ArticleError::MissingDescription);
            },
        };
        let date_text = match raw.date {
            Some(d) => d,
            None => {
                return Err(ArticleError::MissingDate);
            },
        };
        let tags = match raw.tags {
            Some(t) => t,
            None => {
                return Err(ArticleError::MissingTags);
            },
        };
        let t = match date::parse_rfc3339(date_text.as_str()) {
            Some(t) => t,
            None => {
                return Err(ArticleError::InvalidDate);
            },
        };
        if !(0 <= t && t < date::MAX_PUBLISH_INSTANT) {
            return Err(ArticleError::DateOutOfRange);
        }
        Ok(
            LocalArticle {
                raw_body,
                file_name,
                pub_date: t,
                options: Options { title, description, date: date_text, tags },
            },
        )
    }

    /// The article's body as the page fragment the emitter hands to the
    /// template collaborator: the rendered markdown body under the title.
    pub fn build(&self) -> (r: String)
        ensures
            r@ == "<h1>"@ + self.options.title@ + "</h1><div>"@ + frontmatter::md_html_of(
                self.raw_body@,
            ) + "</div>"@,
    {
        let html = frontmatter::markdown_to_html(self.raw_body.as_str());
        String::from_str("<h1>").concat(self.options.title.as_str()).concat(
            "</h1><div>",
        ).concat(html.as_str()).concat("</div>")
    }

    /// The site-relative URL path of the article: its file-name stem under
    /// the fixed articles prefix.
    pub fn url_path(&self) -> (r: String)
        ensures
            r@ == "/articles/"@ + text::spec_stem(self.file_name@),
    {
        let stem = text::file_stem(self.file_name.as_str());
        String::from_str("/articles/").concat(stem.as_str())
    }

    /// The output-relative path of the article's generated page, and the
    /// feed's relative link for it.
    pub fn artifact_path(&self) -> (r: String)
        ensures
            r@ == "articles/"@ + text::spec_stem(self.file_name@) + ".html"@,
    {
        let stem = text::file_stem(self.file_name.as_str());
        String::from_str("articles/").concat(stem.as_str()).concat(".html")
    }
}

/// The set of locally authored articles of one build.
pub struct LocalArticles {
    pub articles: Vec<LocalArticle>,
}

impl LocalArticles {
    /// Every article's publish instant is in the supported range.
    pub open spec fn wf(self) -> bool {
        forall|i: int| 0 <= i < self.articles@.len() ==> (#[trigger] self.articles@[i]).wf()
    }

    /// Collect already validated articles.
    pub fn new(articles: Vec<LocalArticle>) -> (r: Self)
        ensures
            r.articles@ == articles@,
    {
        LocalArticles { articles }
    }

    /// Write the site's own feed from the local articles alone (a site does
    /// not re-syndicate what it scraped elsewhere): one item per article,
    /// its link the article's artifact path joined onto the configured base
    /// URL, its pubDate the RFC 2822 rendering of the publish instant —
    /// which parses back to that same instant. The first article whose link
    /// cannot be joined is the error.
    pub fn generate_rss(&self, config: &config::Rss) -> (r: Result<String, RssError>)
        requires
            self.wf(),
        ensures
            match r {
                Ok(xml) => {
                    &&& forall|i: int|
                        0 <= i < self.articles@.len() ==> url_join_of(
                            config.url@,
                            spec_feed_rel_path(#[trigger] self.articles@[i]),
                        ) is Some
                    &&& xml@ == channel_xml_of(
                        config.title@,
                        config.description@,
                        config.url@,
                        spec_local_entries(config.url@, self.articles@),
                    )
                    &&& forall|i: int|
                        0 <= i < self.articles@.len() ==> date::rfc2822_instant_of(
                            date::rfc2822_string_of((#[trigger] self.articles@[i]).pub_date as int),
                        ) == Some(self.articles@[i].pub_date as int)
                },
                Err(e) => {
                    &&& e.item_index < self.articles@.len()
                    &&& url_join_of(
                        config.url@,
                        spec_feed_rel_path(self.articles@[e.item_index as int]),
                    ) is None
                    &&& forall|i: int|
                        0 <= i < e.item_index ==> url_join_of(
                            config.url@,
                            spec_feed_rel_path(#[trigger] self.articles@[i]),
                        ) is Some
                },
            },
    {
        let mut items: Vec<Item> = Vec::new();
        let mut i: usize = 0;
        while i < self.articles.len()
            invariant
                0 <= i <= self.articles@.len(),
                self.wf(),
                items@.len() == i,
                forall|q: int|
                    0 <= q < i ==> item_matches_article(
                        #[trigger] items@[q],
                        self.articles@[q],
                    ),
            decreases self.articles@.len() - i,
        {
            let la = &self.articles[i];
            let item = Item {
                title: la.options.title.clone(),
                link: la.artifact_path(),
                source: Source::Local,
                pub_date: date::format_rfc2822(la.pub_date),
                description: la.options.description.clone(),
            };
            items.push(item);
            i = i + 1;
        }
        let feed = RSS::new(
            config.title.clone(),
            config.description.clone(),
            config.url.clone(),
            items,
        );
        let ghost arts = self.articles@;
        match feed.generate_rss() {
            Ok(xml) => {
                proof {
                    assert forall|i: int| 0 <= i < arts.len() implies url_join_of(
                        config.url@,
                        spec_feed_rel_path(#[trigger] arts[i]),
                    ) is Some by {
                        assert(feed.items@[i].link@ == spec_feed_rel_path(arts[i]));
                    }
                    assert(spec_rss_entries(config.url@, feed.items@) =~= spec_local_entries(
                        config.url@,
                        arts,
                    ));
                    assert forall|i: int| 0 <= i < arts.len() implies date::rfc2822_instant_of(
                        date::rfc2822_string_of((#[trigger] arts[i]).pub_date as int),
                    ) == Some(arts[i].pub_date as int) by {
                        assert(item_matches_article(feed.items@[i], arts[i]));
                    }
                }
                Ok(xml)
            },
            Err(e) => {
                proof {
                    assert(feed.items@[e.item_index as int].link@ == spec_feed_rel_path(
                        arts[e.item_index as int],
                    ));
                    assert forall|i: int| 0 <= i < e.item_index implies url_join_of(
                        config.url@,
                        spec_feed_rel_path(#[trigger] arts[i]),
                    ) is Some by {
                        assert(feed.items@[i].link@ == spec_feed_rel_path(arts[i]));
                    }
                }
                Err(e)
            },
        }
    }
}

/// The feed-relative path of a local article's page.
pub open spec fn spec_feed_rel_path(la: LocalArticle) -> Seq<char> {
    "articles/"@ + text::spec_stem(la.file_name@) + ".html"@
}

/// One written feed item matches its article: same title and description,
/// the artifact path as link, locally sourced, and the RFC 2822 rendering
/// of the publish instant as date — a rendering that parses back to the
/// instant.
pub open spec fn item_matches_article(it: Item, la: LocalArticle) -> bool {
    &&& it.title@ == la.options.title@
    &&& it.link@ == spec_feed_rel_path(la)
    &&& it.source == Source::Local
    &&& it.pub_date@ == date::rfc2822_string_of(la.pub_date as int)
    &&& date::rfc2822_instant_of(it.pub_date@) == Some(la.pub_date as int)
    &&& it.description@ == la.options.description@
}

/// The entries the site's feed holds for a local article sequence.
pub open spec fn spec_local_entries(base: Seq<char>, s: Seq<LocalArticle>) -> Seq<
    (Seq<char>, Seq<char>, Seq<char>, Seq<char>),
> {
    s.map_values(
        |la: LocalArticle|
            (
                la.options.title@,
                join_or_empty(base, spec_feed_rel_path(la)),
                date::rfc2822_string_of(la.pub_date as int),
                la.options.description@,
            ),
    )
}

} // verus!
