//! The unified article set: source classification, the unified `Article`
//! record, and the chronologically ordered, stable merge of locally
//! authored and externally syndicated articles.

use vstd::prelude::*;

use crate::config;
use crate::date;
use crate::external::ExternalArticle;
use crate::external::ExternalArticles;
use crate::local::LocalArticle;
use crate::local::LocalArticles;
use crate::local::spec_feed_rel_path;
use crate::local::spec_local_entries;
use crate::ordering;
use crate::rss::RssError;
use crate::rss::channel_xml_of;
use crate::rss::url_join_of;
use crate::text;

verus! {

/// The origin platform of an article: locally authored, one of the
/// recognized external platforms, or unknown.
#[derive(Clone, Copy, Debug, PartialEq, Eq, Structural)]
pub enum Source {
    Unknown,
    Local,
    Zenn,
    ZennScraps,
    HatenaBlog,
}

impl Source {
    /// The display string of each source tag.
    pub open spec fn spec_name(self) -> Seq<char> {
        match self {
            Source::Unknown => "Unknown"@,
            Source::Local => "Local"@,
            Source::Zenn => "Zenn"@,
            Source::ZennScraps => "Zenn Scraps"@,
            Source::HatenaBlog => "HatenaBlog"@,
        }
    }

    /// Pure mapping from a source tag to its display string.
    pub fn to_string(&self) -> (r: String)
        ensures
            r@ == self.spec_name(),
    {
        match self {
            Source::Unknown => String::from_str("Unknown"),
            Source::Local => String::from_str("Local"),
            Source::Zenn => String::from_str("Zenn"),
            Source::ZennScraps => String::from_str("Zenn Scraps"),
            Source::HatenaBlog => String::from_str("HatenaBlog"),
        }
    }
}

/// The spec-level image of a unified article: what its fields denote.
#[verifier::ext_equal]
pub struct ArticleView {
    pub title: Seq<char>,
    pub url: Seq<char>,
    pub source: Source,
    pub pub_date: Seq<char>,
}

/// One entry of the unified article set: title, resolved URL, origin
/// platform, and the canonical `YYYY/MM/DD` rendering of the publish date,
/// which is also the ordering key.
pub struct Article {
    pub title: String,
    pub url: String,
    pub source: Source,
    pub pub_date: String,
}

impl View for Article {
    type V = ArticleView;

    open spec fn view(&self) -> ArticleView {
        ArticleView {
            title: self.title@,
            url: self.url@,
            source: self.source,
            pub_date: self.pub_date@,
        }
    }
}

/// The views of a sequence of unified articles.
pub open spec fn views_of(s: Seq<Article>) -> Seq<ArticleView> {
    s.map_values(|a: Article| a@)
}

/// Source classification is a pure function of the URL text. The rules, in
/// order, first match winning: a Zenn URL with an "articles" segment is a
/// Zenn article; any other Zenn URL is a Zenn scrap; a Hatena Blog URL is a
/// Hatena Blog post; anything else is unknown.
pub open spec fn spec_detect_source(url: Seq<char>) -> Source {
    if text::has_substring(url, "zenn.dev"@) && text::has_substring(url, "articles"@) {
        Source::Zenn
    } else if text::has_substring(url, "zenn.dev"@) {
        Source::ZennScraps
    } else if text::has_substring(url, "hatenablog.com"@) {
        Source::HatenaBlog
    } else {
        Source::Unknown
    }
}

/// Classify a URL by origin platform. Classification never yields the
/// `Local` tag: an external article cannot pass as locally authored.
pub fn detect_source(url: &str) -> (r: Source)
    ensures
        r == spec_detect_source(url@),
        r != Source::Local,
{
    if text::str_contains(url, "zenn.dev") {
        if text::str_contains(url, "articles") {
            Source::Zenn
        } else {
            Source::ZennScraps
        }
    } else if text::str_contains(url, "hatenablog.com") {
        Source::HatenaBlog
    } else {
        Source::Unknown
    }
}

/// The unified image of a local article: locally sourced, its URL path
/// derived from the file-name stem, its date rendered canonically.
pub open spec fn spec_local_view(la: LocalArticle) -> ArticleView {
    ArticleView {
        title: la.options.title@,
        url: "/articles/"@ + text::spec_stem(la.file_name@),
        source: Source::Local,
        pub_date: date::spec_format_jst(la.pub_date as int),
    }
}

/// The unified image of an external article: its original link unmodified,
/// its source classified from that link, its date rendered canonically.
pub open spec fn spec_external_view(ea: ExternalArticle) -> ArticleView {
    ArticleView {
        title: ea.title@,
        url: ea.url@,
        source: spec_detect_source(ea.url@),
        pub_date: date::spec_format_jst(ea.pub_date as int),
    }
}

/// The unified images of a local article sequence.
pub open spec fn locals_view(s: Seq<LocalArticle>) -> Seq<ArticleView> {
    s.map_values(|la: LocalArticle| spec_local_view(la))
}

/// The unified images of an external article sequence.
pub open spec fn externals_view(s: Seq<ExternalArticle>) -> Seq<ArticleView> {
    s.map_values(|ea: ExternalArticle| spec_external_view(ea))
}

/// The unified article sequence before sorting: every local article, then
/// every external article, in input order.
pub open spec fn spec_unified(ls: Seq<LocalArticle>, es: Seq<ExternalArticle>) -> Seq<ArticleView> {
    locals_view(ls) + externals_view(es)
}

proof fn lemma_views_insert(v: Seq<Article>, j: int, x: Article)
    requires
        0 <= j <= v.len(),
    ensures
        views_of(v.insert(j, x)) =~= views_of(v).insert(j, x@),
{
    v.insert_ensures(j, x);
    views_of(v).insert_ensures(j, x@);
}

/// Stable sort of unified articles by publish date rendering, newest first.
fn sort_articles(input: Vec<Article>) -> (r: Vec<Article>)
    ensures
        views_of(r@) == ordering::sort_desc(views_of(input@)),
{
    let ghost orig = input@;
    let mut input = input;
    let mut out: Vec<Article> = Vec::new();
    proof {
        assert(views_of(out@) =~= Seq::<ArticleView>::empty());
        assert(input@ =~= orig.skip(0));
        assert(views_of(orig.take(0)) =~= Seq::<ArticleView>::empty());
    }
    while input.len() > 0
        invariant
            input@.len() <= orig.len(),
            input@ == orig.skip(orig.len() - input@.len()),
            views_of(out@) == ordering::sort_desc(
                views_of(orig.take(orig.len() - input@.len())),
            ),
        decreases input@.len(),
    {
        let ghost done = orig.len() - input@.len();
        let ghost prev = out@;
        let x = input.remove(0);
        proof {
            assert(x == orig.skip(done as int)[0]);
            assert(x == orig[done as int]);
            assert(input@ =~= orig.skip(done + 1));
        }
        let mut j: usize = 0;
        loop
            invariant
                0 <= j <= out.len(),
                out@ == prev,
                forall|q: int|
                    0 <= q < j ==> !text::lex_lt(
                        ordering::date_key(#[trigger] views_of(out@)[q]),
                        ordering::date_key(x@),
                    ),
            ensures
                0 <= j <= out.len(),
                out@ == prev,
                forall|q: int|
                    0 <= q < j ==> !text::lex_lt(
                        ordering::date_key(#[trigger] views_of(out@)[q]),
                        ordering::date_key(x@),
                    ),
                j < out.len() ==> text::lex_lt(
                    ordering::date_key(views_of(out@)[j as int]),
                    ordering::date_key(x@),
                ),
            decreases out.len() - j,
        {
            if j >= out.len() {
                break;
            }
            if text::str_lex_lt(out[j].pub_date.as_str(), x.pub_date.as_str()) {
                break;
            }
            j = j + 1;
        }
        proof {
            ordering::lemma_ins_pos_unique(views_of(out@), x@, j as int);
        }
        out.insert(j, x);
        proof {
            lemma_views_insert(prev, j as int, x);
            assert(views_of(out@) =~= ordering::insert_desc(views_of(prev), x@));
            assert(views_of(orig.take(done + 1)).drop_last() =~= views_of(orig.take(done as int)));
            assert(views_of(orig.take(done + 1)).last() == orig[done as int]@);
            assert(views_of(out@) == ordering::sort_desc(views_of(orig.take(done + 1))));
        }
    }
    proof {
        assert(orig.take(orig.len() as int) =~= orig);
    }
    out
}

/// The two article populations of one build, merged on demand into the
/// unified, sorted article set.
pub struct Articles {
    pub local_articles: LocalArticles,
    pub external_articles: ExternalArticles,
}

impl Articles {
    /// Every publish instant of both populations is in the supported range.
    pub open spec fn wf(self) -> bool {
        self.local_articles.wf() && self.external_articles.wf()
    }

    /// Collect the two already loaded populations.
    pub fn new(local_articles: LocalArticles, external_articles: ExternalArticles) -> (r: Self)
        ensures
            r.local_articles == local_articles,
            r.external_articles == external_articles,
    {
        Articles { local_articles, external_articles }
    }

    /// Merge both populations into one collection, sorted by canonical
    /// publish date, newest first, stably: every local article (source
    /// Local, URL derived from its file stem) and every external article
    /// (source classified from its link, link unmodified), nothing else;
    /// the output length is the sum of the two input lengths, and the
    /// equal-dated articles of the output are exactly those of the input,
    /// in input order (locals first, then externals).
    pub fn aggregate_articles(&self) -> (r: Vec<Article>)
        requires
            self.wf(),
        ensures
            views_of(r@) == ordering::sort_desc(
                spec_unified(self.local_articles.articles@, self.external_articles.articles@),
            ),
            r@.len() == self.local_articles.articles@.len()
                + self.external_articles.articles@.len(),
            ordering::sorted_desc(views_of(r@)),
            forall|k: Seq<char>| #[trigger] ordering::key_filter(views_of(r@), k)
                == ordering::key_filter(
                spec_unified(self.local_articles.articles@, self.external_articles.articles@),
                k,
            ),
    {
        let locals = &self.local_articles.articles;
        let externals = &self.external_articles.articles;
        let mut unified: Vec<Article> = Vec::new();
        proof {
            assert(views_of(unified@) =~= locals_view(locals@.take(0)));
        }
        let mut i: usize = 0;
        while i < locals.len()
            invariant
                0 <= i <= locals@.len(),
                locals@ == self.local_articles.articles@,
                self.wf(),
                views_of(unified@) == locals_view(locals@.take(i as int)),
            decreases locals@.len() - i,
        {
            let la = &locals[i];
            let a = Article {
                title: la.options.title.clone(),
                url: la.url_path(),
                source: Source::Local,
                pub_date: date::format_jst_pub_date(la.pub_date),
            };
            proof {
                assert(a@ =~= spec_local_view(locals@[i as int]));
            }
            unified.push(a);
            proof {
                assert(views_of(unified@) =~= locals_view(locals@.take(i as int)).push(
                    spec_local_view(locals@[i as int]),
                ));
                assert(locals_view(locals@.take(i + 1)) =~= locals_view(
                    locals@.take(i as int),
                ).push(spec_local_view(locals@[i as int])));
            }
            i = i + 1;
        }
        proof {
            assert(locals@.take(locals@.len() as int) =~= locals@);
            assert(externals_view(externals@.take(0)) =~= Seq::<ArticleView>::empty());
            assert(views_of(unified@) =~= locals_view(locals@) + externals_view(
                externals@.take(0),
            ));
        }
        let mut j: usize = 0;
        while j < externals.len()
            invariant
                0 <= j <= externals@.len(),
                locals@ == self.local_articles.articles@,
                externals@ == self.external_articles.articles@,
                self.wf(),
                views_of(unified@) == locals_view(locals@) + externals_view(
                    externals@.take(j as int),
                ),
            decreases externals@.len() - j,
        {
            let ea = &externals[j];
            let a = Article {
                title: ea.title.clone(),
                url: ea.url.clone(),
                source: detect_source(ea.url.as_str()),
                pub_date: date::format_jst_pub_date(ea.pub_date),
            };
            proof {
                assert(a@ =~= spec_external_view(externals@[j as int]));
            }
            unified.push(a);
            proof {
                assert(views_of(unified@) =~= (locals_view(locals@) + externals_view(
                    externals@.take(j as int),
                )).push(spec_external_view(externals@[j as int])));
                assert(externals_view(externals@.take(j + 1)) =~= externals_view(
                    externals@.take(j as int),
                ).push(spec_external_view(externals@[j as int])));
                assert((locals_view(locals@) + externals_view(externals@.take(j as int))).push(
                    spec_external_view(externals@[j as int]),
                ) =~= locals_view(locals@) + externals_view(externals@.take(j + 1)));
            }
            j = j + 1;
        }
        proof {
            assert(externals@.take(externals@.len() as int) =~= externals@);
        }
        let r = sort_articles(unified);
        proof {
            ordering::lemma_sort_desc_props(
                spec_unified(self.local_articles.articles@, self.external_articles.articles@),
            );
        }
        r
    }

    /// Write the site's own feed: built from the locally authored articles
    /// alone, never from re-syndicated external content.
    pub fn generate_rss(&self, config: &config::Rss) -> (r: Result<String, RssError>)
        requires
            self.wf(),
        ensures
            match r {
                Ok(xml) => {
                    &&& forall|i: int|
                        0 <= i < self.local_articles.articles@.len() ==> url_join_of(
                            config.url@,
                            spec_feed_rel_path(#[trigger] self.local_articles.articles@[i]),
                        ) is Some
                    &&& xml@ == channel_xml_of(
                        config.title@,
                        config.description@,
                        config.url@,
                        spec_local_entries(config.url@, self.local_articles.articles@),
                    )
                },
                Err(e) => {
                    &&& e.item_index < self.local_articles.articles@.len()
                    &&& url_join_of(
                        config.url@,
                        spec_feed_rel_path(self.local_articles.articles@[e.item_index as int]),
                    ) is None
                },
            },
    {
        self.local_articles.generate_rss(config)
    }
}

/// The most recent entries of the unified collection, for the site index:
/// the first `limit` articles, or all of them where fewer exist. An empty
/// collection yields an empty selection.
pub fn top_articles(articles: &Vec<Article>, limit: usize) -> (r: Vec<Article>)
    ensures
        views_of(r@) == views_of(articles@).take(
            if limit <= articles@.len() {
                limit as int
            } else {
                articles@.len() as int
            },
        ),
{
    let n = if limit <= articles.len() {
        limit
    } else {
        articles.len()
    };
    let mut r: Vec<Article> = Vec::new();
    proof {
        assert(views_of(r@) =~= views_of(articles@).take(0));
    }
    let mut i: usize = 0;
    while i < n
        invariant
            0 <= i <= n <= articles@.len(),
            views_of(r@) == views_of(articles@).take(i as int),
        decreases n - i,
    {
        let a = &articles[i];
        let copy = Article {
            title: a.title.clone(),
            url: a.url.clone(),
            source: a.source,
            pub_date: a.pub_date.clone(),
        };
        proof {
            assert(copy@ =~= articles@[i as int]@);
        }
        r.push(copy);
        proof {
            assert(views_of(r@) =~= views_of(articles@).take(i as int).push(
                articles@[i as int]@,
            ));
            assert(views_of(articles@).take(i + 1) =~= views_of(articles@).take(i as int).push(
                articles@[i as int]@,
            ));
        }
        i = i + 1;
    }
    r
}

} // verus!
