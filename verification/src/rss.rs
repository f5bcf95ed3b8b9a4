//! Syndication feeds, both directions: parsing fetched RSS documents into
//! raw items (validation of the items is verified; the XML parse itself is
//! the rss crate's, behind a trusted wrapper), and writing the site's own
//! RSS feed (the XML rendering is the rss crate's; link joining is the url
//! crate's; everything the items hold is assembled by verified code).

use vstd::prelude::*;

use crate::article::Source;
use crate::article::detect_source;
use crate::article::spec_detect_source;
use crate::date;
use crate::external::ExternalArticle;
use crate::external::ExternalArticles;
use crate::external::FeedError;
use crate::external::bodies_views;
use crate::external::ext_views;
use crate::external::spec_feeds_articles;

verus! {

/// The three fields of one syndication item as the feed parser found them.
pub type RawItemView = (Option<Seq<char>>, Option<Seq<char>>, Option<Seq<char>>);

/// One syndication item as found in a feed document: title, link and
/// publish date, each possibly absent.
pub struct RawFeedItem {
    pub title: Option<String>,
    pub link: Option<String>,
    pub pub_date: Option<String>,
}

/// What a raw item's fields denote.
pub open spec fn raw_item_view(i: RawFeedItem) -> RawItemView {
    (i.title.deep_view(), i.link.deep_view(), i.pub_date.deep_view())
}

/// The items of an RSS document, or `None` where the bytes are not one:
/// each item reduced to its title, link and pubDate fields.
pub uninterp spec fn channel_items_of(bytes: Seq<u8>) -> Option<Seq<RawItemView>>;

/// Relies on rss's `Channel::read_from`: the parse is a function of the
/// bytes alone, and each parsed item's title, link and pubDate fields are
/// handed over unchanged, `None` where absent.
#[verifier::external_body]
pub(crate) fn parse_channel_items(body: &Vec<u8>) -> (r: Option<Vec<RawFeedItem>>)
    ensures
        match r {
            Some(items) => channel_items_of(body@) == Some(
                items@.map_values(|i: RawFeedItem| raw_item_view(i)),
            ),
            None => channel_items_of(body@) is None,
        },
{
    let channel = match rss::Channel::read_from(&body[..]) {
        Ok(c) => c,
        Err(_) => return None,
    };
    let mut items = Vec::new();
    for it in channel.items() {
        items.push(RawFeedItem {
            title: it.title().map(|s| s.to_string()),
            link: it.link().map(|s| s.to_string()),
            pub_date: it.pub_date().map(|s| s.to_string()),
        });
    }
    Some(items)
}

/// The absolute URL that joining `rel` onto `base` yields, or `None` where
/// `base` does not parse as a URL or the join fails.
pub uninterp spec fn url_join_of(base: Seq<char>, rel: Seq<char>) -> Option<Seq<char>>;

/// Relies on url's `Url::parse` and `Url::join`: both are functions of
/// their textual arguments alone.
#[verifier::external_body]
pub(crate) fn url_join(base: &str, rel: &str) -> (r: Option<String>)
    ensures
        match r {
            Some(u) => url_join_of(base@, rel@) == Some(u@),
            None => url_join_of(base@, rel@) is None,
        },
{
    let b = match url::Url::parse(base) {
        Ok(b) => b,
        Err(_) => return None,
    };
    match b.join(rel) {
        Ok(u) => Some(u.as_str().to_string()),
        Err(_) => None,
    }
}

/// The joined URL where the join succeeds, empty text otherwise.
pub open spec fn join_or_empty(base: Seq<char>, rel: Seq<char>) -> Seq<char> {
    match url_join_of(base, rel) {
        Some(u) => u,
        None => Seq::empty(),
    }
}

/// One entry of the feed the site writes: title, absolute link, RFC 2822
/// publish date, and description.
pub type FeedEntryView = (Seq<char>, Seq<char>, Seq<char>, Seq<char>);

struct FeedEntry {
    title: String,
    link: String,
    pub_date: String,
    description: String,
}

spec fn feed_entry_view(e: FeedEntry) -> FeedEntryView {
    (e.title@, e.link@, e.pub_date@, e.description@)
}

/// The RSS 2.0 document with the given channel title, description and link,
/// holding one item per entry with the entry's title, link, pubDate and
/// description.
pub uninterp spec fn channel_xml_of(
    title: Seq<char>,
    description: Seq<char>,
    link: Seq<char>,
    items: Seq<FeedEntryView>,
) -> Seq<char>;

/// Relies on rss's `ChannelBuilder`, `ItemBuilder` and `Channel`'s
/// `Display`: the rendered RSS 2.0 document is a function of the channel
/// fields and the items' fields alone.
#[verifier::external_body]
fn channel_to_xml(title: &str, description: &str, link: &str, items: &Vec<FeedEntry>) -> (r:
    String)
    ensures
        r@ == channel_xml_of(
            title@,
            description@,
            link@,
            items@.map_values(|e: FeedEntry| feed_entry_view(e)),
        ),
{
    let mut rs = Vec::new();
    for e in items {
        rs.push(
            rss::ItemBuilder::default().title(e.title.clone()).link(e.link.clone()).pub_date(
                e.pub_date.clone(),
            ).description(e.description.clone()).build(),
        );
    }
    let channel = rss::ChannelBuilder::default().title(title).description(description).link(
        link,
    ).items(rs).build();
    channel.to_string()
}

/// One entry of the unified feed surface: what the aggregated external
/// items render to, and what the site's own feed is built from.
pub struct Item {
    pub title: String,
    pub link: String,
    pub source: Source,
    pub pub_date: String,
    pub description: String,
}

/// What an item's fields denote.
pub open spec fn item_view(it: Item) -> (Seq<char>, Seq<char>, Source, Seq<char>, Seq<char>) {
    (it.title@, it.link@, it.source, it.pub_date@, it.description@)
}

/// Why feed generation failed: the first item whose link could not be
/// joined onto the channel URL.
#[derive(Clone, Copy, Debug, PartialEq, Eq, Structural)]
pub struct RssError {
    pub item_index: usize,
}

/// The entries the feed writer renders: each item's title, its link joined
/// onto the base URL, its publish date text, and its description.
pub open spec fn spec_rss_entries(base: Seq<char>, items: Seq<Item>) -> Seq<FeedEntryView> {
    items.map_values(
        |it: Item| (it.title@, join_or_empty(base, it.link@), it.pub_date@, it.description@),
    )
}

/// The display item a valid feed article renders to: title, its original
/// link, the source classified from that link, the canonical date
/// rendering, and the title again as description.
pub open spec fn spec_item_of_article(a: (Seq<char>, Seq<char>, int)) -> (
    Seq<char>,
    Seq<char>,
    Source,
    Seq<char>,
    Seq<char>,
) {
    (a.0, a.1, spec_detect_source(a.1), date::spec_format_jst(a.2), a.0)
}

/// `spec_item_of_article` as a function value, shared by every use of it.
pub open spec fn item_of_article_fn() -> spec_fn((Seq<char>, Seq<char>, int)) -> (
    Seq<char>,
    Seq<char>,
    Source,
    Seq<char>,
    Seq<char>,
) {
    |a: (Seq<char>, Seq<char>, int)| spec_item_of_article(a)
}

/// Turn fetched feed bodies into display-ready items: every valid item of
/// every feed, in feed order, classified by source, with its publish date
/// rendered canonically. A feed that does not parse is fatal; a malformed
/// item is silently skipped.
pub fn aggregate_rss_items(bodies: &Vec<Vec<u8>>) -> (r: Result<Vec<Item>, FeedError>)
    ensures
        match r {
            Ok(items) => {
                &&& forall|f: int|
                    0 <= f < bodies@.len() ==> channel_items_of((#[trigger] bodies@[f])@) is Some
                &&& items@.map_values(|it: Item| item_view(it)) == spec_feeds_articles(
                    bodies_views(bodies@),
                ).map_values(item_of_article_fn())
            },
            Err(e) => {
                &&& e.feed_index < bodies@.len()
                &&& channel_items_of(bodies@[e.feed_index as int]@) is None
                &&& forall|f: int|
                    0 <= f < e.feed_index ==> channel_items_of((#[trigger] bodies@[f])@) is Some
            },
        },
{
    let ea = match ExternalArticles::from_rss(bodies) {
        Ok(ea) => ea,
        Err(e) => {
            return Err(e);
        },
    };
    let ghost evs = ext_views(ea.articles@);
    let mut arts = ea.articles;
    let ghost orig = arts@;
    let mut items: Vec<Item> = Vec::new();
    proof {
        assert(arts@ =~= orig.skip(0));
        assert(items@.map_values(|it: Item| item_view(it)) =~= ext_views(orig.take(0)).map_values(
            item_of_article_fn(),
        ));
    }
    while arts.len() > 0
        invariant
            arts@.len() <= orig.len(),
            arts@ == orig.skip(orig.len() - arts@.len()),
            evs == ext_views(orig),
            forall|q: int| 0 <= q < orig.len() ==> (#[trigger] orig[q]).wf(),
            items@.map_values(|it: Item| item_view(it)) == ext_views(
                orig.take(orig.len() - arts@.len()),
            ).map_values(item_of_article_fn()),
        decreases arts@.len(),
    {
        let ghost done = orig.len() - arts@.len();
        let ghost prev_items = items@;
        let a = arts.remove(0);
        proof {
            assert(a == orig.skip(done as int)[0]);
            assert(a == orig[done as int]);
            assert(arts@ =~= orig.skip(done + 1));
        }
        let source = detect_source(a.url.as_str());
        let pub_date = date::format_jst_pub_date(a.pub_date);
        let item = Item {
            title: a.title.clone(),
            link: a.url.clone(),
            source,
            pub_date,
            description: a.title,
        };
        proof {
            assert(item_view(item) == spec_item_of_article(
                (orig[done as int].title@, orig[done as int].url@, orig[done as int].pub_date as int),
            ));
        }
        items.push(item);
        proof {
            assert(items@.map_values(|it: Item| item_view(it)) =~= prev_items.map_values(
                |it: Item| item_view(it),
            ).push(item_view(item)));
            assert(ext_views(orig.take(done + 1)) =~= ext_views(orig.take(done as int)).push(
                (orig[done as int].title@, orig[done as int].url@, orig[done as int].pub_date as int),
            ));
            assert(ext_views(orig.take(done + 1)).map_values(item_of_article_fn()) =~= ext_views(
                orig.take(done as int),
            ).map_values(item_of_article_fn()).push(item_view(item)));
        }
    }
    proof {
        assert(orig.take(orig.len() as int) =~= orig);
    }
    Ok(items)
}

/// The site's own syndication feed: channel fields and the items to write.
pub struct RSS {
    pub title: String,
    pub description: String,
    pub url: String,
    pub items: Vec<Item>,
}

impl RSS {
    /// Collect the channel fields and items of a feed to write.
    pub fn new(title: String, description: String, url: String, items: Vec<Item>) -> (r: Self)
        ensures
            r.title@ == title@,
            r.description@ == description@,
            r.url@ == url@,
            r.items@ == items@,
    {
        RSS { title, description, url, items }
    }

    /// Render the feed as an RSS 2.0 document. Every item's link is joined
    /// onto the channel URL; the first item whose join fails is the error.
    pub fn generate_rss(&self) -> (r: Result<String, RssError>)
        ensures
            match r {
                Ok(xml) => {
                    &&& forall|i: int|
                        0 <= i < self.items@.len() ==> url_join_of(
                            self.url@,
                            (#[trigger] self.items@[i]).link@,
                        ) is Some
                    &&& xml@ == channel_xml_of(
                        self.title@,
                        self.description@,
                        self.url@,
                        spec_rss_entries(self.url@, self.items@),
                    )
                },
                Err(e) => {
                    &&& e.item_index < self.items@.len()
                    &&& url_join_of(self.url@, self.items@[e.item_index as int].link@) is None
                    &&& forall|i: int|
                        0 <= i < e.item_index ==> url_join_of(
                            self.url@,
                            (#[trigger] self.items@[i]).link@,
                        ) is Some
                },
            },
    {
        let mut entries: Vec<FeedEntry> = Vec::new();
        proof {
            assert(entries@.map_values(|e: FeedEntry| feed_entry_view(e)) =~= spec_rss_entries(
                self.url@,
                self.items@.take(0),
            ));
        }
        let mut i: usize = 0;
        while i < self.items.len()
            invariant
                0 <= i <= self.items@.len(),
                forall|q: int|
                    0 <= q < i ==> url_join_of(
                        self.url@,
                        (#[trigger] self.items@[q]).link@,
                    ) is Some,
                entries@.map_values(|e: FeedEntry| feed_entry_view(e)) == spec_rss_entries(
                    self.url@,
                    self.items@.take(i as int),
                ),
            decreases self.items@.len() - i,
        {
            let it = &self.items[i];
            let joined = match url_join(self.url.as_str(), it.link.as_str()) {
                Some(u) => u,
                None => {
                    return Err(RssError { item_index: i });
                },
            };
            let entry = FeedEntry {
                title: it.title.clone(),
                link: joined,
                pub_date: it.pub_date.clone(),
                description: it.description.clone(),
            };
            proof {
                assert(feed_entry_view(entry) == (
                    self.items@[i as int].title@,
                    join_or_empty(self.url@, self.items@[i as int].link@),
                    self.items@[i as int].pub_date@,
                    self.items@[i as int].description@,
                ));
            }
            entries.push(entry);
            proof {
                assert(entries@.map_values(|e: FeedEntry| feed_entry_view(e)) =~= spec_rss_entries(
                    self.url@,
                    self.items@.take(i as int),
                ).push(feed_entry_view(entry)));
                assert(spec_rss_entries(self.url@, self.items@.take(i + 1)) =~= spec_rss_entries(
                    self.url@,
                    self.items@.take(i as int),
                ).push(feed_entry_view(entry)));
            }
            i = i + 1;
        }
        proof {
            assert(self.items@.take(self.items@.len() as int) =~= self.items@);
        }
        Ok(
            channel_to_xml(
                self.title.as_str(),
                self.description.as_str(),
                self.url.as_str(),
                &entries,
            ),
        )
    }
}

} // verus!
