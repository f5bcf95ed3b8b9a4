//! Externally syndicated articles: one record per valid feed item, with the
//! publish instant normalized to whole epoch seconds.

use vstd::prelude::*;

use crate::article::Source;
use crate::article::detect_source;
use crate::article::spec_detect_source;
use crate::date;
use crate::rss::RawFeedItem;
use crate::rss::RawItemView;
use crate::rss::channel_items_of;
use crate::rss::parse_channel_items;
use crate::rss::raw_item_view;

verus! {

/// A feed item is valid where its title and link are present and non-empty
/// and its publish date is present, RFC 2822, and in the supported range;
/// it then yields title, link and instant.
pub open spec fn spec_valid_item(i: RawItemView) -> Option<(Seq<char>, Seq<char>, int)> {
    match i {
        (Some(t), Some(l), Some(d)) => {
            if t.len() > 0 && l.len() > 0 {
                match date::rfc2822_instant_of(d) {
                    Some(inst) => if date::valid_instant(inst) {
                        Some((t, l, inst))
                    } else {
                        None
                    },
                    None => None,
                }
            } else {
                None
            }
        },
        _ => None,
    }
}

/// `spec_valid_item` as a function value, shared by every use of it.
pub open spec fn valid_item_fn() -> spec_fn(RawItemView) -> Option<(Seq<char>, Seq<char>, int)> {
    |i: RawItemView| spec_valid_item(i)
}

/// The valid items of one parsed feed, in feed order.
pub open spec fn spec_feed_articles(items: Seq<RawItemView>) -> Seq<(Seq<char>, Seq<char>, int)> {
    items.filter_map(valid_item_fn())
}

/// The byte sequences of fetched feed bodies.
pub open spec fn bodies_views(bs: Seq<Vec<u8>>) -> Seq<Seq<u8>> {
    bs.map_values(|b: Vec<u8>| b@)
}

/// The valid items of every feed, feeds in input order: what fetching
/// yields where every body parses.
pub open spec fn spec_feeds_articles(bodies: Seq<Seq<u8>>) -> Seq<(Seq<char>, Seq<char>, int)>
    decreases bodies.len(),
{
    if bodies.len() == 0 {
        Seq::empty()
    } else {
        spec_feeds_articles(bodies.drop_last()) + (match channel_items_of(bodies.last()) {
            Some(items) => spec_feed_articles(items),
            None => Seq::empty(),
        })
    }
}

/// What a sequence of external articles denotes: title, link and instant of
/// each.
pub open spec fn ext_views(s: Seq<ExternalArticle>) -> Seq<(Seq<char>, Seq<char>, int)> {
    s.map_values(|a: ExternalArticle| (a.title@, a.url@, a.pub_date as int))
}

/// Why feed aggregation failed: the first feed whose body did not parse as
/// an RSS document. A feed failure is fatal to the whole aggregation.
#[derive(Clone, Copy, Debug, PartialEq, Eq, Structural)]
pub struct FeedError {
    pub feed_index: usize,
}

/// An article syndicated from an external feed: title, canonical URL, and
/// publish instant.
pub struct ExternalArticle {
    pub title: String,
    pub url: String,
    pub pub_date: i64,
}

impl ExternalArticle {
    /// The publish instant lies in the supported range.
    pub open spec fn wf(self) -> bool {
        date::valid_instant(self.pub_date as int)
    }

    /// Collect an already validated feed item. Instants are kept in epoch
    /// seconds, so no timezone conversion happens here; display converts.
    pub fn new(title: String, url: String, pub_date: i64) -> (r: Self)
        ensures
            r.title@ == title@,
            r.url@ == url@,
            r.pub_date == pub_date,
    {
        ExternalArticle { title, url, pub_date }
    }

    /// The origin platform, classified from the article's URL.
    pub fn source(&self) -> (r: Source)
        ensures
            r == spec_detect_source(self.url@),
    {
        detect_source(self.url.as_str())
    }
}

/// The set of externally syndicated articles of one build.
pub struct ExternalArticles {
    pub articles: Vec<ExternalArticle>,
}

/// Law: a feed item written for a local article survives the fetcher's own
/// validation and yields the article back. Where the article's title and
/// its joined link are non-empty (an empty one is skipped by design) and
/// its written date parses back to its instant — which the feed writer's
/// contract gives for every item it writes — validating the written fields
/// yields exactly the article's title, the joined link, and the instant.
pub proof fn lemma_feed_item_round_trip(la: crate::local::LocalArticle, joined: Seq<char>)
    requires
        la.wf(),
        la.options.title@.len() > 0,
        joined.len() > 0,
        date::rfc2822_instant_of(date::rfc2822_string_of(la.pub_date as int)) == Some(
            la.pub_date as int,
        ),
    ensures
        spec_valid_item(
            (
                Some(la.options.title@),
                Some(joined),
                Some(date::rfc2822_string_of(la.pub_date as int)),
            ),
        ) == Some((la.options.title@, joined, la.pub_date as int)),
{
}

/// Validate one raw feed item: present, non-empty title and link, and a
/// parseable publish date in the supported range; a failing item is
/// silently skipped by the caller.
fn valid_article(item: RawFeedItem) -> (r: Option<ExternalArticle>)
    ensures
        match r {
            Some(a) => spec_valid_item(raw_item_view(item)) == Some(
                (a.title@, a.url@, a.pub_date as int),
            ) && a.wf(),
            None => spec_valid_item(raw_item_view(item)) is None,
        },
{
    let title = match item.title {
        Some(t) => t,
        None => {
            return None;
        },
    };
    let link = match item.link {
        Some(l) => l,
        None => {
            return None;
        },
    };
    let d = match item.pub_date {
        Some(d) => d,
        None => {
            return None;
        },
    };
    if title.as_str().is_empty() || link.as_str().is_empty() {
        return None;
    }
    let inst = match date::parse_rfc2822(d.as_str()) {
        Some(i) => i,
        None => {
            return None;
        },
    };
    if !(0 <= inst && inst < date::MAX_PUBLISH_INSTANT) {
        return None;
    }
    Some(ExternalArticle { title, url: link, pub_date: inst })
}

impl ExternalArticles {
    /// Every article's publish instant is in the supported range.
    pub open spec fn wf(self) -> bool {
        forall|i: int| 0 <= i < self.articles@.len() ==> (#[trigger] self.articles@[i]).wf()
    }

    /// Parse every fetched feed body and collect the valid items of all of
    /// them, feeds in input order. A body that is not an RSS document is
    /// fatal to the whole aggregation (the first such feed is the error); a
    /// malformed item within a feed is silently skipped.
    pub fn from_rss(bodies: &Vec<Vec<u8>>) -> (r: Result<ExternalArticles, FeedError>)
        ensures
            match r {
                Ok(ea) => {
                    &&& forall|f: int|
                        0 <= f < bodies@.len() ==> channel_items_of(
                            (#[trigger] bodies@[f])@,
                        ) is Some
                    &&& ext_views(ea.articles@) == spec_feeds_articles(bodies_views(bodies@))
                    &&& ea.wf()
                },
                Err(e) => {
                    &&& e.feed_index < bodies@.len()
                    &&& channel_items_of(bodies@[e.feed_index as int]@) is None
                    &&& forall|f: int|
                        0 <= f < e.feed_index ==> channel_items_of(
                            (#[trigger] bodies@[f])@,
                        ) is Some
                },
            },
    {
        let mut articles: Vec<ExternalArticle> = Vec::new();
        proof {
            assert(ext_views(articles@) =~= Seq::<(Seq<char>, Seq<char>, int)>::empty());
            assert(spec_feeds_articles(bodies_views(bodies@).take(0)) =~= Seq::<
                (Seq<char>, Seq<char>, int),
            >::empty());
        }
        let mut f: usize = 0;
        while f < bodies.len()
            invariant
                0 <= f <= bodies@.len(),
                forall|q: int| 0 <= q < f ==> channel_items_of((#[trigger] bodies@[q])@) is Some,
                ext_views(articles@) == spec_feeds_articles(bodies_views(bodies@).take(f as int)),
                forall|q: int| 0 <= q < articles@.len() ==> (#[trigger] articles@[q]).wf(),
            decreases bodies@.len() - f,
        {
            let mut items = match parse_channel_items(&bodies[f]) {
                Some(i) => i,
                None => {
                    return Err(FeedError { feed_index: f });
                },
            };
            let ghost orig_items = items@;
            let ghost items_v = items@.map_values(|i: RawFeedItem| raw_item_view(i));
            proof {
                assert(items@ =~= orig_items.skip(0));
                assert(items_v.take(0).filter_map(valid_item_fn()) =~= Seq::<
                    (Seq<char>, Seq<char>, int),
                >::empty());
            }
            let ghost before = articles@;
            while items.len() > 0
                invariant
                    items@.len() <= orig_items.len(),
                    items@ == orig_items.skip(orig_items.len() - items@.len()),
                    items_v == orig_items.map_values(|i: RawFeedItem| raw_item_view(i)),
                    ext_views(articles@) == ext_views(before) + items_v.take(
                        orig_items.len() - items@.len(),
                    ).filter_map(valid_item_fn()),
                    forall|q: int|
                        0 <= q < articles@.len() ==> (#[trigger] articles@[q]).wf(),
                decreases items@.len(),
            {
                let ghost done = orig_items.len() - items@.len();
                let ghost prev = articles@;
                let it = items.remove(0);
                proof {
                    assert(it == orig_items.skip(done as int)[0]);
                    assert(it == orig_items[done as int]);
                    assert(items@ =~= orig_items.skip(done + 1));
                    assert(items_v[done as int] == raw_item_view(orig_items[done as int]));
                }
                match valid_article(it) {
                    Some(a) => {
                        articles.push(a);
                        proof {
                            assert(ext_views(articles@) =~= ext_views(prev).push(
                                (a.title@, a.url@, a.pub_date as int),
                            ));
                        }
                    },
                    None => {},
                }
                proof {
                    items_v.lemma_filter_map_take_succ(valid_item_fn(), done as int);
                    assert(ext_views(articles@) =~= ext_views(before) + items_v.take(
                        done + 1,
                    ).filter_map(valid_item_fn()));
                }
            }
            proof {
                assert(items_v.take(orig_items.len() as int) =~= items_v);
                let bv = bodies_views(bodies@);
                assert(bv.take(f + 1).drop_last() =~= bv.take(f as int));
                assert(bv.take(f + 1).last() == bodies@[f as int]@);
                assert(spec_feeds_articles(bv.take(f + 1)) == spec_feeds_articles(bv.take(f as int))
                    + spec_feed_articles(items_v));
            }
            f = f + 1;
        }
        proof {
            assert(bodies_views(bodies@).take(bodies@.len() as int) =~= bodies_views(bodies@));
        }
        Ok(ExternalArticles { articles })
    }
}

} // verus!
