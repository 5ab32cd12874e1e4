//! The Preview record: one normalized entry per ingested URL, created either
//! from a bare URL or from a feed item, and enriched in place by the
//! extraction pipeline.

use vstd::prelude::*;

verus! {

use crate::outside::{today, trim_str, trimmed_of};
use crate::text::{join_spec, join_with, split_trim, split_trim_spec};

/// A calendar day, counted in days from the common era, as chrono counts
/// them (1 January of year 1 is day 1).
#[derive(Debug, Clone, Copy, PartialEq, Eq, Structural)]
pub struct Date {
    pub days: i32,
}

/// Why a preview could not be built from its input.
#[derive(Debug, Clone, Copy, PartialEq, Eq, Structural)]
pub enum PreviewError {
    /// The feed item carries no link, so there is no URL to key the record by.
    MissingLink,
}

/// The normalized record describing one ingested URL.
///
/// `url` and `added_date` are identity fields, set once at creation. `saved`
/// and `bookmarked` are lifecycle flags owned by the ingesting caller.
/// `embellished` records that the enrichment pass has run. The remaining
/// fields are enrichment data; `tags`, when present, is a comma-separated
/// list of trimmed, non-empty tokens.
#[derive(Debug, Clone, PartialEq)]
pub struct Preview {
    pub url: String,
    pub added_date: Date,
    pub saved: bool,
    pub embellished: bool,
    pub bookmarked: bool,
    pub source: Option<String>,
    pub title: Option<String>,
    pub published_date: Option<String>,
    pub tags: Option<String>,
    pub summary: Option<String>,
}

/// One item of a syndication feed, reduced to the fields the pipeline reads.
#[derive(Debug, Clone, PartialEq)]
pub struct FeedItem {
    pub link: Option<String>,
    pub title: Option<String>,
    pub pub_date: Option<String>,
    pub categories: Vec<String>,
    pub description: Option<String>,
}

impl FeedItem {
    /// A copy of the item, its fields equal to the original's.
    pub fn duplicate(&self) -> (r: FeedItem)
        ensures
            r.link == self.link,
            r.title == self.title,
            r.pub_date == self.pub_date,
            r.categories@ == self.categories@,
            r.description == self.description,
    {
        FeedItem {
            link: clone_opt_string(&self.link),
            title: clone_opt_string(&self.title),
            pub_date: clone_opt_string(&self.pub_date),
            categories: clone_vec_string(&self.categories),
            description: clone_opt_string(&self.description),
        }
    }
}

/// A copy of a string list whose elements equal the original's.
pub fn clone_vec_string(v: &Vec<String>) -> (r: Vec<String>)
    ensures
        r@ == v@,
{
    let n = v.len();
    let mut out: Vec<String> = Vec::new();
    let mut i: usize = 0;
    while i < n
        invariant
            n == v@.len(),
            i <= n,
            out@ =~= v@.take(i as int),
        decreases n - i,
    {
        out.push(v[i].clone());
        proof {
            assert(out@ =~= v@.take(i + 1));
        }
        i = i + 1;
    }
    proof {
        assert(out@ =~= v@);
    }
    out
}

/// A fetched feed, reduced to its title and items.
#[derive(Debug, Clone, PartialEq)]
pub struct FeedChannel {
    pub title: String,
    pub items: Vec<FeedItem>,
}

/// How a preview built from a feed item relates to that item: the link is
/// its URL, the feed's name its provenance label, the item's metadata its
/// enrichment fields, and the lifecycle flags start off false. Categories,
/// when there are any, appear joined as the comma-separated tag list; an
/// empty category list is encoded as absent tags.
pub open spec fn item_preview_ok(source: Seq<char>, item: FeedItem, p: Preview) -> bool {
    &&& item.link is Some
    &&& p.url@ == item.link->Some_0@
    &&& p.title.deep_view() == item.title.deep_view()
    &&& p.source.deep_view() == Some(source)
    &&& p.published_date.deep_view() == item.pub_date.deep_view()
    &&& (item.categories@.len() == 0 ==> p.tags is None)
    &&& (item.categories@.len() > 0 ==> p.tags.deep_view() == Some(
        join_spec(item.categories.deep_view(), ", "@),
    ))
    &&& p.summary.deep_view() == item.description.deep_view()
    &&& !p.saved && !p.embellished && !p.bookmarked
}

/// Turns a fetched feed into preview records, one per item: each gets the
/// feed's trimmed title as its provenance label. One item without a link
/// fails the whole conversion.
pub fn into_previews(channel: &FeedChannel) -> (r: Result<Vec<Preview>, PreviewError>)
    ensures
        r is Ok <==> (forall|i: int|
            0 <= i < channel.items@.len() ==> (#[trigger] channel.items@[i]).link is Some),
        r matches Ok(v) ==> v@.len() == channel.items@.len() && (forall|i: int|
            0 <= i < v@.len() ==> item_preview_ok(
                trimmed_of(channel.title@),
                channel.items@[i],
                #[trigger] v@[i],
            )),
        r matches Err(e) ==> e == PreviewError::MissingLink,
{
    let title = trim_str(channel.title.as_str());
    let n = channel.items.len();
    let mut out: Vec<Preview> = Vec::new();
    let mut i: usize = 0;
    while i < n
        invariant
            n == channel.items@.len(),
            i <= n,
            out@.len() == i,
            title@ == trimmed_of(channel.title@),
            forall|j: int|
                0 <= j < i ==> item_preview_ok(
                    trimmed_of(channel.title@),
                    channel.items@[j],
                    #[trigger] out@[j],
                ),
        decreases n - i,
    {
        let item = channel.items[i].duplicate();
        match Preview::from_rss_item(title.clone(), item) {
            Err(e) => {
                assert(channel.items@[i as int].link is None);
                return Err(e);
            },
            Ok(p) => {
                proof {
                    assert(item.categories.deep_view() =~= channel.items@[i as int].categories.deep_view());
                    assert(item_preview_ok(trimmed_of(channel.title@), channel.items@[i as int], p));
                }
                out.push(p);
            },
        }
        i = i + 1;
    }
    proof {
        assert forall|j: int|
            0 <= j < channel.items@.len() implies (#[trigger] channel.items@[j]).link is Some by {
            assert(item_preview_ok(trimmed_of(channel.title@), channel.items@[j], out@[j]));
        }
    }
    Ok(out)
}

/// A copy of an optional string, equal to the original.
pub fn clone_opt_string(o: &Option<String>) -> (r: Option<String>)
    ensures
        r == *o,
{
    match o {
        None => None,
        Some(s) => Some(s.clone()),
    }
}

impl Preview {
    /// An equal copy of the record.
    pub fn duplicate(&self) -> (p: Preview)
        ensures
            p == *self,
    {
        Preview {
            url: self.url.clone(),
            added_date: self.added_date,
            saved: self.saved,
            embellished: self.embellished,
            bookmarked: self.bookmarked,
            source: clone_opt_string(&self.source),
            title: clone_opt_string(&self.title),
            published_date: clone_opt_string(&self.published_date),
            tags: clone_opt_string(&self.tags),
            summary: clone_opt_string(&self.summary),
        }
    }

    /// A bare record for a URL seen outside any feed: everything but the
    /// identity fields is empty, and the added date is the current day.
    pub fn from_url(url: String) -> (p: Preview)
        ensures
            p.url == url,
            !p.saved && !p.embellished && !p.bookmarked,
            p.source is None && p.title is None && p.published_date is None,
            p.tags is None && p.summary is None,
    {
        Preview {
            url,
            added_date: today(),
            saved: false,
            embellished: false,
            bookmarked: false,
            source: None,
            title: None,
            published_date: None,
            tags: None,
            summary: None,
        }
    }

    /// A record pre-populated from a feed item. The feed's name becomes the
    /// provenance label; the item's categories, when there are any, are
    /// joined into the comma-separated tag list; an item without a link is
    /// rejected.
    pub fn from_rss_item(source: String, item: FeedItem) -> (r: Result<Preview, PreviewError>)
        ensures
            item.link is None <==> r is Err,
            r matches Err(e) ==> e == PreviewError::MissingLink,
            r matches Ok(p) ==> item_preview_ok(source@, item, p),
    {
        let url = match item.link {
            None => {
                return Err(PreviewError::MissingLink);
            },
            Some(url) => url,
        };
        let tags = if item.categories.len() == 0 {
            None
        } else {
            Some(join_with(&item.categories, ", "))
        };
        Ok(Preview {
            url,
            added_date: today(),
            saved: false,
            embellished: false,
            bookmarked: false,
            source: Some(source),
            title: item.title,
            published_date: item.pub_date,
            tags,
            summary: item.description,
        })
    }

    /// The tag list: the comma-separated `tags` field split at commas, each
    /// token trimmed.
    pub fn tags(&self) -> (r: Option<Vec<String>>)
        ensures
            r is Some <==> self.tags is Some,
            r matches Some(v) ==> v.deep_view() == split_trim_spec(self.tags->Some_0@),
    {
        match &self.tags {
            None => None,
            Some(tags) => Some(split_trim(tags.as_str())),
        }
    }
}

} // verus!
