//! The dedup-aware store of Preview records, keyed by URL. Re-ingesting a
//! known URL updates the record's enrichment fields and never duplicates it
//! or touches its identity fields (`url`, `added_date`, `saved`).

use vstd::prelude::*;

verus! {

use crate::preview::{Date, Preview};

/// Why a store operation was refused.
#[derive(Debug, Clone, Copy, PartialEq, Eq, Structural)]
pub enum StoreError {
    /// A plain insert of a URL the store already holds would violate key
    /// uniqueness.
    DuplicateUrl,
}

/// The recency filter: a record is kept when it is flagged saved and was
/// added strictly after `days` days before `today`.
pub open spec fn recent_saved_pred(today: Date, days: u32) -> spec_fn(Preview) -> bool {
    |p: Preview| p.saved && p.added_date.days > today.days - days
}

/// The position of the first record keyed by `url`, scanning from the front.
pub open spec fn first_index_of_url(s: Seq<Preview>, url: Seq<char>) -> Option<int>
    decreases s.len(),
{
    if s.len() == 0 {
        None
    } else if s[0].url@ == url {
        Some(0int)
    } else {
        match first_index_of_url(s.drop_first(), url) {
            None => None,
            Some(i) => Some(i + 1),
        }
    }
}

/// The store holds some record keyed by `url`.
pub open spec fn has_url(s: Seq<Preview>, url: Seq<char>) -> bool {
    first_index_of_url(s, url) is Some
}

/// What an update leaves at a matched record: the enrichment fields of `p`,
/// the identity fields (`url`, `added_date`, `saved`) of the record already
/// stored.
pub open spec fn merge_preview(cur: Preview, p: Preview) -> Preview {
    Preview {
        url: cur.url,
        added_date: cur.added_date,
        saved: cur.saved,
        embellished: p.embellished,
        bookmarked: p.bookmarked,
        source: p.source,
        title: p.title,
        published_date: p.published_date,
        tags: p.tags,
        summary: p.summary,
    }
}

/// What an upsert leaves in the store: `p` appended when its URL is new,
/// otherwise the matched record merged with `p` in place.
pub open spec fn upsert_spec(s: Seq<Preview>, p: Preview) -> Seq<Preview> {
    match first_index_of_url(s, p.url@) {
        None => s.push(p),
        Some(i) => s.update(i, merge_preview(s[i], p)),
    }
}

/// `first_index_of_url` finds exactly the first match: a `Some` points at a
/// record with the URL and nothing before it matches, a `None` means nothing
/// matches at all.
pub proof fn lemma_first_index_of_url(s: Seq<Preview>, url: Seq<char>)
    ensures
        match first_index_of_url(s, url) {
            None => forall|j: int| 0 <= j < s.len() ==> s[j].url@ != url,
            Some(i) => 0 <= i < s.len() && s[i].url@ == url && (forall|j: int|
                0 <= j < i ==> s[j].url@ != url),
        },
    decreases s.len(),
{
    if s.len() > 0 && s[0].url@ != url {
        lemma_first_index_of_url(s.drop_first(), url);
        assert(forall|j: int| 0 < j < s.len() ==> s[j] == s.drop_first()[j - 1]);
    }
}

/// The converse: a first match at `i` pins `first_index_of_url` to `Some(i)`.
proof fn lemma_first_index_of_url_is(s: Seq<Preview>, url: Seq<char>, i: int)
    requires
        0 <= i < s.len(),
        s[i].url@ == url,
        forall|j: int| 0 <= j < i ==> s[j].url@ != url,
    ensures
        first_index_of_url(s, url) == Some(i),
{
    lemma_first_index_of_url(s, url);
    match first_index_of_url(s, url) {
        None => {
            assert(false);
        },
        Some(k) => {
            if k < i {
                assert(s[k].url@ != url);
            }
            if k > i {
                assert(s[i].url@ != url);
            }
        },
    }
}

/// Appending a record with a URL the store lacks puts the first match at the
/// end.
proof fn lemma_first_index_push(s: Seq<Preview>, p: Preview)
    requires
        first_index_of_url(s, p.url@) is None,
    ensures
        first_index_of_url(s.push(p), p.url@) == Some(s.len() as int),
{
    lemma_first_index_of_url(s, p.url@);
    assert(forall|j: int| 0 <= j < s.len() ==> s.push(p)[j] == s[j]);
    lemma_first_index_of_url_is(s.push(p), p.url@, s.len() as int);
}

/// Updating the first match with a record of the same URL keeps it the first
/// match.
proof fn lemma_first_index_update(s: Seq<Preview>, url: Seq<char>, i: int, q: Preview)
    requires
        first_index_of_url(s, url) == Some(i),
        q.url@ == url,
    ensures
        first_index_of_url(s.update(i, q), url) == Some(i),
{
    lemma_first_index_of_url(s, url);
    assert(forall|j: int| 0 <= j < i ==> s.update(i, q)[j] == s[j]);
    lemma_first_index_of_url_is(s.update(i, q), url, i);
}

/// Upserting an unchanged record a second time changes nothing: the store
/// state after two upserts of `p` is the state after one.
pub proof fn lemma_upsert_idempotent(s: Seq<Preview>, p: Preview)
    ensures
        upsert_spec(upsert_spec(s, p), p) == upsert_spec(s, p),
{
    match first_index_of_url(s, p.url@) {
        None => {
            let s1 = s.push(p);
            lemma_first_index_push(s, p);
            assert(merge_preview(p, p) == p);
            assert(s1.update(s.len() as int, p) =~= s1);
        },
        Some(i) => {
            lemma_first_index_of_url(s, p.url@);
            let m = merge_preview(s[i], p);
            let s1 = s.update(i, m);
            lemma_first_index_update(s, p.url@, i, m);
            assert(merge_preview(m, p) == m);
            assert(s1.update(i, m) =~= s1);
        },
    }
}

/// An upsert never disturbs the identity fields of the records already
/// stored: every prior record keeps its position, URL, added date and saved
/// flag, whatever enrichment data the upsert carries.
pub proof fn lemma_upsert_preserves_identity(s: Seq<Preview>, p: Preview, i: int)
    requires
        0 <= i < s.len(),
    ensures
        upsert_spec(s, p).len() >= s.len(),
        upsert_spec(s, p)[i].url == s[i].url,
        upsert_spec(s, p)[i].added_date == s[i].added_date,
        upsert_spec(s, p)[i].saved == s[i].saved,
{
    lemma_first_index_of_url(s, p.url@);
}

/// The dedup-aware persistence of Preview records. Its view is the stored
/// sequence of records; URL uniqueness is the store's invariant, established
/// empty and preserved by every operation.
#[derive(Debug)]
pub struct Store {
    previews: Vec<Preview>,
}

impl View for Store {
    type V = Seq<Preview>;

    closed spec fn view(&self) -> Seq<Preview> {
        self.previews@
    }
}

impl Store {
    /// No two records share a URL.
    pub open spec fn wf(&self) -> bool {
        forall|i: int, j: int|
            0 <= i < j < self@.len() ==> self@[i].url@ != self@[j].url@
    }

    /// An empty store.
    pub fn new() -> (s: Store)
        ensures
            s@ == Seq::<Preview>::empty(),
            s.wf(),
    {
        Store { previews: Vec::new() }
    }

    /// The position of the record keyed by `url`, if one is stored.
    fn find_url(&self, url: &str) -> (r: Option<usize>)
        ensures
            match r {
                None => first_index_of_url(self@, url@) is None,
                Some(i) => first_index_of_url(self@, url@) == Some(i as int),
            },
    {
        let n = self.previews.len();
        let mut i: usize = 0;
        while i < n
            invariant
                n == self@.len(),
                i <= n,
                forall|j: int| 0 <= j < i ==> self@[j].url@ != url@,
            decreases n - i,
        {
            if crate::text::str_eq(self.previews[i].url.as_str(), url) {
                proof {
                    lemma_first_index_of_url_is(self@, url@, i as int);
                }
                return Some(i);
            }
            i = i + 1;
        }
        proof {
            lemma_first_index_of_url(self@, url@);
        }
        None
    }

    /// Whether the store already holds a record for `url`: the read-only
    /// lookup used upstream to skip redundant work.
    pub fn is_url_known(&self, url: &str) -> (r: bool)
        ensures
            r == has_url(self@, url@),
    {
        self.find_url(url).is_some()
    }

    /// The record keyed by `url`, if one is stored.
    pub fn get_preview(&self, url: &str) -> (r: Option<Preview>)
        ensures
            r is Some <==> has_url(self@, url@),
            r matches Some(p) ==> (first_index_of_url(self@, url@) matches Some(i) && 0 <= i
                < self@.len() && p == self@[i]),
    {
        match self.find_url(url) {
            None => None,
            Some(i) => {
                proof {
                    lemma_first_index_of_url(self@, url@);
                }
                Some(self.previews[i].duplicate())
            },
        }
    }

    /// Every stored record, in insertion order.
    pub fn get_all_previews(&self) -> (r: Vec<Preview>)
        ensures
            r@ == self@,
    {
        let n = self.previews.len();
        let mut out: Vec<Preview> = Vec::new();
        let mut i: usize = 0;
        while i < n
            invariant
                n == self@.len(),
                i <= n,
                out@ =~= self@.take(i as int),
            decreases n - i,
        {
            out.push(self.previews[i].duplicate());
            proof {
                assert(out@ =~= self@.take(i + 1));
            }
            i = i + 1;
        }
        proof {
            assert(self@.take(n as int) =~= self@);
        }
        out
    }

    /// Inserts a record whose URL must be new; a URL the store already holds
    /// is refused and the store is left unchanged.
    pub fn insert_preview(&mut self, preview: &Preview) -> (r: Result<(), StoreError>)
        requires
            old(self).wf(),
        ensures
            final(self).wf(),
            r is Ok <==> !has_url(old(self)@, preview.url@),
            r matches Err(e) ==> e == StoreError::DuplicateUrl && final(self)@ == old(self)@,
            r is Ok ==> final(self)@ == old(self)@.push(*preview),
    {
        if self.find_url(preview.url.as_str()).is_some() {
            return Err(StoreError::DuplicateUrl);
        }
        proof {
            lemma_first_index_of_url(self@, preview.url@);
        }
        self.previews.push(preview.duplicate());
        Ok(())
    }

    /// Updates the record keyed by the given URL, replacing its enrichment
    /// fields and keeping its identity fields; with no such record the store
    /// is left unchanged, as an update of an unknown key matches nothing.
    pub fn update_preview(&mut self, preview: &Preview)
        requires
            old(self).wf(),
        ensures
            final(self).wf(),
            final(self)@ == match first_index_of_url(old(self)@, preview.url@) {
                None => old(self)@,
                Some(i) => old(self)@.update(i, merge_preview(old(self)@[i], *preview)),
            },
    {
        let i = match self.find_url(preview.url.as_str()) {
            None => {
                return ;
            },
            Some(i) => i,
        };
        proof {
            lemma_first_index_of_url(self@, preview.url@);
        }
        let cur = self.previews.remove(i);
        let merged = Preview {
            url: cur.url,
            added_date: cur.added_date,
            saved: cur.saved,
            embellished: preview.embellished,
            bookmarked: preview.bookmarked,
            source: crate::preview::clone_opt_string(&preview.source),
            title: crate::preview::clone_opt_string(&preview.title),
            published_date: crate::preview::clone_opt_string(&preview.published_date),
            tags: crate::preview::clone_opt_string(&preview.tags),
            summary: crate::preview::clone_opt_string(&preview.summary),
        };
        self.previews.insert(i, merged);
        proof {
            assert(self@ =~= old(self)@.update(
                i as int,
                merge_preview(old(self)@[i as int], *preview),
            ));
        }
    }

    /// The dedup-aware upsert: looks the URL up, inserts the full record when
    /// it is absent, and otherwise updates only the enrichment fields,
    /// leaving `url`, `added_date` and `saved` untouched.
    pub fn insert_or_update_preview(&mut self, preview: &Preview)
        requires
            old(self).wf(),
        ensures
            final(self).wf(),
            final(self)@ == upsert_spec(old(self)@, *preview),
    {
        if self.is_url_known(preview.url.as_str()) {
            self.update_preview(preview);
        } else {
            let r = self.insert_preview(preview);
            assert(r is Ok);
        }
    }

    /// The records saved within the recency window: added strictly after
    /// `days` days before `today`, and flagged saved.
    pub fn get_recent_saved_previews(&self, today: Date, days: u32) -> (r: Vec<Preview>)
        ensures
            r@ == self@.filter(recent_saved_pred(today, days)),
    {
        let ghost pred = recent_saved_pred(today, days);
        let cutoff: i64 = today.days as i64 - days as i64;
        let n = self.previews.len();
        let mut out: Vec<Preview> = Vec::new();
        let mut i: usize = 0;
        proof {
            reveal_with_fuel(Seq::<Preview>::filter, 2);
            assert(self@.take(0).filter(pred) =~= Seq::<Preview>::empty());
        }
        while i < n
            invariant
                n == self@.len(),
                i <= n,
                pred == recent_saved_pred(today, days),
                cutoff == today.days - days,
                out@ =~= self@.take(i as int).filter(pred),
            decreases n - i,
        {
            let p = &self.previews[i];
            if p.saved && (p.added_date.days as i64) > cutoff {
                out.push(p.duplicate());
            }
            proof {
                reveal_with_fuel(Seq::<Preview>::filter, 2);
                let one = seq![self@[i as int]];
                assert(self@.take(i + 1) =~= self@.take(i as int) + one);
                Seq::filter_distributes_over_add(self@.take(i as int), one, pred);
                assert(one.drop_last() =~= Seq::<Preview>::empty());
                assert(one.filter(pred) =~= if pred(self@[i as int]) {
                    one
                } else {
                    Seq::<Preview>::empty()
                });
            }
            i = i + 1;
        }
        proof {
            assert(self@.take(n as int) =~= self@);
        }
        out
    }
}

} // verus!
