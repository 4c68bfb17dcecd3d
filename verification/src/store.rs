//! The in-memory store holding the two tables of the service: URL mappings
//! keyed by short code, and the visit log.
//!
//! Insertion is the authoritative uniqueness gate: [`Store::insert_url`]
//! atomically refuses a duplicate code, so callers need not trust a
//! preceding existence check.

use vstd::prelude::*;

use crate::models::{UrlRecord, UrlRecordV, VisitEvent, VisitEventV};

verus! {

/// Ghost view of the whole store.
pub ghost struct StoreV {
    pub urls: Seq<UrlRecordV>,
    pub visits: Seq<VisitEventV>,
}

/// The mapping and visit tables.
pub struct Store {
    pub urls: Vec<UrlRecord>,
    pub visits: Vec<VisitEvent>,
}

impl View for Store {
    type V = StoreV;

    open spec fn view(&self) -> StoreV {
        StoreV { urls: self.urls.deep_view(), visits: self.visits.deep_view() }
    }
}

/// The first mapping whose code equals `code`, scanning from the front.
pub open spec fn lookup_url(urls: Seq<UrlRecordV>, code: Seq<char>) -> Option<UrlRecordV>
    decreases urls.len(),
{
    if urls.len() == 0 {
        None
    } else if urls[0].id == code {
        Some(urls[0])
    } else {
        lookup_url(urls.drop_first(), code)
    }
}

/// Whether some mapping carries `code`.
pub open spec fn has_code(urls: Seq<UrlRecordV>, code: Seq<char>) -> bool {
    lookup_url(urls, code) is Some
}

/// No two mappings share a code.
pub open spec fn urls_wf(urls: Seq<UrlRecordV>) -> bool {
    forall|i: int, j: int|
        0 <= i < j < urls.len() ==> (#[trigger] urls[i]).id != (#[trigger] urls[j]).id
}

/// If no code among the first `i` mappings matches, the lookup is decided
/// by the remainder of the table.
pub proof fn lemma_lookup_skip(urls: Seq<UrlRecordV>, code: Seq<char>, i: int)
    requires
        0 <= i <= urls.len(),
        forall|j: int| 0 <= j < i ==> (#[trigger] urls[j]).id != code,
    ensures
        lookup_url(urls, code) == lookup_url(urls.skip(i), code),
    decreases i,
{
    if i > 0 {
        assert(urls[0].id != code);
        lemma_lookup_skip(urls.drop_first(), code, i - 1);
        assert(urls.drop_first().skip(i - 1) =~= urls.skip(i));
    } else {
        assert(urls.skip(0) =~= urls);
    }
}

/// What a successful or failed lookup says about the table itself.
pub proof fn lemma_lookup_props(urls: Seq<UrlRecordV>, code: Seq<char>)
    ensures
        match lookup_url(urls, code) {
            Some(r) => r.id == code && exists|i: int|
                0 <= i < urls.len() && #[trigger] urls[i] == r,
            None => forall|i: int| 0 <= i < urls.len() ==> (#[trigger] urls[i]).id != code,
        },
    decreases urls.len(),
{
    if urls.len() > 0 && urls[0].id != code {
        lemma_lookup_props(urls.drop_first(), code);
        match lookup_url(urls.drop_first(), code) {
            Some(r) => {
                let i = choose|i: int|
                    0 <= i < urls.drop_first().len() && #[trigger] urls.drop_first()[i] == r;
                assert(urls[i + 1] == r);
            },
            None => {
                assert forall|i: int| 0 <= i < urls.len() implies (#[trigger] urls[i]).id
                    != code by {
                    if i > 0 {
                        assert(urls.drop_first()[i - 1] == urls[i]);
                    }
                }
            },
        }
    }
}

/// Appending a mapping decides lookups: an existing match is kept, a fresh
/// code is found at the end, and every other code is unaffected.
pub proof fn lemma_lookup_push(urls: Seq<UrlRecordV>, rec: UrlRecordV, code: Seq<char>)
    ensures
        lookup_url(urls.push(rec), code) == match lookup_url(urls, code) {
            Some(r) => Some(r),
            None => if rec.id == code {
                Some(rec)
            } else {
                None
            },
        },
    decreases urls.len(),
{
    if urls.len() == 0 {
        assert(urls.push(rec)[0] == rec);
        assert(urls.push(rec).drop_first() =~= Seq::<UrlRecordV>::empty());
        if rec.id == code {
            assert(lookup_url(urls.push(rec), code) == Some(rec));
        } else {
            assert(lookup_url(Seq::<UrlRecordV>::empty(), code) is None);
            assert(lookup_url(urls.push(rec), code) is None);
        }
    } else {
        assert(urls.push(rec)[0] == urls[0]);
        if urls[0].id == code {
            assert(lookup_url(urls.push(rec), code) == Some(urls[0]));
            assert(lookup_url(urls, code) == Some(urls[0]));
        } else {
            lemma_lookup_push(urls.drop_first(), rec, code);
            assert(urls.push(rec).drop_first() =~= urls.drop_first().push(rec));
            assert(lookup_url(urls.push(rec), code) == lookup_url(
                urls.drop_first().push(rec),
                code,
            ));
        }
    }
}

impl Store {
    /// The store's internal invariant: codes are unique.
    pub open spec fn wf(&self) -> bool {
        urls_wf(self@.urls)
    }

    /// An empty store: no mappings, no visits.
    pub fn new() -> (s: Store)
        ensures
            s@.urls == Seq::<UrlRecordV>::empty(),
            s@.visits == Seq::<VisitEventV>::empty(),
            s.wf(),
    {
        let s = Store { urls: Vec::new(), visits: Vec::new() };
        proof {
            assert(s@.urls =~= Seq::<UrlRecordV>::empty());
            assert(s@.visits =~= Seq::<VisitEventV>::empty());
        }
        s
    }

    /// Exact-key existence check for a code.
    pub fn contains_code(&self, code: &String) -> (r: bool)
        ensures
            r == has_code(self@.urls, code@),
    {
        let mut i: usize = 0;
        while i < self.urls.len()
            invariant
                i <= self.urls.len(),
                forall|j: int| 0 <= j < i ==> (#[trigger] self@.urls[j]).id != code@,
            decreases self.urls.len() - i,
        {
            if self.urls[i].id == *code {
                proof {
                    lemma_lookup_skip(self@.urls, code@, i as int);
                    assert(self@.urls.skip(i as int)[0] == self@.urls[i as int]);
                }
                return true;
            }
            i += 1;
        }
        proof {
            lemma_lookup_skip(self@.urls, code@, i as int);
            assert(self@.urls.skip(i as int).len() == 0);
        }
        false
    }

    /// Fetch the mapping for a code, if any.
    pub fn find_url(&self, code: &String) -> (r: Option<&UrlRecord>)
        ensures
            match r {
                Some(rec) => lookup_url(self@.urls, code@) == Some(rec@),
                None => lookup_url(self@.urls, code@) is None,
            },
    {
        let mut i: usize = 0;
        while i < self.urls.len()
            invariant
                i <= self.urls.len(),
                forall|j: int| 0 <= j < i ==> (#[trigger] self@.urls[j]).id != code@,
            decreases self.urls.len() - i,
        {
            if self.urls[i].id == *code {
                proof {
                    lemma_lookup_skip(self@.urls, code@, i as int);
                    assert(self@.urls.skip(i as int)[0] == self@.urls[i as int]);
                }
                return Some(&self.urls[i]);
            }
            i += 1;
        }
        proof {
            lemma_lookup_skip(self@.urls, code@, i as int);
            assert(self@.urls.skip(i as int).len() == 0);
        }
        None
    }

    /// Insert a new mapping, or refuse it if its code is already taken.
    ///
    /// This single operation is the uniqueness gate: it both checks and
    /// commits, so no separate existence check needs to be trusted.
    pub fn insert_url(&mut self, rec: UrlRecord) -> (r: bool)
        requires
            old(self).wf(),
        ensures
            final(self).wf(),
            r == !has_code(old(self)@.urls, rec@.id),
            r ==> final(self)@.urls == old(self)@.urls.push(rec@),
            !r ==> final(self)@ == old(self)@,
            final(self)@.visits == old(self)@.visits,
    {
        if self.contains_code(&rec.id) {
            return false;
        }
        proof {
            lemma_lookup_props(self@.urls, rec@.id);
        }
        let ghost pre = self@.urls;
        self.urls.push(rec);
        proof {
            assert(self@.urls =~= pre.push(rec@));
            assert forall|i: int, j: int|
                0 <= i < j < self@.urls.len() implies (#[trigger] self@.urls[i]).id
                != (#[trigger] self@.urls[j]).id by {
                if j < pre.len() {
                    assert(pre[i].id != pre[j].id);
                }
            }
        }
        true
    }

    /// Append one visit event to the log.
    pub fn record_visit(&mut self, ev: VisitEvent)
        ensures
            final(self)@.urls == old(self)@.urls,
            final(self)@.visits == old(self)@.visits.push(ev@),
            old(self).wf() ==> final(self).wf(),
    {
        let ghost pre = self@.visits;
        let ghost pre_urls = self@.urls;
        self.visits.push(ev);
        proof {
            assert(self@.visits =~= pre.push(ev@));
            assert(self@.urls =~= pre_urls);
        }
    }
}

} // verus!
