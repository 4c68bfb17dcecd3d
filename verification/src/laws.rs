//! Laws that relate the service's operations to one another, proved from
//! the same spec functions their contracts are stated over.

use vstd::prelude::*;

use crate::allocation::{allocate_post, GENERATED_CODE_LEN};
use crate::codegen::code_chars_ok;
use crate::error::AppError;
use crate::models::{expired, stats_of, StatsResponse, UrlRecord, UrlRecordV, VisitEventV, VisitStatsV};
use crate::resolve::resolve_post;
use crate::stats::{stats_post, visits_of, VISIT_WINDOW};
use crate::store::{has_code, lemma_lookup_push, lookup_url, StoreV};
use crate::validate::request_wf;

verus! {

/// Visit rows in non-decreasing timestamp order: oldest first.
pub open spec fn sorted_oldest_first(rows: Seq<VisitStatsV>) -> bool {
    forall|i: int, j: int|
        0 <= i < j < rows.len() ==> (#[trigger] rows[i]).visited_at
            <= (#[trigger] rows[j]).visited_at
}

/// Visit rows in non-increasing timestamp order: newest first.
pub open spec fn sorted_newest_first(rows: Seq<VisitStatsV>) -> bool {
    forall|i: int, j: int|
        0 <= i < j < rows.len() ==> (#[trigger] rows[i]).visited_at
            >= (#[trigger] rows[j]).visited_at
}

/// A successful allocation without a custom code hands out a code of six
/// characters from the alphabet, fresh before the call; resolving that
/// code before it expires returns exactly the URL that was submitted.
pub proof fn lemma_allocate_then_resolve(
    pre: StoreV,
    mid: StoreV,
    url: Seq<char>,
    expires: Option<int>,
    now: int,
    rec: UrlRecord,
    post: StoreV,
    now2: int,
    fwd: Option<Seq<char>>,
    ua: Option<Seq<char>>,
    r2: Result<String, AppError>,
)
    requires
        request_wf(url, None),
        allocate_post(pre, mid, url, None, expires, now, Ok(rec)),
        !expired(rec@, now2),
        resolve_post(mid, post, rec@.id, now2, fwd, ua, r2),
    ensures
        rec@.id.len() == GENERATED_CODE_LEN,
        code_chars_ok(rec@.id),
        !has_code(pre.urls, rec@.id),
        r2 matches Ok(u) && u@ == url,
{
    lemma_lookup_push(pre.urls, rec@, rec@.id);
    assert(lookup_url(mid.urls, rec@.id) == Some(rec@));
}

/// A custom code that is not yet present is allocated exactly as supplied;
/// a second allocation with the same custom code then fails with a
/// conflict and changes nothing.
pub proof fn lemma_custom_code_conflict(
    pre: StoreV,
    mid: StoreV,
    url: Seq<char>,
    c: Seq<char>,
    expires: Option<int>,
    now: int,
    r: Result<UrlRecord, AppError>,
    post: StoreV,
    url2: Seq<char>,
    expires2: Option<int>,
    now2: int,
    r2: Result<UrlRecord, AppError>,
)
    requires
        request_wf(url, Some(c)),
        request_wf(url2, Some(c)),
        !has_code(pre.urls, c),
        allocate_post(pre, mid, url, Some(c), expires, now, r),
        allocate_post(mid, post, url2, Some(c), expires2, now2, r2),
    ensures
        r matches Ok(rec) && rec@.id == c,
        r2 matches Err(AppError::CodeAlreadyExists),
        post == mid,
{
    let rec = r->Ok_0;
    lemma_lookup_push(pre.urls, rec@, c);
    assert(lookup_url(mid.urls, c) == Some(rec@));
}

/// Resolving an expired mapping fails as if the code were absent and
/// records nothing, while the statistics query still succeeds for it.
pub proof fn lemma_expired_code(
    s: StoreV,
    post: StoreV,
    code: Seq<char>,
    rec: UrlRecordV,
    t: int,
    now: int,
    fwd: Option<Seq<char>>,
    ua: Option<Seq<char>>,
    r: Result<String, AppError>,
    rs: Result<StatsResponse, AppError>,
)
    requires
        lookup_url(s.urls, code) == Some(rec),
        rec.expires_at == Some(t),
        t < now,
        resolve_post(s, post, code, now, fwd, ua, r),
        stats_post(s, code, rs),
    ensures
        r matches Err(AppError::UrlNotFound),
        post == s,
        rs matches Ok(resp) && resp.original_url@ == rec.original_url,
{
}

/// A code that was never allocated is not found, by the resolver and by
/// the statistics query alike, and resolving it records nothing.
pub proof fn lemma_unknown_code(
    s: StoreV,
    post: StoreV,
    code: Seq<char>,
    now: int,
    fwd: Option<Seq<char>>,
    ua: Option<Seq<char>>,
    r: Result<String, AppError>,
    rs: Result<StatsResponse, AppError>,
)
    requires
        lookup_url(s.urls, code) is None,
        resolve_post(s, post, code, now, fwd, ua, r),
        stats_post(s, code, rs),
    ensures
        r matches Err(AppError::UrlNotFound),
        rs matches Err(AppError::UrlNotFound),
        post == s,
{
}

/// Appending one visit event extends the rows reported for its own code by
/// exactly one, and leaves every other code's rows untouched.
pub proof fn lemma_visits_of_push(visits: Seq<VisitEventV>, ev: VisitEventV, code: Seq<char>)
    ensures
        visits_of(visits.push(ev), code) == if ev.url_code == code {
            visits_of(visits, code) + seq![stats_of(ev)]
        } else {
            visits_of(visits, code)
        },
{
    assert(visits.push(ev).drop_last() =~= visits);
    assert(visits.push(ev).last() == ev);
}

/// A successful resolution records exactly one visit for the resolved
/// code, carrying the lookup time, and records nothing for any other code.
pub proof fn lemma_resolve_records_one_visit(
    pre: StoreV,
    post: StoreV,
    code: Seq<char>,
    now: int,
    fwd: Option<Seq<char>>,
    ua: Option<Seq<char>>,
    r: Result<String, AppError>,
)
    requires
        resolve_post(pre, post, code, now, fwd, ua, r),
        r is Ok,
    ensures
        visits_of(post.visits, code).len() == visits_of(pre.visits, code).len() + 1,
        visits_of(post.visits, code).last().visited_at == now,
        forall|other: Seq<char>|
            other != code ==> #[trigger] visits_of(post.visits, other) == visits_of(
                pre.visits,
                other,
            ),
{
    let ev = VisitEventV {
        url_code: code,
        ip_address: Some(crate::resolve::client_ip_spec(fwd)),
        user_agent: ua,
        visited_at: now,
    };
    lemma_visits_of_push(pre.visits, ev, code);
    assert forall|other: Seq<char>| other != code implies #[trigger] visits_of(post.visits, other)
        == visits_of(pre.visits, other) by {
        lemma_visits_of_push(pre.visits, ev, other);
    }
}

/// The statistics query is idempotent: two queries on the same store agree
/// on success, on the total count, and on every reported row.
pub proof fn lemma_stats_idempotent(
    s: StoreV,
    code: Seq<char>,
    r1: Result<StatsResponse, AppError>,
    r2: Result<StatsResponse, AppError>,
)
    requires
        stats_post(s, code, r1),
        stats_post(s, code, r2),
    ensures
        r1 is Ok <==> r2 is Ok,
        r1 matches Ok(a) ==> r2 matches Ok(b) && {
            &&& a.url@ == b.url@
            &&& a.original_url@ == b.original_url@
            &&& a.total_visits == b.total_visits
            &&& a.visits.deep_view() == b.visits.deep_view()
        },
{
}

/// When the visits recorded for a code carry non-decreasing timestamps —
/// as recording over time produces — the statistics query reports them
/// newest first; the window holds all of them, or exactly the cap when
/// more were recorded, and the total counts every one of them.
pub proof fn lemma_visits_newest_first(
    s: StoreV,
    code: Seq<char>,
    rs: Result<StatsResponse, AppError>,
)
    requires
        lookup_url(s.urls, code) is Some,
        stats_post(s, code, rs),
        sorted_oldest_first(visits_of(s.visits, code)),
    ensures
        rs matches Ok(resp) && {
            let n = visits_of(s.visits, code).len();
            &&& resp.total_visits == n
            &&& resp.visits.deep_view().len() == if n <= VISIT_WINDOW {
                n as int
            } else {
                VISIT_WINDOW as int
            }
            &&& sorted_newest_first(resp.visits.deep_view())
        },
{
    let all = visits_of(s.visits, code);
    let n = all.len();
    let resp = rs->Ok_0;
    let rows = resp.visits.deep_view();
    assert forall|i: int, j: int|
        0 <= i < j < rows.len() implies (#[trigger] rows[i]).visited_at
        >= (#[trigger] rows[j]).visited_at by {
        assert(rows[i] == all.reverse()[i]);
        assert(rows[j] == all.reverse()[j]);
        assert(all.reverse()[i] == all[n - 1 - i]);
        assert(all.reverse()[j] == all[n - 1 - j]);
    }
}

} // verus!
