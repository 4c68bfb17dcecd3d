//! The statistics aggregator: a mapping's target, its full visit count,
//! and a bounded window of its most recent visits.
//!
//! Expiration is not checked here: statistics stay retrievable for
//! expired codes. The window is newest-first; among visits with equal
//! timestamps, the most recently recorded one comes first.

use vstd::prelude::*;

use crate::error::AppError;
use crate::models::{stats_of, StatsResponse, VisitEventV, VisitStats, VisitStatsV};
use crate::store::{lookup_url, Store, StoreV};

verus! {

/// How many recent visits one statistics response may carry.
pub const VISIT_WINDOW: usize = 100;

/// The visits recorded for `code`, in recording order, as statistics rows.
pub open spec fn visits_of(visits: Seq<VisitEventV>, code: Seq<char>) -> Seq<VisitStatsV>
    decreases visits.len(),
{
    if visits.len() == 0 {
        Seq::empty()
    } else if visits.last().url_code == code {
        visits_of(visits.drop_last(), code) + seq![stats_of(visits.last())]
    } else {
        visits_of(visits.drop_last(), code)
    }
}

/// The bounded window the aggregator reports: the visits for `code` in
/// reverse recording order, capped at [`VISIT_WINDOW`] entries.
pub open spec fn recent_visits(visits: Seq<VisitEventV>, code: Seq<char>) -> Seq<VisitStatsV> {
    let all = visits_of(visits, code).reverse();
    if all.len() <= VISIT_WINDOW {
        all
    } else {
        all.take(VISIT_WINDOW as int)
    }
}

/// Copy a statistics row field by field.
fn clone_stats(v: &VisitStats) -> (r: VisitStats)
    ensures
        r@ == v@,
{
    VisitStats {
        ip_address: match &v.ip_address {
            Some(s) => Some(s.clone()),
            None => None,
        },
        user_agent: match &v.user_agent {
            Some(s) => Some(s.clone()),
            None => None,
        },
        visited_at: v.visited_at,
    }
}

/// What the statistics query returns: not found for an absent code, and
/// otherwise — expired or not — the code, its target, the full visit
/// count, and the bounded recent-visit window.
pub open spec fn stats_post(s: StoreV, code: Seq<char>, r: Result<StatsResponse, AppError>) -> bool {
    match lookup_url(s.urls, code) {
        None => r matches Err(AppError::UrlNotFound),
        Some(rec) => r matches Ok(resp) && {
            &&& resp.url@ == code
            &&& resp.original_url@ == rec.original_url
            &&& resp.total_visits == visits_of(s.visits, code).len()
            &&& resp.visits.deep_view() == recent_visits(s.visits, code)
        },
    }
}

/// Aggregate statistics for a code: its target URL, the total number of
/// visits ever recorded for it, and up to [`VISIT_WINDOW`] most recent
/// visits, newest first. An absent code is not found; an expired one is
/// still reported.
pub fn get_stats(store: &Store, code: &String) -> (r: Result<StatsResponse, AppError>)
    ensures
        stats_post(store@, code@, r),
{
    let rec = match store.find_url(code) {
        None => {
            return Err(AppError::UrlNotFound);
        },
        Some(rec) => rec,
    };
    let original_url = rec.original_url.clone();

    // every visit for this code, in recording order
    let mut matched: Vec<VisitStats> = Vec::new();
    let mut i: usize = 0;
    while i < store.visits.len()
        invariant
            i <= store.visits.len(),
            matched.deep_view() == visits_of(store@.visits.take(i as int), code@),
            matched@.len() <= i,
        decreases store.visits.len() - i,
    {
        let ghost pre = matched.deep_view();
        let ev = &store.visits[i];
        if ev.url_code == *code {
            matched.push(
                VisitStats {
                    ip_address: match &ev.ip_address {
                        Some(s) => Some(s.clone()),
                        None => None,
                    },
                    user_agent: match &ev.user_agent {
                        Some(s) => Some(s.clone()),
                        None => None,
                    },
                    visited_at: ev.visited_at,
                },
            );
        }
        proof {
            let taken = store@.visits.take(i as int + 1);
            assert(taken.drop_last() =~= store@.visits.take(i as int));
            assert(taken.last() == store@.visits[i as int]);
            if store@.visits[i as int].url_code == code@ {
                assert(matched.deep_view() =~= pre + seq![stats_of(taken.last())]);
            }
        }
        i += 1;
    }
    proof {
        assert(store@.visits.take(store@.visits.len() as int) =~= store@.visits);
    }
    let ghost all = visits_of(store@.visits, code@);

    let total: u64 = matched.len() as u64;

    // the window, newest first
    let n = matched.len();
    let mut window: Vec<VisitStats> = Vec::new();
    let mut j: usize = n;
    while j > 0 && window.len() < VISIT_WINDOW
        invariant
            j <= n,
            n == all.len(),
            matched.deep_view() == all,
            window@.len() == n - j,
            window@.len() <= VISIT_WINDOW,
            window.deep_view() =~= all.subrange(j as int, n as int).reverse(),
        ensures
            j <= n,
            window@.len() == n - j,
            window.deep_view() =~= all.subrange(j as int, n as int).reverse(),
            j == 0 || window@.len() == VISIT_WINDOW,
        decreases j,
    {
        let ghost prewin = window.deep_view();
        j -= 1;
        window.push(clone_stats(&matched[j]));
        proof {
            let sub = all.subrange(j as int, n as int).reverse();
            assert forall|m: int| 0 <= m < sub.len() implies sub[m] == window.deep_view()[m] by {
                if m < prewin.len() {
                    assert(prewin[m] == all.subrange(j as int + 1, n as int).reverse()[m]);
                }
            }
        }
    }
    proof {
        let want = recent_visits(store@.visits, code@);
        if j == 0 {
            assert(all.subrange(0, n as int) =~= all);
            assert(window.deep_view() =~= all.reverse());
            assert(want =~= all.reverse());
        } else {
            assert(window@.len() == VISIT_WINDOW);
            let sub = all.subrange(j as int, n as int).reverse();
            assert forall|m: int| 0 <= m < VISIT_WINDOW implies sub[m] == all.reverse().take(
                VISIT_WINDOW as int,
            )[m] by {
                assert(sub[m] == all[n - 1 - m]);
                assert(all.reverse()[m] == all[n - 1 - m]);
            }
            assert(window.deep_view() =~= all.reverse().take(VISIT_WINDOW as int));
        }
    }

    Ok(
        StatsResponse {
            url: code.clone(),
            original_url,
            total_visits: total,
            visits: window,
        },
    )
}

} // verus!
