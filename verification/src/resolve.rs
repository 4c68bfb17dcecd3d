//! The redirect resolver: look a code up, apply the expiration policy,
//! record the visit, and hand back the redirect target.
//!
//! Client metadata extraction is a pure function of the forwarded-for
//! header and is kept separate from the recording side effect.

use vstd::prelude::*;

use crate::error::AppError;
use crate::models::{expired, opt_str_view, VisitEvent, VisitEventV};
use crate::store::{lookup_url, Store, StoreV};

verus! {

/// Whitespace stripped around a forwarded-for entry: spaces and tabs, the
/// only padding a header value can carry.
pub open spec fn is_sep_ws(c: char) -> bool {
    c == ' ' || c == '\t'
}

/// `s` with its leading whitespace removed.
pub open spec fn trim_start_spec(s: Seq<char>) -> Seq<char>
    decreases s.len(),
{
    if s.len() > 0 && is_sep_ws(s[0]) {
        trim_start_spec(s.drop_first())
    } else {
        s
    }
}

/// `s` with its trailing whitespace removed.
pub open spec fn trim_end_spec(s: Seq<char>) -> Seq<char>
    decreases s.len(),
{
    if s.len() > 0 && is_sep_ws(s.last()) {
        trim_end_spec(s.drop_last())
    } else {
        s
    }
}

/// `s` with whitespace removed at both ends.
pub open spec fn trim_spec(s: Seq<char>) -> Seq<char> {
    trim_end_spec(trim_start_spec(s))
}

/// The prefix of `s` before its first comma; all of `s` when it has none.
pub open spec fn before_comma(s: Seq<char>) -> Seq<char>
    decreases s.len(),
{
    if s.len() == 0 {
        Seq::empty()
    } else if s[0] == ',' {
        Seq::empty()
    } else {
        seq![s[0]] + before_comma(s.drop_first())
    }
}

/// The best-effort client origin taken from a forwarded-for header: the
/// first comma-separated entry, trimmed; a sentinel when the header is
/// absent.
pub open spec fn client_ip_spec(header: Option<Seq<char>>) -> Seq<char> {
    match header {
        Some(s) => trim_spec(before_comma(s)),
        None => "unknown"@,
    }
}

/// When the first `k` characters hold no comma and position `k` is a comma
/// or the end, the prefix before the first comma is exactly `s.take(k)`.
proof fn lemma_before_comma(s: Seq<char>, k: int)
    requires
        0 <= k <= s.len(),
        forall|j: int| 0 <= j < k ==> s[j] != ',',
        k == s.len() || s[k] == ',',
    ensures
        before_comma(s) == s.take(k),
    decreases k,
{
    if k == 0 {
        assert(s.take(0) =~= Seq::<char>::empty());
    } else {
        lemma_before_comma(s.drop_first(), k - 1);
        assert(s.drop_first().take(k - 1) =~= s.take(k).drop_first());
        assert(seq![s[0]] + s.take(k).drop_first() =~= s.take(k));
    }
}

/// When the first `a` characters are whitespace and the next one is not,
/// trimming the start removes exactly those `a` characters.
proof fn lemma_trim_start(s: Seq<char>, a: int)
    requires
        0 <= a <= s.len(),
        forall|j: int| 0 <= j < a ==> is_sep_ws(s[j]),
        a == s.len() || !is_sep_ws(s[a]),
    ensures
        trim_start_spec(s) == s.skip(a),
    decreases a,
{
    if a == 0 {
        assert(s.skip(0) =~= s);
    } else {
        lemma_trim_start(s.drop_first(), a - 1);
        assert(s.drop_first().skip(a - 1) =~= s.skip(a));
    }
}

/// When everything from position `b` on is whitespace and the character
/// before it is not, trimming the end keeps exactly `s.take(b)`.
proof fn lemma_trim_end(s: Seq<char>, b: int)
    requires
        0 <= b <= s.len(),
        forall|j: int| b <= j < s.len() ==> is_sep_ws(s[j]),
        b == 0 || !is_sep_ws(s[b - 1]),
    ensures
        trim_end_spec(s) == s.take(b),
    decreases s.len(),
{
    if b == s.len() {
        if s.len() > 0 {
            assert(!is_sep_ws(s.last()));
        }
        assert(s.take(b) =~= s);
    } else {
        assert(is_sep_ws(s.last()));
        lemma_trim_end(s.drop_last(), b);
        assert(s.drop_last().take(b) =~= s.take(b));
    }
}

/// Extract the best-effort client origin from an optional forwarded-for
/// header value.
pub fn client_ip(header: Option<&String>) -> (r: String)
    ensures
        r@ == client_ip_spec(opt_str_view(header)),
{
    let h = match header {
        Some(h) => h,
        None => {
            return "unknown".to_owned();
        },
    };
    let s = h.as_str();
    let n = s.unicode_len();

    // the first comma, or the end
    let mut k: usize = 0;
    while k < n
        invariant
            k <= n,
            n == s@.len(),
            forall|j: int| 0 <= j < k ==> s@[j] != ',',
        ensures
            k <= n,
            forall|j: int| 0 <= j < k ==> s@[j] != ',',
            k == n || s@[k as int] == ',',
        decreases n - k,
    {
        let c = s.get_char(k);
        if c == ',' {
            break ;
        }
        k += 1;
    }
    proof {
        lemma_before_comma(s@, k as int);
    }

    // strip leading whitespace of the entry
    let mut a: usize = 0;
    while a < k
        invariant
            a <= k <= n,
            n == s@.len(),
            forall|j: int| 0 <= j < a ==> is_sep_ws(s@[j]),
        ensures
            a <= k,
            forall|j: int| 0 <= j < a ==> is_sep_ws(s@[j]),
            a == k || !is_sep_ws(s@[a as int]),
        decreases k - a,
    {
        let c = s.get_char(a);
        if c == ' ' || c == '\t' {
            a += 1;
        } else {
            break ;
        }
    }

    // strip trailing whitespace of the entry
    let mut b: usize = k;
    while a < b
        invariant
            a <= b <= k <= n,
            n == s@.len(),
            forall|j: int| b <= j < k ==> is_sep_ws(s@[j]),
        ensures
            a <= b <= k,
            forall|j: int| b <= j < k ==> is_sep_ws(s@[j]),
            b == a || !is_sep_ws(s@[b as int - 1]),
        decreases b,
    {
        let c = s.get_char(b - 1);
        if c == ' ' || c == '\t' {
            b -= 1;
        } else {
            break ;
        }
    }

    let entry = s.substring_char(a, b);
    proof {
        let seg = s@.take(k as int);
        lemma_trim_start(seg, a as int);
        let started = seg.skip(a as int);
        assert forall|j: int| (b - a) <= j < started.len() implies is_sep_ws(
            #[trigger] started[j],
        ) by {
            assert(started[j] == s@[j + a]);
        }
        if b > a {
            assert(started[b - a - 1] == s@[b as int - 1]);
        }
        lemma_trim_end(started, b - a);
        assert(started.take(b - a) =~= s@.subrange(a as int, b as int));
    }
    entry.to_owned()
}

/// What a resolution leaves behind and returns: an absent or expired code
/// is not found and changes nothing; otherwise the target URL comes back
/// and exactly one visit event, carrying the extracted client metadata
/// and the lookup time, is appended.
pub open spec fn resolve_post(
    pre: StoreV,
    post: StoreV,
    code: Seq<char>,
    now: int,
    fwd: Option<Seq<char>>,
    ua: Option<Seq<char>>,
    r: Result<String, AppError>,
) -> bool {
    match lookup_url(pre.urls, code) {
        None => (r matches Err(AppError::UrlNotFound)) && post == pre,
        Some(rec) => if expired(rec, now) {
            (r matches Err(AppError::UrlNotFound)) && post == pre
        } else {
            &&& r matches Ok(u) && u@ == rec.original_url
            &&& post.urls == pre.urls
            &&& post.visits == pre.visits.push(
                VisitEventV {
                    url_code: code,
                    ip_address: Some(client_ip_spec(fwd)),
                    user_agent: ua,
                    visited_at: now,
                },
            )
        },
    }
}

/// Resolve a short code at time `now`: return its target URL for a
/// temporary redirect, or refuse the lookup. A successful resolution
/// records one visit event; an absent and an expired code are
/// indistinguishable to the caller.
pub fn resolve(
    store: &mut Store,
    code: &String,
    now: i64,
    forwarded_for: Option<&String>,
    user_agent: Option<&String>,
) -> (r: Result<String, AppError>)
    requires
        old(store).wf(),
    ensures
        final(store).wf(),
        resolve_post(
            old(store)@,
            final(store)@,
            code@,
            now as int,
            opt_str_view(forwarded_for),
            opt_str_view(user_agent),
            r,
        ),
{
    let target: String;
    match store.find_url(code) {
        None => {
            return Err(AppError::UrlNotFound);
        },
        Some(rec) => {
            if let Some(t) = rec.expires_at {
                if t < now {
                    return Err(AppError::UrlNotFound);
                }
            }
            target = rec.original_url.clone();
        },
    }
    let ip = client_ip(forwarded_for);
    let ua = match user_agent {
        Some(u) => Some(u.clone()),
        None => None,
    };
    let ev = VisitEvent { url_code: code.clone(), ip_address: Some(ip), user_agent: ua, visited_at: now };
    store.record_visit(ev);
    Ok(target)
}

} // verus!
