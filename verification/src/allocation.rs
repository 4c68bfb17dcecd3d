//! The allocation service: commit a new mapping under a unique short code.
//!
//! A custom code is inserted as supplied and refused on conflict. Without
//! one, generated candidates are tried in order; insertion itself is the
//! uniqueness gate, and the retry budget caps how many colliding
//! candidates are tolerated before the allocation is given up.

use vstd::prelude::*;

use crate::codegen::{code_chars_ok, generate};
use crate::error::AppError;
use crate::models::{opt_i64_view, CreateUrlRequest, UrlRecord, UrlResponse};
use crate::store::{has_code, Store, StoreV};
use crate::validate::{request_wf, validate_request};

verus! {

/// How many candidate codes an allocation may try before giving up.
pub const MAX_CODE_ATTEMPTS: usize = 11;

/// Length of a generated short code.
pub const GENERATED_CODE_LEN: usize = 6;

/// Copy a mapping field by field.
fn clone_record(rec: &UrlRecord) -> (r: UrlRecord)
    ensures
        r@ == rec@,
{
    UrlRecord {
        id: rec.id.clone(),
        original_url: rec.original_url.clone(),
        created_at: rec.created_at,
        expires_at: rec.expires_at,
    }
}

/// Try the supplied candidate codes in order and commit the first one that
/// is free; at most [`MAX_CODE_ATTEMPTS`] candidates are considered. The
/// chosen code is exactly the first free candidate; when every considered
/// candidate collides, the allocation is exhausted and the store is left
/// unchanged.
pub fn allocate_from_candidates(
    store: &mut Store,
    url: &String,
    expires_at: Option<i64>,
    candidates: &Vec<String>,
    now: i64,
) -> (r: Result<UrlRecord, AppError>)
    requires
        old(store).wf(),
    ensures
        final(store).wf(),
        final(store)@.visits == old(store)@.visits,
        match r {
            Ok(rec) => {
                &&& exists|k: int|
                    {
                        &&& 0 <= k < candidates@.len()
                        &&& k < MAX_CODE_ATTEMPTS
                        &&& rec@.id == (#[trigger] candidates@[k])@
                        &&& !has_code(old(store)@.urls, candidates@[k]@)
                        &&& forall|j: int|
                            0 <= j < k ==> has_code(old(store)@.urls, (#[trigger] candidates@[j])@)
                    }
                &&& rec@.original_url == url@
                &&& rec@.created_at == now as int
                &&& rec@.expires_at == opt_i64_view(expires_at)
                &&& final(store)@.urls == old(store)@.urls.push(rec@)
            },
            Err(e) => {
                &&& e matches AppError::AllocationExhausted
                &&& final(store)@ == old(store)@
                &&& forall|j: int|
                    0 <= j < candidates@.len() && j < MAX_CODE_ATTEMPTS ==> has_code(
                        old(store)@.urls,
                        (#[trigger] candidates@[j])@,
                    )
            },
        },
{
    let mut i: usize = 0;
    let bound = if candidates.len() < MAX_CODE_ATTEMPTS {
        candidates.len()
    } else {
        MAX_CODE_ATTEMPTS
    };
    while i < bound
        invariant
            old(store).wf(),
            store.wf(),
            i <= bound,
            bound <= candidates@.len(),
            bound <= MAX_CODE_ATTEMPTS,
            candidates@.len() < MAX_CODE_ATTEMPTS ==> bound == candidates@.len(),
            MAX_CODE_ATTEMPTS <= candidates@.len() ==> bound == MAX_CODE_ATTEMPTS,
            store@ == old(store)@,
            forall|j: int| 0 <= j < i ==> has_code(store@.urls, (#[trigger] candidates@[j])@),
        decreases bound - i,
    {
        let candidate = &candidates[i];
        let rec = UrlRecord {
            id: candidate.clone(),
            original_url: url.clone(),
            created_at: now,
            expires_at,
        };
        let result = clone_record(&rec);
        if store.insert_url(rec) {
            proof {
                let k = i as int;
                assert(result@.id == candidates@[k]@);
            }
            return Ok(result);
        }
        i += 1;
    }
    Err(AppError::AllocationExhausted)
}

/// What an allocation leaves behind and returns, for a request with the
/// given URL, optional custom code and optional expiration, served at time
/// `now`. An invalid request is refused unchanged; a taken custom code
/// conflicts; otherwise exactly one fresh mapping is appended, under the
/// custom code as supplied, or under a generated six-character code from
/// the alphabet that was free before the call — unless the retry budget
/// was exhausted.
pub open spec fn allocate_post(
    pre: StoreV,
    post: StoreV,
    url: Seq<char>,
    custom: Option<Seq<char>>,
    expires: Option<int>,
    now: int,
    r: Result<UrlRecord, AppError>,
) -> bool {
    &&& post.visits == pre.visits
    &&& if !request_wf(url, custom) {
        (r matches Err(AppError::InvalidUrl)) && post == pre
    } else {
        match custom {
            Some(c) => if has_code(pre.urls, c) {
                (r matches Err(AppError::CodeAlreadyExists)) && post == pre
            } else {
                r matches Ok(rec) && {
                    &&& rec@.id == c
                    &&& rec@.original_url == url
                    &&& rec@.created_at == now
                    &&& rec@.expires_at == expires
                    &&& post.urls == pre.urls.push(rec@)
                }
            },
            None => match r {
                Ok(rec) => {
                    &&& rec@.id.len() == GENERATED_CODE_LEN
                    &&& code_chars_ok(rec@.id)
                    &&& !has_code(pre.urls, rec@.id)
                    &&& rec@.original_url == url
                    &&& rec@.created_at == now
                    &&& rec@.expires_at == expires
                    &&& post.urls == pre.urls.push(rec@)
                },
                Err(e) => {
                    &&& e matches AppError::AllocationExhausted
                    &&& post == pre
                },
            },
        }
    }
}

/// Allocate a mapping for `req`, at time `now`.
///
/// An invalid request is refused. A supplied custom code is committed
/// exactly as given, or refused when already taken. Otherwise freshly
/// generated six-character candidates are tried, within the retry budget.
pub fn allocate(store: &mut Store, req: &CreateUrlRequest, now: i64) -> (r: Result<
    UrlRecord,
    AppError,
>)
    requires
        old(store).wf(),
    ensures
        final(store).wf(),
        allocate_post(
            old(store)@,
            final(store)@,
            req.url@,
            req.custom_code.deep_view(),
            opt_i64_view(req.expires_at),
            now as int,
            r,
        ),
{
    if !validate_request(req) {
        return Err(AppError::InvalidUrl);
    }
    match &req.custom_code {
        Some(custom) => {
            let rec = UrlRecord {
                id: custom.clone(),
                original_url: req.url.clone(),
                created_at: now,
                expires_at: req.expires_at,
            };
            let result = clone_record(&rec);
            if store.insert_url(rec) {
                Ok(result)
            } else {
                Err(AppError::CodeAlreadyExists)
            }
        },
        None => {
            let mut candidates: Vec<String> = Vec::new();
            let mut i: usize = 0;
            while i < MAX_CODE_ATTEMPTS
                invariant
                    i <= MAX_CODE_ATTEMPTS,
                    candidates@.len() == i,
                    forall|j: int|
                        0 <= j < i ==> (#[trigger] candidates@[j])@.len() == GENERATED_CODE_LEN
                            && code_chars_ok(candidates@[j]@),
                decreases MAX_CODE_ATTEMPTS - i,
            {
                let candidate = generate(GENERATED_CODE_LEN);
                candidates.push(candidate);
                i += 1;
            }
            allocate_from_candidates(store, &req.url, req.expires_at, &candidates, now)
        },
    }
}

/// Build the boundary response for a fresh mapping: the constructed short
/// URL is `{base_url}/{code}`.
pub fn build_response(rec: &UrlRecord, base_url: &String) -> (r: UrlResponse)
    ensures
        r.short_code@ == rec@.id,
        r.original_url@ == rec@.original_url,
        r.short_url@ == short_url_of(base_url@, rec@.id),
        opt_i64_view(r.expires_at) == rec@.expires_at,
{
    UrlResponse {
        short_code: rec.id.clone(),
        original_url: rec.original_url.clone(),
        short_url: base_url.clone().concat("/").concat(rec.id.as_str()),
        expires_at: rec.expires_at,
    }
}

/// The constructed short URL for a code: the base, one slash, the code.
pub open spec fn short_url_of(base: Seq<char>, code: Seq<char>) -> Seq<char> {
    base + "/"@ + code
}

} // verus!
