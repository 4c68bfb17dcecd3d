//! Entry points that serve requests at the current wall-clock time.

use vstd::prelude::*;

use crate::allocation::{allocate, allocate_post};
use crate::error::AppError;
use crate::models::{opt_i64_view, opt_str_view, CreateUrlRequest, UrlRecord};
use crate::resolve::{resolve, resolve_post};
use crate::store::Store;

verus! {

/// Relies on chrono::Utc::now and DateTime::timestamp_millis: the current
/// wall-clock time, in milliseconds since the Unix epoch.
#[verifier::external_body]
fn now_millis() -> i64 {
    chrono::Utc::now().timestamp_millis()
}

/// [`allocate`], with `now` read from the wall clock.
pub fn allocate_now(store: &mut Store, req: &CreateUrlRequest) -> (r: Result<UrlRecord, AppError>)
    requires
        old(store).wf(),
    ensures
        final(store).wf(),
        exists|now: int|
            allocate_post(
                old(store)@,
                final(store)@,
                req.url@,
                req.custom_code.deep_view(),
                opt_i64_view(req.expires_at),
                now,
                r,
            ),
{
    let now = now_millis();
    allocate(store, req, now)
}

/// [`resolve`], with `now` read from the wall clock.
pub fn resolve_now(
    store: &mut Store,
    code: &String,
    forwarded_for: Option<&String>,
    user_agent: Option<&String>,
) -> (r: Result<String, AppError>)
    requires
        old(store).wf(),
    ensures
        final(store).wf(),
        exists|now: int|
            resolve_post(
                old(store)@,
                final(store)@,
                code@,
                now,
                opt_str_view(forwarded_for),
                opt_str_view(user_agent),
                r,
            ),
{
    let now = now_millis();
    resolve(store, code, now, forwarded_for, user_agent)
}

} // verus!
