//! Request validation: URL syntax and custom-code length.

use vstd::prelude::*;

use crate::models::CreateUrlRequest;

verus! {

/// Whether the URL validator accepts `s` as a well-formed URL.
/// The result depends on the characters alone.
pub uninterp spec fn url_ok(s: Seq<char>) -> bool;

/// Relies on validator::ValidateUrl::validate_url for `String`: it parses
/// the string as a URL and reports success, a function of the characters
/// alone.
#[verifier::external_body]
fn check_url(s: &String) -> (r: bool)
    ensures
        r == url_ok(s@),
{
    validator::ValidateUrl::validate_url(s)
}

/// A custom code must be 3 to 20 characters long.
pub open spec fn custom_code_len_ok(c: Seq<char>) -> bool {
    3 <= c.len() <= 20
}

/// A creation request is well-formed when its URL is accepted by the
/// validator and its custom code, if any, has an admissible length.
pub open spec fn request_wf(url: Seq<char>, custom: Option<Seq<char>>) -> bool {
    &&& url_ok(url)
    &&& match custom {
        Some(c) => custom_code_len_ok(c),
        None => true,
    }
}

/// Check a creation request against [`request_wf`].
pub fn validate_request(req: &CreateUrlRequest) -> (r: bool)
    ensures
        r == request_wf(req.url@, req.custom_code.deep_view()),
{
    if !check_url(&req.url) {
        return false;
    }
    match &req.custom_code {
        Some(c) => {
            let n = c.as_str().unicode_len();
            3 <= n && n <= 20
        },
        None => true,
    }
}

} // verus!
