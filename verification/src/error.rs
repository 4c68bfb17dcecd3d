//! The error taxonomy of the service core.

use vstd::prelude::*;

verus! {

/// Failures the core reports to its caller. The boundary layer alone
/// decides how each one is rendered on the wire.
#[derive(Debug)]
pub enum AppError {
    /// The persistence backend failed; the message is for internal
    /// diagnostics only and is never shown to a client verbatim.
    DatabaseError(String),
    /// The requested short code is absent, or expired at lookup time.
    UrlNotFound,
    /// The submitted URL or custom code failed validation.
    InvalidUrl,
    /// A mapping with the requested custom code already exists.
    CodeAlreadyExists,
    /// No unique generated code could be found within the retry budget.
    AllocationExhausted,
    /// An internal step (such as QR rendering) failed unexpectedly.
    InternalServerError(String),
}

} // verus!
