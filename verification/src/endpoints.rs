//! The endpoints whose answer does not depend on the request.

use crate::envelope::{ApiResponse, EnvelopeView, HealthResponse, HealthView};
use vstd::prelude::*;

verus! {

/// The body of the liveness answer.
pub open spec fn health_body() -> HealthView {
    HealthView { status: "ok"@, message: "API is running"@ }
}

/// The greeting served at the root.
pub open spec fn welcome_text() -> Seq<char> {
    "Welcome to Gliner RS API"@
}

/// The version of the API.
pub open spec fn version_text() -> Seq<char> {
    "0.1.0"@
}

/// Liveness: always the same body.
pub fn health_check() -> (r: HealthResponse)
    ensures
        r@ == health_body(),
{
    HealthResponse { status: "ok".to_owned(), message: "API is running".to_owned() }
}

/// The root: a success envelope around the greeting.
pub fn index() -> (r: ApiResponse<String>)
    ensures
        r@ == EnvelopeView::accepted(welcome_text()),
{
    ApiResponse::ok("Welcome to Gliner RS API".to_owned())
}

/// The version: a success envelope around the version string.
pub fn version() -> (r: ApiResponse<String>)
    ensures
        r@ == EnvelopeView::accepted(version_text()),
{
    ApiResponse::ok("0.1.0".to_owned())
}

} // verus!
