//! The route table: which method and path reach which endpoint.

use crate::endpoints::{health_body, health_check, index, version, version_text, welcome_text};
use crate::envelope::{ApiResponse, EnvelopeView, HealthResponse, HealthView};
use vstd::prelude::*;

verus! {

/// The request methods that the table tells apart.
#[derive(Debug, Clone, Copy, PartialEq, Eq, Structural)]
pub enum Method {
    Get,
    Post,
    /// Any other method; no route takes it.
    Other,
}

/// The endpoints of the service.
#[derive(Debug, Clone, Copy, PartialEq, Eq, Structural)]
pub enum Endpoint {
    Index,
    Health,
    Version,
    DetectPii,
}

/// The method that an endpoint takes.
pub open spec fn method_of(endpoint: Endpoint) -> Method {
    match endpoint {
        Endpoint::Index => Method::Get,
        Endpoint::Health => Method::Get,
        Endpoint::Version => Method::Get,
        Endpoint::DetectPii => Method::Post,
    }
}

/// The path at which an endpoint is mounted.
pub open spec fn path_of(endpoint: Endpoint) -> Seq<char> {
    match endpoint {
        Endpoint::Index => "/"@,
        Endpoint::Health => "/health"@,
        Endpoint::Version => "/api/version"@,
        Endpoint::DetectPii => "/api/pii/detect"@,
    }
}

/// Whether a request with this method and path reaches `endpoint`.
pub open spec fn reaches(method: Method, path: Seq<char>, endpoint: Endpoint) -> bool {
    method == method_of(endpoint) && path == path_of(endpoint)
}

/// The endpoint that a method and path reach, if there is one.
pub open spec fn route_of(method: Method, path: Seq<char>) -> Option<Endpoint> {
    if reaches(method, path, Endpoint::Index) {
        Some(Endpoint::Index)
    } else if reaches(method, path, Endpoint::Health) {
        Some(Endpoint::Health)
    } else if reaches(method, path, Endpoint::Version) {
        Some(Endpoint::Version)
    } else if reaches(method, path, Endpoint::DetectPii) {
        Some(Endpoint::DetectPii)
    } else {
        None
    }
}

/// Tells whether two texts are the same.
fn same_text(a: &str, b: &str) -> (r: bool)
    ensures
        r == (a@ == b@),
{
    a.to_owned() == b.to_owned()
}

/// Looks a request up in the route table. `None` is the transport-level
/// not-found: an unknown path, or a known path under another method.
pub fn resolve(method: Method, path: &str) -> (r: Option<Endpoint>)
    ensures
        r == route_of(method, path@),
{
    match method {
        Method::Get => {
            if same_text(path, "/") {
                Some(Endpoint::Index)
            } else if same_text(path, "/health") {
                Some(Endpoint::Health)
            } else if same_text(path, "/api/version") {
                Some(Endpoint::Version)
            } else {
                None
            }
        },
        Method::Post => {
            if same_text(path, "/api/pii/detect") {
                Some(Endpoint::DetectPii)
            } else {
                None
            }
        },
        Method::Other => None,
    }
}

/// The table sends a request to an endpoint exactly if the request has the
/// endpoint's method and path: no two endpoints share both.
pub proof fn lemma_route_table(method: Method, path: Seq<char>, endpoint: Endpoint)
    ensures
        route_of(method, path) == Some(endpoint) <==> reaches(method, path, endpoint),
{
    reveal_strlit("/");
    reveal_strlit("/health");
    reveal_strlit("/api/version");
    reveal_strlit("/api/pii/detect");
    assert("/"@.len() == 1);
    assert("/health"@.len() == 7);
    assert("/api/version"@.len() == 12);
    assert("/api/pii/detect"@.len() == 15);
}

/// The answer of an endpoint that needs nothing from the request.
#[derive(Debug)]
pub enum StaticReply {
    Health(HealthResponse),
    Envelope(ApiResponse<String>),
}

/// Mathematical value of a [`StaticReply`].
pub ghost enum StaticReplyView {
    Health(HealthView),
    Envelope(EnvelopeView<Seq<char>>),
}

impl View for StaticReply {
    type V = StaticReplyView;

    open spec fn view(&self) -> StaticReplyView {
        match self {
            StaticReply::Health(body) => StaticReplyView::Health(body@),
            StaticReply::Envelope(envelope) => StaticReplyView::Envelope(envelope@),
        }
    }
}

/// The fixed answer of an endpoint; detection has none.
pub open spec fn static_reply_of(endpoint: Endpoint) -> Option<StaticReplyView> {
    match endpoint {
        Endpoint::Index => Some(StaticReplyView::Envelope(EnvelopeView::accepted(welcome_text()))),
        Endpoint::Health => Some(StaticReplyView::Health(health_body())),
        Endpoint::Version => Some(StaticReplyView::Envelope(EnvelopeView::accepted(version_text()))),
        Endpoint::DetectPii => None,
    }
}

/// Answers an endpoint that needs nothing from the request. Detection gets
/// `None`: its answer comes out of the detection machine.
pub fn serve_static(endpoint: Endpoint) -> (r: Option<StaticReply>)
    ensures
        match r {
            Some(reply) => static_reply_of(endpoint) == Some(reply@),
            None => static_reply_of(endpoint) is None,
        },
{
    match endpoint {
        Endpoint::Index => Some(StaticReply::Envelope(index())),
        Endpoint::Health => Some(StaticReply::Health(health_check())),
        Endpoint::Version => Some(StaticReply::Envelope(version())),
        Endpoint::DetectPii => None,
    }
}

} // verus!
