pub mod choir;
pub mod health;

use crate::response::{QueryResponse, QueryResponseView};
use vstd::prelude::*;

verus! {

/// The request went through.
pub const STATUS_OK: u16 = 200;

/// The caller did not present the right credential.
pub const STATUS_UNAUTHORIZED: u16 = 401;

/// The request failed inside.
pub const STATUS_INTERNAL_ERROR: u16 = 500;

/// What a route answers: the status, and the envelope that is its body.
#[derive(Clone, Debug, PartialEq, Eq)]
pub struct RouteReply {
    pub status: u16,
    pub body: QueryResponse,
}

/// The model of a [`RouteReply`].
pub struct RouteReplyView {
    pub status: u16,
    pub body: QueryResponseView,
}

impl DeepView for RouteReply {
    type V = RouteReplyView;

    open spec fn deep_view(&self) -> RouteReplyView {
        RouteReplyView { status: self.status, body: self.body.deep_view() }
    }
}

/// The answer to a caller without the right credential.
pub open spec fn spec_rejection() -> RouteReplyView {
    RouteReplyView {
        status: STATUS_UNAUTHORIZED,
        body: crate::utils::webutils::spec_unauthorized(),
    }
}

/// The view of an optional reply.
pub open spec fn optional_reply(r: Option<RouteReply>) -> Option<RouteReplyView> {
    match r {
        Some(reply) => Some(reply.deep_view()),
        None => None,
    }
}

/// At the door of a route: `None` lets the request in, `Some` is the answer
/// that turns the caller away. A caller is let in where its bearer token is
/// the configured key.
pub fn guard(authorization: Option<&str>, cfg: Option<&crate::config::EnvConfig>) -> (r: Option<
    RouteReply,
>)
    ensures
        optional_reply(r) == match cfg {
            Some(c) => if crate::utils::webutils::spec_extract_api_key(
                crate::response::optional_text(authorization),
            ) == Some(c.api_key@) {
                None
            } else {
                Some(spec_rejection())
            },
            None => Some(spec_rejection()),
        },
{
    match crate::utils::webutils::WebUtils::require_api_key(authorization, cfg) {
        Some(body) => Some(RouteReply { status: STATUS_UNAUTHORIZED, body }),
        None => None,
    }
}

} // verus!
