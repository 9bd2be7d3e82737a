//! The route that runs the choir.

use crate::response::{make_query_response, QueryResponseView};
use crate::routes::{RouteReply, RouteReplyView, STATUS_INTERNAL_ERROR, STATUS_OK};
use vstd::prelude::*;

verus! {

/// What is said with a final answer.
pub const ANSWER_MESSAGE: &'static str = "Model returned a valid response!";

/// What a caller learns of a failure inside: nothing of its cause.
pub const INTERNAL_ERROR: &'static str = "An internal error occurred.";

/// The answer of the route for the outcome of a run: the final answer as the
/// data of a success, or a failure that gives nothing away.
pub open spec fn spec_choir_reply(outcome: Result<Seq<char>, Seq<char>>) -> RouteReplyView {
    match outcome {
        Ok(answer) => RouteReplyView {
            status: STATUS_OK,
            body: QueryResponseView {
                success: true,
                data: Some(answer),
                error: None,
                message: Some(ANSWER_MESSAGE@),
            },
        },
        Err(_) => RouteReplyView {
            status: STATUS_INTERNAL_ERROR,
            body: QueryResponseView {
                success: false,
                data: None,
                error: Some(INTERNAL_ERROR@),
                message: None,
            },
        },
    }
}

/// Answers the caller once the run is over.
pub fn choir_reply(outcome: &Result<String, String>) -> (r: RouteReply)
    ensures
        r.deep_view() == spec_choir_reply(crate::modules::openai::text_outcome(*outcome)),
{
    match outcome {
        Ok(answer) => RouteReply {
            status: STATUS_OK,
            body: make_query_response(true, Some(answer.as_str()), None, Some(ANSWER_MESSAGE)),
        },
        Err(_) => RouteReply {
            status: STATUS_INTERNAL_ERROR,
            body: make_query_response(false, None, Some(INTERNAL_ERROR), None),
        },
    }
}

} // verus!
