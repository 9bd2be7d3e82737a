//! The route that reports the server's health.

use crate::json::{json_model, JsonValue, JsonView};
use crate::modules::openai::{
    spec_completion_request, ChatMessage, ChatMessageView, CompletionRequest,
    CompletionRequestView, OpenAIService,
};
use crate::response::{make_query_response, QueryResponseView};
use crate::routes::{RouteReply, RouteReplyView, STATUS_OK};
use vstd::prelude::*;

verus! {

/// The model that the health check asks.
pub const HEALTH_MODEL: &'static str = "gpt-4o";

/// The instruction of the health check.
pub const HEALTH_INSTRUCTION: &'static str =
    "\n                You are a fake health check endpoint. You make fake data. You respond with strictly json data only.\n                ";

/// The question of the health check.
pub const HEALTH_QUESTION: &'static str = "What is the status of the server?";

/// The data of a health report.
pub const HEALTH_DATA: &'static str = "Endpoints are healthy!";

/// What is said with a health report.
pub const HEALTH_MESSAGE: &'static str = "Server is healthy!";

/// The question that the health check puts to the provider, whose answer has
/// to follow `schema`.
pub open spec fn spec_health_request(schema: JsonView) -> CompletionRequestView {
    spec_completion_request(
        HEALTH_MODEL@,
        seq![
            ChatMessageView::System { content: HEALTH_INSTRUCTION@ },
            ChatMessageView::User { content: HEALTH_QUESTION@ },
        ],
        Some(schema),
    )
}

/// The health report. It does not depend on what the provider answered.
pub open spec fn spec_health_reply() -> RouteReplyView {
    RouteReplyView {
        status: STATUS_OK,
        body: QueryResponseView {
            success: true,
            data: Some(HEALTH_DATA@),
            error: None,
            message: Some(HEALTH_MESSAGE@),
        },
    }
}

/// The question that the health check puts to the provider.
pub fn health_request(schema: JsonValue) -> (r: CompletionRequest)
    ensures
        r.deep_view() == spec_health_request(json_model(schema)),
{
    let mut messages: Vec<ChatMessage> = Vec::new();
    messages.push(ChatMessage::system(HEALTH_INSTRUCTION));
    messages.push(ChatMessage::user(HEALTH_QUESTION));
    assert(messages.deep_view() =~= seq![
        ChatMessageView::System { content: HEALTH_INSTRUCTION@ },
        ChatMessageView::User { content: HEALTH_QUESTION@ },
    ]);
    OpenAIService::completion_request(HEALTH_MODEL, messages, Some(schema))
}

/// The health report.
pub fn health_reply() -> (r: RouteReply)
    ensures
        r.deep_view() == spec_health_reply(),
{
    RouteReply {
        status: STATUS_OK,
        body: make_query_response(true, Some(HEALTH_DATA), None, Some(HEALTH_MESSAGE)),
    }
}

} // verus!
