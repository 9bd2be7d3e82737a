//! What goes into a run of the choir, and what each agent gives back.

use crate::json::{json_model, parse, spec_parse, spec_text_member, text_member, JsonValue, JsonView};
use vstd::prelude::*;
use vstd::string::*;

verus! {

/// The text that stands in every field of the answer of an agent that
/// failed.
pub const AGENT_FAILURE: &'static str =
    "Agent failed while generating. Discount them from processing.";

/// What a caller asks of the choir: a question, and the shape that the
/// assessment has to follow where one is asked for.
#[derive(Debug, PartialEq, Eq)]
pub struct ChoirRequest {
    pub query: String,
    pub json_schema: Option<JsonValue>,
}

/// The model of a [`ChoirRequest`].
pub struct ChoirRequestView {
    pub query: Seq<char>,
    pub json_schema: Option<JsonView>,
}

impl DeepView for ChoirRequest {
    type V = ChoirRequestView;

    open spec fn deep_view(&self) -> ChoirRequestView {
        ChoirRequestView {
            query: self.query@,
            json_schema: match self.json_schema {
                Some(schema) => Some(json_model(schema)),
                None => None,
            },
        }
    }
}

/// The answer of one agent.
#[derive(Clone, Debug, PartialEq, Eq)]
pub struct ChoirAgentResponse {
    /// The agent's response in detail.
    pub detailed_response: String,
    /// A short overview of the response.
    pub short_overview: String,
    /// Thoughts on the response.
    pub thoughts: String,
}

/// The model of a [`ChoirAgentResponse`].
pub struct ChoirAgentResponseView {
    pub detailed_response: Seq<char>,
    pub short_overview: Seq<char>,
    pub thoughts: Seq<char>,
}

impl DeepView for ChoirAgentResponse {
    type V = ChoirAgentResponseView;

    open spec fn deep_view(&self) -> ChoirAgentResponseView {
        ChoirAgentResponseView {
            detailed_response: self.detailed_response@,
            short_overview: self.short_overview@,
            thoughts: self.thoughts@,
        }
    }
}

/// The answer that stands for an agent that failed.
pub open spec fn spec_empty() -> ChoirAgentResponseView {
    ChoirAgentResponseView {
        detailed_response: AGENT_FAILURE@,
        short_overview: AGENT_FAILURE@,
        thoughts: AGENT_FAILURE@,
    }
}

/// The answer that a JSON document holds: it is an object whose members
/// `detailed_response`, `short_overview` and `thoughts` are strings. Other
/// members are passed over.
pub open spec fn spec_from_json(document: JsonView) -> Option<ChoirAgentResponseView> {
    match (
        spec_text_member(document, "detailed_response"@),
        spec_text_member(document, "short_overview"@),
        spec_text_member(document, "thoughts"@),
    ) {
        (Some(detailed_response), Some(short_overview), Some(thoughts)) => Some(
            ChoirAgentResponseView { detailed_response, short_overview, thoughts },
        ),
        _ => None,
    }
}

/// The answer that an agent's output spells, where it spells one.
pub open spec fn spec_decode(output: Seq<char>) -> Option<ChoirAgentResponseView> {
    match spec_parse(output) {
        Some(document) => spec_from_json(document),
        None => None,
    }
}

impl ChoirAgentResponse {
    /// The answer that stands for an agent that failed.
    pub fn empty() -> (r: Self)
        ensures
            r.deep_view() == spec_empty(),
    {
        Self {
            detailed_response: String::from_str(AGENT_FAILURE),
            short_overview: String::from_str(AGENT_FAILURE),
            thoughts: String::from_str(AGENT_FAILURE),
        }
    }

    /// Reads an answer from a JSON document.
    pub fn from_json(document: &JsonValue) -> (r: Option<Self>)
        ensures
            r.deep_view() == spec_from_json(json_model(*document)),
    {
        let detailed_response = text_member(document, "detailed_response");
        let short_overview = text_member(document, "short_overview");
        let thoughts = text_member(document, "thoughts");
        match (detailed_response, short_overview, thoughts) {
            (Some(detailed_response), Some(short_overview), Some(thoughts)) => Some(
                Self { detailed_response, short_overview, thoughts },
            ),
            _ => None,
        }
    }

    /// Reads an answer from an agent's output.
    pub fn decode(output: &str) -> (r: Option<Self>)
        ensures
            r.deep_view() == spec_decode(output@),
    {
        match parse(output) {
            Some(document) => Self::from_json(&document),
            None => None,
        }
    }
}

} // verus!
