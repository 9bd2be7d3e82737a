//! The choir: one question, five differently instructed agents, one answer.
//!
//! A run goes through five stages: the query is enriched with the content of
//! the pages it names, a task master plans, the agents answer the plan side by
//! side, the chorus assesses their answers, and a last call writes the final
//! answer. Fetching pages and asking the provider happen outside the library.
//! A [`ChoirRun`] says what is to be done next ([`ChoirRun::next_action`]) and
//! takes what came of it ([`ChoirRun::advance`]); every decision in between is
//! made here.

use crate::ai_functions::website_to_md::{
    scraped_view, spec_markdown, spec_page, ScrapeFailure, ScrapeFailureView, WebsiteToMdFunction,
};
use crate::ai_functions::{
    get_all_functions, lemma_shipped_tools_are_found, spec_all_functions, spec_lookup,
    BuiltinFunction, FunctionRegistry,
};
use crate::json::{duplicate, json_model, spec_text_member, text_member, JsonValue, JsonView};
use crate::modules::openai::{
    optional_model, spec_completion_request, text_outcome, ChatMessage, ChatMessageView,
    CompletionRequest, CompletionRequestView, OpenAIService,
};
use crate::text::{pretty_debug, spec_pretty_debug};
use crate::types::tchoir::{
    spec_decode, spec_empty, ChoirAgentResponse, ChoirAgentResponseView, ChoirRequest,
    ChoirRequestView,
};
use vstd::prelude::*;
use vstd::string::*;

verus! {

/// The model that every stage of a run asks.
pub const CHOIR_MODEL: &'static str = "gpt-4o";

/// How many agents answer a plan.
pub const AGENT_COUNT: usize = 5;

/// The name of the tool that fetches a page's content.
pub const FETCH_TOOL: &'static str = "website_to_md";

/// The pattern of a URL in a query: `http://` or `https://` and what follows
/// up to the next whitespace.
pub const URL_PATTERN: &'static str = "https?://[^\\s]+";

/// The plan that the agents get where the task master gave none.
pub const PLAN_FALLBACK: &'static str =
    "No plan of action could be obtained. Work on the user's request directly, each agent from the angle of its own role.";

/// The instruction of the task master.
pub const TASK_MASTER_INSTRUCTION: &'static str =
    "\n                    You are the task master coordinating 5 expert agents.\n                    Given the user's query and any data we've gathered, create 5 distinct analytical approaches:\n                    1. Direct analysis approach\n                    2. Critical evaluation approach\n                    3. Contextual analysis approach\n                    4. Creative interpretation approach\n                    5. Comprehensive synthesis approach\n\n                    Be specific about what each agent should focus on. Each approach must be unique.\n                    ";

/// The instruction of the first agent.
pub const AGENT_1_INSTRUCTION: &'static str =
    "You are Agent 1: Direct Analysis Expert. Focus on the first assigned approach.\n            You MUST respond with a valid JSON object containing exactly these three fields:\n            - \"detailed_response\": Your comprehensive analysis (multiple paragraphs)\n            - \"short_overview\": Brief 2-3 sentence summary\n            - \"thoughts\": Your analytical thoughts and reasoning\n            Be precise and methodical in your analysis.";

/// The instruction of the second agent.
pub const AGENT_2_INSTRUCTION: &'static str =
    "You are Agent 2: Critical Evaluator. Focus on the second assigned approach.\n            You MUST respond with a valid JSON object containing exactly these three fields:\n            - \"detailed_response\": Your comprehensive evaluation (multiple paragraphs)\n            - \"short_overview\": Brief 2-3 sentence summary\n            - \"thoughts\": Your critical thoughts and concerns\n            Question assumptions and identify potential issues.";

/// The instruction of the third agent.
pub const AGENT_3_INSTRUCTION: &'static str =
    "You are Agent 3: Context Specialist. Focus on the third assigned approach.\n            You MUST respond with a valid JSON object containing exactly these three fields:\n            - \"detailed_response\": Your contextual analysis (multiple paragraphs)\n            - \"short_overview\": Brief 2-3 sentence summary\n            - \"thoughts\": Your thoughts on context and connections\n            Consider broader context, connections, and underlying patterns.";

/// The instruction of the fourth agent.
pub const AGENT_4_INSTRUCTION: &'static str =
    "You are Agent 4: Creative Interpreter. Focus on the fourth assigned approach.\n            You MUST respond with a valid JSON object containing exactly these three fields:\n            - \"detailed_response\": Your creative interpretation (multiple paragraphs)\n            - \"short_overview\": Brief 2-3 sentence summary\n            - \"thoughts\": Your innovative thoughts and perspectives\n            Think creatively while staying grounded in facts.";

/// The instruction of the fifth agent.
pub const AGENT_5_INSTRUCTION: &'static str =
    "You are Agent 5: Synthesis Expert. Focus on the fifth assigned approach.\n            You MUST respond with a valid JSON object containing exactly these three fields:\n            - \"detailed_response\": Your comprehensive synthesis (multiple paragraphs)\n            - \"short_overview\": Brief 2-3 sentence summary\n            - \"thoughts\": Your integrative thoughts and conclusions\n            Integrate different viewpoints and provide comprehensive analysis.";

/// The instruction of the chorus, which assesses the agents' answers.
pub const CHORUS_INSTRUCTION: &'static str =
    "\n                    You are chorus.\n                    There have been 5 distinctly unique sub agents. Each of these agents have been given a task to solve.\n                    You are to assess the results of each agent and determine the best course of action.\n                    Your personal goal is to think VERY hard and weigh the general pros and cons of each approach. Finally, decide on a final course of action with the best result.\n                    Your result may be anything. You are only allowed to go off of information provided by the sub agents.\n                    Do not repeat yourself.\n                    It can be a combination of approaches. It can be a single approach.\n                    Think hard. Think VERY hard.\n                    Your response should look as follows:\n                    IN MARKDOWN FORMAT!\n                    A brief overview of all results. Generally just to make sure its known.\n                    The actual answer, the absolute best answer that you decided on. Keep this to the point and in a format the user would understand.\n                    More info.\n                    Post game thoughts on each agents approach.\n                    ";

/// The instruction of the call that writes the final answer.
pub const SUMMARY_INSTRUCTION: &'static str =
    "\n                        You are the final summary agent. Your job is to provide the user with a direct, accurate answer to their question.\n                        You have access to webpage content and analysis from multiple expert agents.\n                        Be specific and factual. If you can answer the user's question directly, do so.\n                        Do not say \"the agents didn't find\" unless you're absolutely certain the information isn't in the data provided.\n                        ";

/// What `regex` finds in a text: the successive non-overlapping matches of
/// the pattern, in order; `None` where the pattern does not compile.
pub uninterp spec fn spec_matches(pattern: Seq<char>, haystack: Seq<char>) -> Option<
    Seq<Seq<char>>,
>;

/// `Regex::new` and `Regex::find_iter`: the matches are those that
/// [`spec_matches`] names for the pattern and the text.
#[verifier::external_body]
fn find_all(pattern: &str, haystack: &str) -> (r: Option<Vec<String>>)
    ensures
        r.deep_view() == spec_matches(pattern@, haystack@),
{
    match regex::Regex::new(pattern) {
        Ok(re) => Some(re.find_iter(haystack).map(|m| m.as_str().to_string()).collect()),
        Err(_) => None,
    }
}

/// The URLs of a query, in the order in which they stand in it.
pub open spec fn spec_urls(query: Seq<char>) -> Seq<Seq<char>> {
    match spec_matches(URL_PATTERN@, query) {
        Some(found) => found,
        None => Seq::empty(),
    }
}

/// Finds the URLs of a query.
pub fn find_urls(query: &str) -> (r: Vec<String>)
    ensures
        r.deep_view() == spec_urls(query@),
{
    match find_all(URL_PATTERN, query) {
        Some(found) => found,
        None => {
            let none: Vec<String> = Vec::new();
            assert(none.deep_view() =~= Seq::<Seq<char>>::empty());
            none
        },
    }
}

/// The stage of a run.
#[derive(Clone, Copy, Debug, PartialEq, Eq, Structural)]
pub enum ChoirStage {
    /// Pages named in the query are being fetched.
    Enriching,
    /// The task master is asked for a plan.
    Planning,
    /// The agents are asked, all together.
    Dispatching,
    /// The chorus is asked to assess the agents' answers.
    Assessing,
    /// The final answer is asked for.
    Synthesizing,
    /// The run is over.
    Finished,
}

/// What is to be done next for a run.
#[derive(Debug, PartialEq, Eq)]
pub enum ChoirAction {
    /// Fetch the page at `url` as markdown.
    Scrape { url: String },
    /// Put one question to the provider.
    Complete { request: CompletionRequest },
    /// Put these questions to the provider, all at once, and wait for all of
    /// them.
    CompleteAll { requests: Vec<CompletionRequest> },
    /// Nothing is left to do: this is the run's result.
    Finish { outcome: Result<String, String> },
}

/// The model of a [`ChoirAction`].
pub enum ChoirActionView {
    Scrape { url: Seq<char> },
    Complete { request: CompletionRequestView },
    CompleteAll { requests: Seq<CompletionRequestView> },
    Finish { outcome: Result<Seq<char>, Seq<char>> },
}

impl DeepView for ChoirAction {
    type V = ChoirActionView;

    open spec fn deep_view(&self) -> ChoirActionView {
        match self {
            ChoirAction::Scrape { url } => ChoirActionView::Scrape { url: url@ },
            ChoirAction::Complete { request } => ChoirActionView::Complete {
                request: request.deep_view(),
            },
            ChoirAction::CompleteAll { requests } => ChoirActionView::CompleteAll {
                requests: requests.deep_view(),
            },
            ChoirAction::Finish { outcome } => ChoirActionView::Finish {
                outcome: text_outcome(*outcome),
            },
        }
    }
}

/// What came of an action.
#[derive(Debug, PartialEq, Eq)]
pub enum ChoirEvent {
    /// The fetch of a page is over.
    Scraped { scraped: Result<Option<String>, ScrapeFailure> },
    /// The provider answered one question, or failed to.
    Completed { reply: Result<String, String> },
    /// The provider answered the questions asked together, each or not, in
    /// the order in which they were asked.
    AllCompleted { replies: Vec<Result<String, String>> },
}

/// The model of a [`ChoirEvent`].
pub enum ChoirEventView {
    Scraped { scraped: Result<Option<Seq<char>>, ScrapeFailureView> },
    Completed { reply: Result<Seq<char>, Seq<char>> },
    AllCompleted { replies: Seq<Result<Seq<char>, Seq<char>>> },
}

/// The views of a list of text-or-failure results.
pub open spec fn text_outcomes(replies: Seq<Result<String, String>>) -> Seq<
    Result<Seq<char>, Seq<char>>,
> {
    Seq::new(replies.len(), |i: int| text_outcome(replies[i]))
}

impl DeepView for ChoirEvent {
    type V = ChoirEventView;

    open spec fn deep_view(&self) -> ChoirEventView {
        match self {
            ChoirEvent::Scraped { scraped } => ChoirEventView::Scraped {
                scraped: scraped_view(*scraped),
            },
            ChoirEvent::Completed { reply } => ChoirEventView::Completed {
                reply: text_outcome(*reply),
            },
            ChoirEvent::AllCompleted { replies } => ChoirEventView::AllCompleted {
                replies: text_outcomes(replies@),
            },
        }
    }
}

/// The query with the content of one more page behind it.
pub open spec fn spec_append_content(
    enriched: Seq<char>,
    url: Seq<char>,
    markdown: Seq<char>,
) -> Seq<char> {
    enriched + "\n\n--- Content from "@ + url + " ---\n"@ + markdown
}

/// The question to the task master: its instruction, and the enriched query.
pub open spec fn spec_planning_request(enriched: Seq<char>) -> CompletionRequestView {
    spec_completion_request(
        CHOIR_MODEL@,
        seq![
            ChatMessageView::System { content: TASK_MASTER_INSTRUCTION@ },
            ChatMessageView::User { content: enriched },
        ],
        None,
    )
}

/// The instruction of the agent in `role`, counted from 0.
pub open spec fn spec_agent_instruction(role: int) -> Seq<char> {
    if role == 0 {
        AGENT_1_INSTRUCTION@
    } else if role == 1 {
        AGENT_2_INSTRUCTION@
    } else if role == 2 {
        AGENT_3_INSTRUCTION@
    } else if role == 3 {
        AGENT_4_INSTRUCTION@
    } else {
        AGENT_5_INSTRUCTION@
    }
}

/// The question to the agent in `role`: its own instruction, the plan, and
/// the shape of an agent's answer.
pub open spec fn spec_agent_request(
    role: int,
    plan: Seq<char>,
    agent_schema: JsonView,
) -> CompletionRequestView {
    spec_completion_request(
        CHOIR_MODEL@,
        seq![
            ChatMessageView::System { content: spec_agent_instruction(role) },
            ChatMessageView::User { content: plan },
        ],
        Some(agent_schema),
    )
}

/// The questions to the agents, in the order of their roles.
pub open spec fn spec_agent_requests(plan: Seq<char>, agent_schema: JsonView) -> Seq<
    CompletionRequestView,
> {
    Seq::new(AGENT_COUNT as nat, |role: int| spec_agent_request(role, plan, agent_schema))
}

/// The answer in one slot of the fan-in: what the agent's output spells, and
/// the stand-in for a failed agent where the call failed, the output spells
/// no answer, or there is no reply for the slot.
pub open spec fn spec_slot(replies: Seq<Result<Seq<char>, Seq<char>>>, role: int) -> ChoirAgentResponseView {
    if 0 <= role < replies.len() {
        match replies[role] {
            Ok(output) => match spec_decode(output) {
                Some(answer) => answer,
                None => spec_empty(),
            },
            Err(_) => spec_empty(),
        }
    } else {
        spec_empty()
    }
}

/// The agents' answers: one per role, in the order of the roles, whatever
/// became of the calls.
pub open spec fn spec_collect(replies: Seq<Result<Seq<char>, Seq<char>>>) -> Seq<
    ChoirAgentResponseView,
> {
    Seq::new(AGENT_COUNT as nat, |role: int| spec_slot(replies, role))
}

/// What the chorus gets to read: each agent's detailed answer under the
/// number of its role.
pub open spec fn spec_assessment_content(agents: Seq<ChoirAgentResponseView>) -> Seq<char> {
    "Agent 1: "@ + agents[0].detailed_response + "\nAgent 2: "@ + agents[1].detailed_response
        + "\nAgent 3: "@ + agents[2].detailed_response + "\nAgent 4: "@
        + agents[3].detailed_response + "\nAgent 5: "@ + agents[4].detailed_response
}

/// The question to the chorus, with the caller's output schema where there
/// is one.
pub open spec fn spec_assessment_request(
    agents: Seq<ChoirAgentResponseView>,
    json_schema: Option<JsonView>,
) -> CompletionRequestView {
    spec_completion_request(
        CHOIR_MODEL@,
        seq![
            ChatMessageView::System { content: CHORUS_INSTRUCTION@ },
            ChatMessageView::User { content: spec_assessment_content(agents) },
        ],
        json_schema,
    )
}

/// The detailed answers of the agents, in order.
pub open spec fn spec_detailed(agents: Seq<ChoirAgentResponseView>) -> Seq<Seq<char>> {
    Seq::new(agents.len(), |i: int| agents[i].detailed_response)
}

/// What the last call gets to read: the query as the user wrote it, the
/// assessment, and the agents' detailed answers.
pub open spec fn spec_synthesis_content(
    query: Seq<char>,
    assessment: Seq<char>,
    agents: Seq<ChoirAgentResponseView>,
) -> Seq<char> {
    "User's original query: "@ + query + "\n\nExpert analysis: "@ + assessment
        + "\n\nDetailed agent responses: "@ + spec_pretty_debug(spec_detailed(agents))
}

/// The question that asks for the final answer.
pub open spec fn spec_synthesis_request(
    query: Seq<char>,
    assessment: Seq<char>,
    agents: Seq<ChoirAgentResponseView>,
) -> CompletionRequestView {
    spec_completion_request(
        CHOIR_MODEL@,
        seq![
            ChatMessageView::System { content: SUMMARY_INSTRUCTION@ },
            ChatMessageView::User { content: spec_synthesis_content(query, assessment, agents) },
        ],
        None,
    )
}

/// Builds a request of a system instruction and one user message.
fn instructed_request(instruction: &str, content: String, json_schema: Option<JsonValue>) -> (r:
    CompletionRequest)
    ensures
        r.deep_view() == spec_completion_request(
            CHOIR_MODEL@,
            seq![
                ChatMessageView::System { content: instruction@ },
                ChatMessageView::User { content: content@ },
            ],
            optional_model(json_schema),
        ),
{
    let mut messages: Vec<ChatMessage> = Vec::new();
    messages.push(ChatMessage::system(instruction));
    messages.push(ChatMessage::User { content });
    assert(messages.deep_view() =~= seq![
        ChatMessageView::System { content: instruction@ },
        ChatMessageView::User { content: content@ },
    ]);
    OpenAIService::completion_request(CHOIR_MODEL, messages, json_schema)
}

/// Appends the content of the page at `url` to the enriched query.
pub fn append_content(enriched: String, url: &str, markdown: &str) -> (r: String)
    ensures
        r@ == spec_append_content(enriched@, url@, markdown@),
{
    let mut out = enriched;
    out.append("\n\n--- Content from ");
    out.append(url);
    out.append(" ---\n");
    out.append(markdown);
    out
}

/// The question to the task master.
pub fn planning_request(enriched: &str) -> (r: CompletionRequest)
    ensures
        r.deep_view() == spec_planning_request(enriched@),
{
    instructed_request(TASK_MASTER_INSTRUCTION, String::from_str(enriched), None)
}

/// The instruction of the agent in `role`, counted from 0.
pub fn agent_instruction(role: usize) -> (r: &'static str)
    requires
        role < AGENT_COUNT,
    ensures
        r@ == spec_agent_instruction(role as int),
{
    if role == 0 {
        AGENT_1_INSTRUCTION
    } else if role == 1 {
        AGENT_2_INSTRUCTION
    } else if role == 2 {
        AGENT_3_INSTRUCTION
    } else if role == 3 {
        AGENT_4_INSTRUCTION
    } else {
        AGENT_5_INSTRUCTION
    }
}

/// The questions to the agents: exactly one per role, in the order of the
/// roles.
pub fn agent_requests(plan: &str, agent_schema: &JsonValue) -> (r: Vec<CompletionRequest>)
    ensures
        r@.len() == AGENT_COUNT,
        r.deep_view() == spec_agent_requests(plan@, json_model(*agent_schema)),
{
    let mut requests: Vec<CompletionRequest> = Vec::new();
    let mut role: usize = 0;
    while role < AGENT_COUNT
        invariant
            role <= AGENT_COUNT,
            requests@.len() == role,
            forall|k: int|
                0 <= k < role ==> (#[trigger] requests@[k]).deep_view() == spec_agent_request(
                    k,
                    plan@,
                    json_model(*agent_schema),
                ),
        decreases AGENT_COUNT - role,
    {
        requests.push(
            instructed_request(
                agent_instruction(role),
                String::from_str(plan),
                Some(duplicate(agent_schema)),
            ),
        );
        role += 1;
    }
    assert(requests.deep_view() =~= spec_agent_requests(plan@, json_model(*agent_schema)));
    requests
}

/// The fan-in: one answer per role, in the order of the roles. A call that
/// failed, or whose output spells no answer, leaves the stand-in for a failed
/// agent in its slot; so does a reply that is missing. Replies beyond the
/// last role are passed over.
pub fn collect_agents(replies: &Vec<Result<String, String>>) -> (r: Vec<ChoirAgentResponse>)
    ensures
        r@.len() == AGENT_COUNT,
        r.deep_view() == spec_collect(text_outcomes(replies@)),
{
    let mut agents: Vec<ChoirAgentResponse> = Vec::new();
    let mut role: usize = 0;
    while role < AGENT_COUNT
        invariant
            role <= AGENT_COUNT,
            agents@.len() == role,
            forall|k: int|
                0 <= k < role ==> (#[trigger] agents@[k]).deep_view() == spec_slot(
                    text_outcomes(replies@),
                    k,
                ),
        decreases AGENT_COUNT - role,
    {
        let answer = if role < replies.len() {
            match &replies[role] {
                Ok(output) => match ChoirAgentResponse::decode(output.as_str()) {
                    Some(answer) => answer,
                    None => ChoirAgentResponse::empty(),
                },
                Err(_) => ChoirAgentResponse::empty(),
            }
        } else {
            ChoirAgentResponse::empty()
        };
        agents.push(answer);
        role += 1;
    }
    assert(agents.deep_view() =~= spec_collect(text_outcomes(replies@)));
    agents
}

/// The question to the chorus.
pub fn assessment_request(agents: &Vec<ChoirAgentResponse>, json_schema: Option<JsonValue>) -> (r:
    CompletionRequest)
    requires
        agents@.len() >= AGENT_COUNT,
    ensures
        r.deep_view() == spec_assessment_request(agents.deep_view(), optional_model(json_schema)),
{
    let mut content = String::from_str("Agent 1: ");
    content.append(agents[0].detailed_response.as_str());
    content.append("\nAgent 2: ");
    content.append(agents[1].detailed_response.as_str());
    content.append("\nAgent 3: ");
    content.append(agents[2].detailed_response.as_str());
    content.append("\nAgent 4: ");
    content.append(agents[3].detailed_response.as_str());
    content.append("\nAgent 5: ");
    content.append(agents[4].detailed_response.as_str());
    instructed_request(CHORUS_INSTRUCTION, content, json_schema)
}

/// The question that asks for the final answer.
pub fn synthesis_request(query: &str, assessment: &str, agents: &Vec<ChoirAgentResponse>) -> (r:
    CompletionRequest)
    ensures
        r.deep_view() == spec_synthesis_request(query@, assessment@, agents.deep_view()),
{
    let mut detailed: Vec<String> = Vec::new();
    let mut i: usize = 0;
    while i < agents.len()
        invariant
            i <= agents.len(),
            detailed@.len() == i,
            forall|k: int| 0 <= k < i ==> (#[trigger] detailed@[k])@ == agents@[k].detailed_response@,
        decreases agents.len() - i,
    {
        detailed.push(agents[i].detailed_response.clone());
        i += 1;
    }
    assert(detailed.deep_view() =~= spec_detailed(agents.deep_view()));
    let mut content = String::from_str("User's original query: ");
    content.append(query);
    content.append("\n\nExpert analysis: ");
    content.append(assessment);
    content.append("\n\nDetailed agent responses: ");
    content.append(pretty_debug(&detailed).as_str());
    instructed_request(SUMMARY_INSTRUCTION, content, None)
}

/// The model of a [`ChoirRun`].
pub struct ChoirRunView {
    pub stage: ChoirStage,
    /// The query as the user wrote it.
    pub query: Seq<char>,
    /// The shape that the assessment has to follow, where one is asked for.
    pub json_schema: Option<JsonView>,
    /// The shape of an agent's answer.
    pub agent_schema: JsonView,
    /// The URLs of the query, in order.
    pub urls: Seq<Seq<char>>,
    /// Which of `urls` is fetched next.
    pub next_url: nat,
    /// The query with the content fetched so far behind it.
    pub enriched: Seq<char>,
    /// The URLs whose fetch failed, in order.
    pub failed_urls: Seq<Seq<char>>,
    /// The task master's plan.
    pub plan: Seq<char>,
    /// The agents' answers, one per role.
    pub agents: Seq<ChoirAgentResponseView>,
    /// The chorus's assessment.
    pub assessment: Seq<char>,
    /// The result, once the run is over.
    pub outcome: Option<Result<Seq<char>, Seq<char>>>,
}

impl ChoirRunView {
    /// What every run keeps: while it fetches there is a page left to fetch,
    /// from the assessment on there is one answer per role, and it has a
    /// result exactly when it is over.
    pub open spec fn wf(self) -> bool {
        &&& self.stage == ChoirStage::Enriching ==> self.next_url < self.urls.len()
        &&& (self.stage == ChoirStage::Assessing || self.stage == ChoirStage::Synthesizing)
            ==> self.agents.len() == AGENT_COUNT
        &&& self.stage == ChoirStage::Finished <==> self.outcome is Some
    }
}

/// A run at its start. With URLs in the query and a fetch tool at hand it
/// begins by fetching the first of them; otherwise the query goes to the task
/// master as it is.
pub open spec fn spec_begin(
    request: ChoirRequestView,
    urls: Seq<Seq<char>>,
    can_fetch: bool,
    agent_schema: JsonView,
) -> ChoirRunView {
    ChoirRunView {
        stage: if urls.len() > 0 && can_fetch {
            ChoirStage::Enriching
        } else {
            ChoirStage::Planning
        },
        query: request.query,
        json_schema: request.json_schema,
        agent_schema,
        urls,
        next_url: 0,
        enriched: request.query,
        failed_urls: Seq::empty(),
        plan: Seq::empty(),
        agents: Seq::empty(),
        assessment: Seq::empty(),
        outcome: None,
    }
}

/// The run after the fetch of the page at the cursor. What the page gave is
/// appended to the enriched query; a failed fetch is noted and changes
/// nothing else. Either way the run moves on: to the next page, or, behind
/// the last one, to planning.
pub open spec fn spec_on_scraped(
    s: ChoirRunView,
    scraped: Result<Option<Seq<char>>, ScrapeFailureView>,
) -> ChoirRunView {
    let url = s.urls[s.next_url as int];
    ChoirRunView {
        stage: if s.next_url + 1 < s.urls.len() {
            ChoirStage::Enriching
        } else {
            ChoirStage::Planning
        },
        next_url: s.next_url + 1,
        enriched: match scraped {
            Ok(markdown) => spec_append_content(s.enriched, url, spec_markdown(markdown)),
            Err(_) => s.enriched,
        },
        failed_urls: match scraped {
            Ok(_) => s.failed_urls,
            Err(_) => s.failed_urls.push(url),
        },
        ..s
    }
}

/// The run after `event`. An event that does not answer the stage's action
/// changes nothing. Planning never fails: without a plan the agents get the
/// fallback. The fan-in never fails either: see [`spec_collect`]. A failure
/// of the assessment or of the final call ends the run in that failure.
pub open spec fn spec_advance(s: ChoirRunView, event: ChoirEventView) -> ChoirRunView {
    match (s.stage, event) {
        (ChoirStage::Enriching, ChoirEventView::Scraped { scraped }) => spec_on_scraped(s, scraped),
        (ChoirStage::Planning, ChoirEventView::Completed { reply }) => ChoirRunView {
            stage: ChoirStage::Dispatching,
            plan: match reply {
                Ok(plan) => plan,
                Err(_) => PLAN_FALLBACK@,
            },
            ..s
        },
        (ChoirStage::Dispatching, ChoirEventView::AllCompleted { replies }) => ChoirRunView {
            stage: ChoirStage::Assessing,
            agents: spec_collect(replies),
            ..s
        },
        (ChoirStage::Assessing, ChoirEventView::Completed { reply }) => match reply {
            Ok(assessment) => ChoirRunView { stage: ChoirStage::Synthesizing, assessment, ..s },
            Err(why) => ChoirRunView { stage: ChoirStage::Finished, outcome: Some(Err(why)), ..s },
        },
        (ChoirStage::Synthesizing, ChoirEventView::Completed { reply }) => ChoirRunView {
            stage: ChoirStage::Finished,
            outcome: Some(reply),
            ..s
        },
        _ => s,
    }
}

/// What is to be done next in state `s`.
pub open spec fn spec_action(s: ChoirRunView) -> ChoirActionView {
    match s.stage {
        ChoirStage::Enriching => ChoirActionView::Scrape { url: s.urls[s.next_url as int] },
        ChoirStage::Planning => ChoirActionView::Complete {
            request: spec_planning_request(s.enriched),
        },
        ChoirStage::Dispatching => ChoirActionView::CompleteAll {
            requests: spec_agent_requests(s.plan, s.agent_schema),
        },
        ChoirStage::Assessing => ChoirActionView::Complete {
            request: spec_assessment_request(s.agents, s.json_schema),
        },
        ChoirStage::Synthesizing => ChoirActionView::Complete {
            request: spec_synthesis_request(s.query, s.assessment, s.agents),
        },
        ChoirStage::Finished => ChoirActionView::Finish { outcome: s.outcome->0 },
    }
}

/// A run keeps its shape: it begins well-formed, and no event takes that
/// away.
pub proof fn lemma_run_stays_wf(
    s: ChoirRunView,
    event: ChoirEventView,
    request: ChoirRequestView,
    urls: Seq<Seq<char>>,
    can_fetch: bool,
    agent_schema: JsonView,
)
    requires
        s.wf(),
    ensures
        spec_begin(request, urls, can_fetch, agent_schema).wf(),
        spec_advance(s, event).wf(),
{
}

/// Failures are taken up where they happen. A fetch that fails leaves the
/// enriched query as it was and the run goes on; a failed plan or a failed
/// agent never ends a run; only a failure of the assessment or of the final
/// call does, and the run then ends in exactly that failure.
pub proof fn lemma_only_late_stages_fail(s: ChoirRunView, event: ChoirEventView)
    requires
        s.wf(),
    ensures
        s.stage == ChoirStage::Enriching || s.stage == ChoirStage::Planning || s.stage
            == ChoirStage::Dispatching ==> spec_advance(s, event).outcome is None,
        forall|why: ScrapeFailureView|
            s.stage == ChoirStage::Enriching && event == (ChoirEventView::Scraped {
                scraped: Err(why),
            }) ==> spec_advance(s, event).enriched == s.enriched && spec_advance(s, event).stage
                != ChoirStage::Finished,
        s.stage == ChoirStage::Dispatching && event is AllCompleted ==> spec_advance(
            s,
            event,
        ).agents.len() == AGENT_COUNT,
        forall|why: Seq<char>|
            s.outcome is None && (spec_advance(s, event).outcome matches Some(Err(e)) && e == why)
                ==> (s.stage == ChoirStage::Assessing || s.stage == ChoirStage::Synthesizing)
                && event == (ChoirEventView::Completed { reply: Err(why) }),
{
}

/// One run of the choir.
#[derive(Debug)]
pub struct ChoirRun {
    stage: ChoirStage,
    query: String,
    json_schema: Option<JsonValue>,
    agent_schema: JsonValue,
    urls: Vec<String>,
    next_url: usize,
    enriched: String,
    failed_urls: Vec<String>,
    plan: String,
    agents: Vec<ChoirAgentResponse>,
    assessment: String,
    outcome: Option<Result<String, String>>,
}

impl View for ChoirRun {
    type V = ChoirRunView;

    closed spec fn view(&self) -> ChoirRunView {
        ChoirRunView {
            stage: self.stage,
            query: self.query@,
            json_schema: optional_model(self.json_schema),
            agent_schema: json_model(self.agent_schema),
            urls: self.urls.deep_view(),
            next_url: self.next_url as nat,
            enriched: self.enriched@,
            failed_urls: self.failed_urls.deep_view(),
            plan: self.plan@,
            agents: self.agents.deep_view(),
            assessment: self.assessment@,
            outcome: match self.outcome {
                Some(r) => Some(text_outcome(r)),
                None => None,
            },
        }
    }
}

/// Whether a fetch tool is among `functions`.
pub open spec fn spec_can_fetch(functions: Seq<BuiltinFunction>) -> bool {
    spec_lookup(functions, FETCH_TOOL@) matches Some(BuiltinFunction::WebsiteToMd(_))
}

/// The markdown member of a fetched page's result is the page's markdown.
proof fn lemma_page_markdown(url: Seq<char>, markdown: Option<Seq<char>>)
    ensures
        spec_text_member(spec_page(url, markdown), "markdown"@) == Some(spec_markdown(markdown)),
{
    reveal_strlit("markdown");
    reveal_strlit("title");
    assert("markdown"@.len() != "title"@.len());
}

impl ChoirRun {
    #[verifier::type_invariant]
    spec fn inv(self) -> bool {
        self@.wf()
    }

    /// Begins a run on `request`, whose query names `urls`. `can_fetch` says
    /// whether pages can be fetched at all.
    pub fn begin(request: ChoirRequest, urls: Vec<String>, can_fetch: bool, agent_schema: JsonValue)
        -> (r: ChoirRun)
        ensures
            r@ == spec_begin(
                request.deep_view(),
                urls.deep_view(),
                can_fetch,
                json_model(agent_schema),
            ),
    {
        let stage = if urls.len() > 0 && can_fetch {
            ChoirStage::Enriching
        } else {
            ChoirStage::Planning
        };
        let failed_urls: Vec<String> = Vec::new();
        let agents: Vec<ChoirAgentResponse> = Vec::new();
        assert(failed_urls.deep_view() =~= Seq::<Seq<char>>::empty());
        assert(agents.deep_view() =~= Seq::<ChoirAgentResponseView>::empty());
        ChoirRun {
            stage,
            enriched: request.query.clone(),
            query: request.query,
            json_schema: request.json_schema,
            agent_schema,
            urls,
            next_url: 0,
            failed_urls,
            plan: String::new(),
            agents,
            assessment: String::new(),
            outcome: None,
        }
    }

    /// The stage of the run.
    pub fn stage(&self) -> (r: ChoirStage)
        ensures
            r == self@.stage,
            self@.wf(),
    {
        proof {
            use_type_invariant(self);
        }
        self.stage
    }

    /// The query with the content fetched so far behind it.
    pub fn enriched(&self) -> (r: &str)
        ensures
            r@ == self@.enriched,
    {
        self.enriched.as_str()
    }

    /// The URLs whose fetch failed, in order.
    pub fn failed_urls(&self) -> (r: &Vec<String>)
        ensures
            r.deep_view() == self@.failed_urls,
    {
        &self.failed_urls
    }

    /// The agents' answers, one per role once the agents have been asked.
    pub fn agents(&self) -> (r: &Vec<ChoirAgentResponse>)
        ensures
            r.deep_view() == self@.agents,
    {
        &self.agents
    }

    /// What is to be done next.
    pub fn next_action(&self) -> (r: ChoirAction)
        ensures
            r.deep_view() == spec_action(self@),
    {
        proof {
            use_type_invariant(self);
        }
        match self.stage {
            ChoirStage::Enriching => ChoirAction::Scrape { url: self.urls[self.next_url].clone() },
            ChoirStage::Planning => ChoirAction::Complete {
                request: planning_request(self.enriched.as_str()),
            },
            ChoirStage::Dispatching => ChoirAction::CompleteAll {
                requests: agent_requests(self.plan.as_str(), &self.agent_schema),
            },
            ChoirStage::Assessing => {
                let json_schema = match &self.json_schema {
                    Some(schema) => Some(duplicate(schema)),
                    None => None,
                };
                ChoirAction::Complete { request: assessment_request(&self.agents, json_schema) }
            },
            ChoirStage::Synthesizing => ChoirAction::Complete {
                request: synthesis_request(
                    self.query.as_str(),
                    self.assessment.as_str(),
                    &self.agents,
                ),
            },
            ChoirStage::Finished => match &self.outcome {
                Some(Ok(answer)) => ChoirAction::Finish { outcome: Ok(answer.clone()) },
                Some(Err(why)) => ChoirAction::Finish { outcome: Err(why.clone()) },
                None => ChoirAction::Finish { outcome: Err(String::new()) },
            },
        }
    }

    /// Takes what came of the last action.
    pub fn advance(self, event: ChoirEvent) -> (r: ChoirRun)
        ensures
            r@ == spec_advance(self@, event.deep_view()),
    {
        proof {
            use_type_invariant(&self);
        }
        let ghost before = self@;
        let ChoirRun {
            stage,
            query,
            json_schema,
            agent_schema,
            urls,
            next_url,
            enriched,
            failed_urls,
            plan,
            agents,
            assessment,
            outcome,
        } = self;
        match (stage, event) {
            (ChoirStage::Enriching, ChoirEvent::Scraped { scraped }) => {
                let mut failed_urls = failed_urls;
                let total = urls.len();
                assert(before.urls.len() == total);
                let following = next_url + 1;
                let url = urls[next_url].clone();
                let ghost gave = scraped_view(scraped);
                let result = WebsiteToMdFunction::complete(url.clone(), scraped);
                let enriched = match result {
                    Ok(page) => {
                        proof {
                            lemma_page_markdown(url@, gave->Ok_0);
                        }
                        match text_member(&page, "markdown") {
                            Some(markdown) => append_content(
                                enriched,
                                url.as_str(),
                                markdown.as_str(),
                            ),
                            None => enriched,
                        }
                    },
                    Err(_) => {
                        failed_urls.push(url);
                        assert(failed_urls.deep_view() =~= before.failed_urls.push(
                            before.urls[before.next_url as int],
                        ));
                        enriched
                    },
                };
                ChoirRun {
                    stage: if following < total {
                        ChoirStage::Enriching
                    } else {
                        ChoirStage::Planning
                    },
                    query,
                    json_schema,
                    agent_schema,
                    urls,
                    next_url: following,
                    enriched,
                    failed_urls,
                    plan,
                    agents,
                    assessment,
                    outcome,
                }
            },
            (ChoirStage::Planning, ChoirEvent::Completed { reply }) => ChoirRun {
                stage: ChoirStage::Dispatching,
                query,
                json_schema,
                agent_schema,
                urls,
                next_url,
                enriched,
                failed_urls,
                plan: match reply {
                    Ok(plan) => plan,
                    Err(_) => String::from_str(PLAN_FALLBACK),
                },
                agents,
                assessment,
                outcome,
            },
            (ChoirStage::Dispatching, ChoirEvent::AllCompleted { replies }) => ChoirRun {
                stage: ChoirStage::Assessing,
                query,
                json_schema,
                agent_schema,
                urls,
                next_url,
                enriched,
                failed_urls,
                plan,
                agents: collect_agents(&replies),
                assessment,
                outcome,
            },
            (ChoirStage::Assessing, ChoirEvent::Completed { reply }) => match reply {
                Ok(text) => ChoirRun {
                    stage: ChoirStage::Synthesizing,
                    query,
                    json_schema,
                    agent_schema,
                    urls,
                    next_url,
                    enriched,
                    failed_urls,
                    plan,
                    agents,
                    assessment: text,
                    outcome,
                },
                Err(why) => ChoirRun {
                    stage: ChoirStage::Finished,
                    query,
                    json_schema,
                    agent_schema,
                    urls,
                    next_url,
                    enriched,
                    failed_urls,
                    plan,
                    agents,
                    assessment,
                    outcome: Some(Err(why)),
                },
            },
            (ChoirStage::Synthesizing, ChoirEvent::Completed { reply }) => ChoirRun {
                stage: ChoirStage::Finished,
                query,
                json_schema,
                agent_schema,
                urls,
                next_url,
                enriched,
                failed_urls,
                plan,
                agents,
                assessment,
                outcome: Some(reply),
            },
            (stage, _) => ChoirRun {
                stage,
                query,
                json_schema,
                agent_schema,
                urls,
                next_url,
                enriched,
                failed_urls,
                plan,
                agents,
                assessment,
                outcome,
            },
        }
    }
}

/// The service that runs the choir: the tools at hand for enriching a query,
/// and the shape that an agent's answer has to follow.
#[derive(Debug)]
pub struct ChoirService {
    pub ai_functions: FunctionRegistry<BuiltinFunction>,
    pub agent_schema: JsonValue,
}

impl ChoirService {
    /// A service with the tools that the library ships. `agent_schema` is the
    /// JSON schema of a [`ChoirAgentResponse`].
    pub fn new(agent_schema: JsonValue) -> (r: Self)
        ensures
            r.ai_functions.functions@ == spec_all_functions(),
            json_model(r.agent_schema) == json_model(agent_schema),
            spec_can_fetch(r.ai_functions.functions@),
    {
        proof {
            lemma_shipped_tools_are_found();
        }
        ChoirService { ai_functions: FunctionRegistry::new(get_all_functions()), agent_schema }
    }

    /// Whether pages can be fetched: a fetch tool is registered.
    pub fn can_fetch(&self) -> (r: bool)
        ensures
            r == spec_can_fetch(self.ai_functions.functions@),
    {
        match self.ai_functions.lookup(FETCH_TOOL) {
            Some(BuiltinFunction::WebsiteToMd(_)) => true,
            _ => false,
        }
    }

    /// Begins a run on a request whose query names `urls`.
    pub fn run_with_urls(&self, request: ChoirRequest, urls: Vec<String>) -> (r: ChoirRun)
        ensures
            r@ == spec_begin(
                request.deep_view(),
                urls.deep_view(),
                spec_can_fetch(self.ai_functions.functions@),
                json_model(self.agent_schema),
            ),
    {
        ChoirRun::begin(request, urls, self.can_fetch(), duplicate(&self.agent_schema))
    }

    /// Begins a run on `request`: finds the URLs in its query and sets out to
    /// fetch them.
    pub fn run_choir(&self, request: ChoirRequest) -> (r: ChoirRun)
        ensures
            r@ == spec_begin(
                request.deep_view(),
                spec_urls(request.query@),
                spec_can_fetch(self.ai_functions.functions@),
                json_model(self.agent_schema),
            ),
    {
        let urls = find_urls(request.query.as_str());
        self.run_with_urls(request, urls)
    }
}

} // verus!
