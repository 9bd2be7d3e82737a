//! The conversation with the completion provider: its messages, the tools
//! advertised to it, and the loop that lets one conversation call tools until
//! the provider gives its answer.
//!
//! The provider itself is reached from outside the library. What is decided
//! here is what to ask it, and what each of its replies leads to.

use crate::ai_functions::website_to_md::{
    scraped_view, spec_complete, ScrapeFailure, WebsiteToMdFunction,
};
use crate::ai_functions::{
    get_all_functions, outcome_view, spec_all_functions, spec_error_message, spec_invoke,
    spec_list,
    AIFunctionParameter, AIFunctionParameterView, BuiltinFunction, FunctionDescriptorView,
    FunctionRegistry, Invocation, InvocationView, ToolError, ToolErrorKind, ToolErrorView,
};
use crate::json::{
    array, empty_members, insert_member, is_object, json_model, no_members, object, parse, render,
    spec_parse, spec_render, text, JsonValue, JsonView,
};
use vstd::prelude::*;
use vstd::string::*;

verus! {

/// The model that opens a tool-calling conversation.
pub const OPENING_MODEL: &'static str = "gpt-4o";

/// The model that is asked once tool results are in the transcript.
pub const FOLLOW_UP_MODEL: &'static str = "gpt-4.1";

/// The system instruction of a tool-calling conversation.
pub const INTERACTIVE_INSTRUCTION: &'static str =
    "\n            Cut, to the point, and concise. Do not repeat yourself.\n        ";

/// The answer given where the provider's reply holds no text.
pub const NO_RESPONSE: &'static str = "LLM failed to respond.";

/// The name under which an output schema is handed to the provider.
pub const RESPONSE_FORMAT_NAME: &'static str = "root";

/// How often the provider is asked in one tool-calling conversation, at most,
/// unless the caller sets another limit.
pub const DEFAULT_MAX_ROUNDS: usize = 15;

/// A call of a tool that the provider asks for.
#[derive(Clone, Debug, PartialEq, Eq)]
pub struct ToolCall {
    /// The identifier under which the result is reported back.
    pub id: String,
    /// The tool's name.
    pub name: String,
    /// The arguments, as JSON text.
    pub arguments: String,
}

/// The model of a [`ToolCall`].
pub struct ToolCallView {
    pub id: Seq<char>,
    pub name: Seq<char>,
    pub arguments: Seq<char>,
}

impl DeepView for ToolCall {
    type V = ToolCallView;

    open spec fn deep_view(&self) -> ToolCallView {
        ToolCallView { id: self.id@, name: self.name@, arguments: self.arguments@ }
    }
}

impl ToolCall {
    /// A copy of this call.
    pub fn duplicate(&self) -> (r: ToolCall)
        ensures
            r.deep_view() == self.deep_view(),
    {
        ToolCall {
            id: self.id.clone(),
            name: self.name.clone(),
            arguments: self.arguments.clone(),
        }
    }
}

/// Copies a list of calls.
pub fn duplicate_calls(calls: &Vec<ToolCall>) -> (r: Vec<ToolCall>)
    ensures
        r.deep_view() == calls.deep_view(),
{
    let mut out: Vec<ToolCall> = Vec::new();
    let mut i: usize = 0;
    while i < calls.len()
        invariant
            i <= calls.len(),
            out@.len() == i,
            forall|k: int| 0 <= k < i ==> (#[trigger] out@[k]).deep_view() == calls@[k].deep_view(),
        decreases calls.len() - i,
    {
        out.push(calls[i].duplicate());
        i += 1;
    }
    assert(out.deep_view() =~= calls.deep_view());
    out
}

/// One message of a transcript.
#[allow(inconsistent_fields)]
#[derive(Clone, Debug, PartialEq, Eq)]
pub enum ChatMessage {
    /// An instruction to the provider.
    System { content: String },
    /// What the user wrote.
    User { content: String },
    /// What the assistant wrote, and the tools it asked for.
    Assistant { content: Option<String>, tool_calls: Option<Vec<ToolCall>> },
    /// The result of one tool call, keyed by the call's identifier.
    Tool { content: String, tool_call_id: String },
}

/// The model of a [`ChatMessage`].
#[allow(inconsistent_fields)]
pub enum ChatMessageView {
    System { content: Seq<char> },
    User { content: Seq<char> },
    Assistant { content: Option<Seq<char>>, tool_calls: Option<Seq<ToolCallView>> },
    Tool { content: Seq<char>, tool_call_id: Seq<char> },
}

impl DeepView for ChatMessage {
    type V = ChatMessageView;

    open spec fn deep_view(&self) -> ChatMessageView {
        match self {
            ChatMessage::System { content } => ChatMessageView::System { content: content@ },
            ChatMessage::User { content } => ChatMessageView::User { content: content@ },
            ChatMessage::Assistant { content, tool_calls } => ChatMessageView::Assistant {
                content: content.deep_view(),
                tool_calls: tool_calls.deep_view(),
            },
            ChatMessage::Tool { content, tool_call_id } => ChatMessageView::Tool {
                content: content@,
                tool_call_id: tool_call_id@,
            },
        }
    }
}

impl ChatMessage {
    /// A system message with the given text.
    pub fn system(content: &str) -> (r: ChatMessage)
        ensures
            r.deep_view() == (ChatMessageView::System { content: content@ }),
    {
        ChatMessage::System { content: String::from_str(content) }
    }

    /// A user message with the given text.
    pub fn user(content: &str) -> (r: ChatMessage)
        ensures
            r.deep_view() == (ChatMessageView::User { content: content@ }),
    {
        ChatMessage::User { content: String::from_str(content) }
    }
}

/// The schema that a completion's output has to follow, under its name.
#[derive(Debug, PartialEq, Eq)]
pub struct ResponseFormat {
    pub name: String,
    pub schema: JsonValue,
}

/// The model of a [`ResponseFormat`].
pub struct ResponseFormatView {
    pub name: Seq<char>,
    pub schema: JsonView,
}

impl DeepView for ResponseFormat {
    type V = ResponseFormatView;

    open spec fn deep_view(&self) -> ResponseFormatView {
        ResponseFormatView { name: self.name@, schema: json_model(self.schema) }
    }
}

/// One question to the provider.
#[derive(Debug, PartialEq, Eq)]
pub struct CompletionRequest {
    pub model: String,
    pub messages: Vec<ChatMessage>,
    pub response_format: Option<ResponseFormat>,
}

/// The model of a [`CompletionRequest`].
pub struct CompletionRequestView {
    pub model: Seq<char>,
    pub messages: Seq<ChatMessageView>,
    pub response_format: Option<ResponseFormatView>,
}

impl DeepView for CompletionRequest {
    type V = CompletionRequestView;

    open spec fn deep_view(&self) -> CompletionRequestView {
        CompletionRequestView {
            model: self.model@,
            messages: self.messages.deep_view(),
            response_format: self.response_format.deep_view(),
        }
    }
}

/// One alternative of a reply.
#[derive(Clone, Debug, PartialEq, Eq)]
pub struct Choice {
    pub content: Option<String>,
    pub tool_calls: Option<Vec<ToolCall>>,
}

/// The model of a [`Choice`].
pub struct ChoiceView {
    pub content: Option<Seq<char>>,
    pub tool_calls: Option<Seq<ToolCallView>>,
}

impl DeepView for Choice {
    type V = ChoiceView;

    open spec fn deep_view(&self) -> ChoiceView {
        ChoiceView { content: self.content.deep_view(), tool_calls: self.tool_calls.deep_view() }
    }
}

/// What the provider answered.
#[derive(Clone, Debug, PartialEq, Eq)]
pub struct ProviderReply {
    pub choices: Vec<Choice>,
}

/// The model of a [`ProviderReply`].
pub struct ProviderReplyView {
    pub choices: Seq<ChoiceView>,
}

impl DeepView for ProviderReply {
    type V = ProviderReplyView;

    open spec fn deep_view(&self) -> ProviderReplyView {
        ProviderReplyView { choices: self.choices.deep_view() }
    }
}

/// The view of what a question to the provider came to.
pub open spec fn reply_view(reply: Result<ProviderReply, String>) -> Result<
    ProviderReplyView,
    Seq<char>,
> {
    match reply {
        Ok(r) => Ok(r.deep_view()),
        Err(why) => Err(why@),
    }
}

/// The view of a text-or-failure result.
pub open spec fn text_outcome(r: Result<String, String>) -> Result<Seq<char>, Seq<char>> {
    match r {
        Ok(text) => Ok(text@),
        Err(why) => Err(why@),
    }
}

/// The request for a completion, with the schema under its fixed name where
/// one is given.
pub open spec fn spec_completion_request(
    model: Seq<char>,
    messages: Seq<ChatMessageView>,
    json_schema: Option<JsonView>,
) -> CompletionRequestView {
    CompletionRequestView {
        model,
        messages,
        response_format: match json_schema {
            Some(schema) => Some(ResponseFormatView { name: RESPONSE_FORMAT_NAME@, schema }),
            None => None,
        },
    }
}

/// The text of a completion: that of the first choice, empty where there is
/// none.
pub open spec fn spec_completion_text(reply: ProviderReplyView) -> Seq<char> {
    if reply.choices.len() > 0 {
        match reply.choices[0].content {
            Some(content) => content,
            None => Seq::empty(),
        }
    } else {
        Seq::empty()
    }
}

/// What a completion comes to: its text, or the provider's failure.
pub open spec fn spec_completion_response(reply: Result<ProviderReplyView, Seq<char>>) -> Result<
    Seq<char>,
    Seq<char>,
> {
    match reply {
        Ok(r) => Ok(spec_completion_text(r)),
        Err(why) => Err(why),
    }
}

/// The view of an optional document.
pub open spec fn optional_model(value: Option<JsonValue>) -> Option<JsonView> {
    match value {
        Some(v) => Some(json_model(v)),
        None => None,
    }
}

/// A tool as it is advertised to the provider: its name, what it does, and
/// the JSON schema of its arguments.
#[derive(Debug, PartialEq, Eq)]
pub struct ToolDefinition {
    pub name: String,
    pub description: String,
    pub parameters: JsonValue,
}

/// The model of a [`ToolDefinition`].
pub struct ToolDefinitionView {
    pub name: Seq<char>,
    pub description: Seq<char>,
    pub parameters: JsonView,
}

impl DeepView for ToolDefinition {
    type V = ToolDefinitionView;

    open spec fn deep_view(&self) -> ToolDefinitionView {
        ToolDefinitionView {
            name: self.name@,
            description: self.description@,
            parameters: json_model(self.parameters),
        }
    }
}

/// The schema of one parameter: its type and its description.
pub open spec fn spec_property(parameter: AIFunctionParameterView) -> JsonView {
    JsonView::Object(
        no_members().insert("type"@, JsonView::Text(parameter.param_type)).insert(
            "description"@,
            JsonView::Text(parameter.description),
        ),
    )
}

/// The schemas of the parameters, by name. Of two parameters of one name the
/// later one is kept.
pub open spec fn spec_properties(parameters: Seq<(Seq<char>, AIFunctionParameterView)>) -> Map<
    Seq<char>,
    JsonView,
>
    decreases parameters.len(),
{
    if parameters.len() == 0 {
        no_members()
    } else {
        spec_properties(parameters.drop_last()).insert(
            parameters.last().0,
            spec_property(parameters.last().1),
        )
    }
}

/// Whether the parameter at `index` is given again further on: a later one
/// goes by its name, and takes its place.
pub open spec fn spec_given_again(
    parameters: Seq<(Seq<char>, AIFunctionParameterView)>,
    index: int,
) -> bool {
    exists|later: int|
        index < later < parameters.len() && (#[trigger] parameters[later]).0
            == parameters[index].0
}

/// The names of the parameters that a call must give, among the first `upto`
/// parameters, in order. A parameter that is given again further on does not
/// count: the later one does.
pub open spec fn spec_required_upto(
    parameters: Seq<(Seq<char>, AIFunctionParameterView)>,
    upto: int,
) -> Seq<JsonView>
    decreases upto,
{
    if upto <= 0 {
        Seq::empty()
    } else if parameters[upto - 1].1.required && !spec_given_again(parameters, upto - 1) {
        spec_required_upto(parameters, upto - 1).push(JsonView::Text(parameters[upto - 1].0))
    } else {
        spec_required_upto(parameters, upto - 1)
    }
}

/// The names of the parameters that a call must give, each once, in order.
pub open spec fn spec_required(parameters: Seq<(Seq<char>, AIFunctionParameterView)>) -> Seq<
    JsonView,
> {
    spec_required_upto(parameters, parameters.len() as int)
}

/// The JSON schema of a tool's arguments: an object with the parameters as
/// its properties and the list of those that are required.
pub open spec fn spec_parameter_schema(
    parameters: Seq<(Seq<char>, AIFunctionParameterView)>,
) -> JsonView {
    JsonView::Object(
        no_members().insert("type"@, JsonView::Text("object"@)).insert(
            "properties"@,
            JsonView::Object(spec_properties(parameters)),
        ).insert("required"@, JsonView::Array(spec_required(parameters))),
    )
}

/// How a described tool is advertised to the provider.
pub open spec fn spec_tool_definition(descriptor: FunctionDescriptorView) -> ToolDefinitionView {
    ToolDefinitionView {
        name: descriptor.name,
        description: descriptor.description,
        parameters: spec_parameter_schema(descriptor.parameters),
    }
}

/// The listed tools as they are advertised to the provider.
pub open spec fn spec_function_tools(functions: Seq<BuiltinFunction>) -> Seq<ToolDefinitionView> {
    Seq::new(
        spec_list(functions).len(),
        |i: int| spec_tool_definition(spec_list(functions)[i]),
    )
}

/// Whether the parameter at `index` is given again further on.
fn given_again(parameters: &Vec<(String, AIFunctionParameter)>, index: usize) -> (r: bool)
    requires
        index < parameters@.len(),
    ensures
        r == spec_given_again(parameters.deep_view(), index as int),
{
    let total = parameters.len();
    let mut later: usize = index + 1;
    while later < total
        invariant
            index < later <= total,
            total == parameters@.len(),
            forall|k: int|
                index < k < later ==> (#[trigger] parameters.deep_view()[k]).0
                    != parameters.deep_view()[index as int].0,
        decreases total - later,
    {
        assert(parameters.deep_view()[later as int].0 == parameters@[later as int].0@);
        assert(parameters.deep_view()[index as int].0 == parameters@[index as int].0@);
        if crate::text::str_eq(parameters[later].0.as_str(), parameters[index].0.as_str()) {
            return true;
        }
        later += 1;
    }
    false
}

/// Writes the JSON schema of a tool's arguments.
pub fn parameter_schema(parameters: &Vec<(String, AIFunctionParameter)>) -> (r: JsonValue)
    ensures
        json_model(r) == spec_parameter_schema(parameters.deep_view()),
{
    let mut properties = empty_members();
    let mut required: Vec<JsonValue> = Vec::new();
    let mut i: usize = 0;
    while i < parameters.len()
        invariant
            i <= parameters.len(),
            crate::json::object_members(properties) == spec_properties(
                parameters.deep_view().take(i as int),
            ),
            crate::json::models(required@) == spec_required_upto(
                parameters.deep_view(),
                i as int,
            ),
        decreases parameters.len() - i,
    {
        let ghost before = parameters.deep_view().take(i as int);
        let ghost after = parameters.deep_view().take(i + 1);
        let ghost earlier = crate::json::models(required@);
        assert(after.drop_last() =~= before);
        assert(after.last() == parameters.deep_view()[i as int]);
        let name = &parameters[i].0;
        let parameter = &parameters[i].1;
        let mut property = empty_members();
        insert_member(&mut property, String::from_str("type"), text(parameter.param_type.clone()));
        insert_member(
            &mut property,
            String::from_str("description"),
            text(parameter.description.clone()),
        );
        insert_member(&mut properties, name.clone(), object(property));
        if parameter.required && !given_again(parameters, i) {
            required.push(text(name.clone()));
            assert(crate::json::models(required@) =~= earlier.push(JsonView::Text(name@)));
        }
        i += 1;
    }
    assert(parameters.deep_view().take(parameters.len() as int) =~= parameters.deep_view());
    let mut schema = empty_members();
    insert_member(&mut schema, String::from_str("type"), text(String::from_str("object")));
    insert_member(&mut schema, String::from_str("properties"), object(properties));
    insert_member(&mut schema, String::from_str("required"), array(required));
    object(schema)
}

/// The library's side of the provider service: the tools it can run, what it
/// asks the provider, and what it makes of the replies.
#[derive(Clone, Debug)]
pub struct OpenAIService {
    pub functions: FunctionRegistry<BuiltinFunction>,
}

impl OpenAIService {
    /// A service with the tools that the library ships.
    pub fn new() -> (r: Self)
        ensures
            r.functions.functions@ == spec_all_functions(),
    {
        OpenAIService { functions: FunctionRegistry::new(get_all_functions()) }
    }

    /// The question to put to the provider: the model, the messages, and the
    /// output schema under its fixed name where one is given.
    pub fn completion_request(
        model: &str,
        messages: Vec<ChatMessage>,
        json_schema: Option<JsonValue>,
    ) -> (r: CompletionRequest)
        ensures
            r.deep_view() == spec_completion_request(
                model@,
                messages.deep_view(),
                optional_model(json_schema),
            ),
    {
        let response_format = match json_schema {
            Some(schema) => Some(
                ResponseFormat { name: String::from_str(RESPONSE_FORMAT_NAME), schema },
            ),
            None => None,
        };
        CompletionRequest { model: String::from_str(model), messages, response_format }
    }

    /// What a completion comes to: the text of the reply's first choice
    /// (empty where it has none), or the provider's failure unchanged.
    pub fn get_completion_response(reply: Result<ProviderReply, String>) -> (r: Result<
        String,
        String,
    >)
        ensures
            text_outcome(r) == spec_completion_response(reply_view(reply)),
    {
        match reply {
            Ok(reply) => {
                let mut choices = reply.choices;
                if choices.len() > 0 {
                    let first = choices.swap_remove(0);
                    match first.content {
                        Some(content) => Ok(content),
                        None => Ok(String::new()),
                    }
                } else {
                    Ok(String::new())
                }
            },
            Err(why) => Err(why),
        }
    }

    /// The registered tools as they are advertised to the provider: one
    /// definition per listed tool, in the registry's order.
    pub fn get_function_tools(&self) -> (r: Vec<ToolDefinition>)
        ensures
            r.deep_view() == spec_function_tools(self.functions.functions@),
    {
        let descriptors = self.functions.list();
        let mut tools: Vec<ToolDefinition> = Vec::new();
        let mut i: usize = 0;
        while i < descriptors.len()
            invariant
                i <= descriptors.len(),
                tools@.len() == i,
                descriptors.deep_view() == spec_list(self.functions.functions@),
                forall|k: int|
                    0 <= k < i ==> (#[trigger] tools@[k]).deep_view() == spec_tool_definition(
                        descriptors@[k].deep_view(),
                    ),
            decreases descriptors.len() - i,
        {
            let descriptor = &descriptors[i];
            tools.push(
                ToolDefinition {
                    name: descriptor.name.clone(),
                    description: descriptor.description.clone(),
                    parameters: parameter_schema(&descriptor.parameters),
                },
            );
            i += 1;
        }
        assert(descriptors@.len() == descriptors.deep_view().len());
        assert forall|k: int| 0 <= k < tools@.len() implies (#[trigger] tools@[k]).deep_view()
            == spec_tool_definition(spec_list(self.functions.functions@)[k]) by {
            assert(descriptors.deep_view()[k] == descriptors@[k].deep_view());
        }
        assert(tools.deep_view() =~= spec_function_tools(self.functions.functions@));
        tools
    }
}

/// What a finished tool call puts into the conversation.
#[derive(Clone, Debug, PartialEq, Eq)]
pub enum ToolOutcome {
    /// The text of the tool-result message.
    Message(String),
    /// The result could not be written as text: the conversation ends in
    /// this failure.
    Abort(String),
}

/// The model of a [`ToolOutcome`].
pub enum ToolOutcomeView {
    Message(Seq<char>),
    Abort(Seq<char>),
}

impl DeepView for ToolOutcome {
    type V = ToolOutcomeView;

    open spec fn deep_view(&self) -> ToolOutcomeView {
        match self {
            ToolOutcome::Message(text) => ToolOutcomeView::Message(text@),
            ToolOutcome::Abort(why) => ToolOutcomeView::Abort(why@),
        }
    }
}

/// How far a requested tool call got inside the library.
#[derive(Clone, Debug, PartialEq, Eq)]
pub enum ToolStep {
    /// The call is over.
    Done(ToolOutcome),
    /// The page at `url` has to be fetched; [`OpenAIService::finish_scrape`]
    /// then completes the call.
    Scrape { url: String },
}

/// The model of a [`ToolStep`].
pub enum ToolStepView {
    Done(ToolOutcomeView),
    Scrape { url: Seq<char> },
}

impl DeepView for ToolStep {
    type V = ToolStepView;

    open spec fn deep_view(&self) -> ToolStepView {
        match self {
            ToolStep::Done(outcome) => ToolStepView::Done(outcome.deep_view()),
            ToolStep::Scrape { url } => ToolStepView::Scrape { url: url@ },
        }
    }
}

/// What a tool's result puts into the conversation: the result as JSON text;
/// for a failure its description behind `Error: `; for an unregistered tool
/// the bare sentence that names it.
pub open spec fn spec_tool_outcome(result: Result<JsonView, ToolErrorView>) -> ToolOutcomeView {
    match result {
        Ok(document) => match spec_render(document) {
            Ok(text) => ToolOutcomeView::Message(text),
            Err(why) => ToolOutcomeView::Abort(why),
        },
        Err(e) => if e.kind == ToolErrorKind::UnknownFunction {
            ToolOutcomeView::Message(spec_error_message(e))
        } else {
            ToolOutcomeView::Message("Error: "@ + spec_error_message(e))
        },
    }
}

/// What an invocation comes to inside the library.
pub open spec fn spec_tool_step(invocation: InvocationView) -> ToolStepView {
    match invocation {
        InvocationView::Finished(result) => ToolStepView::Done(spec_tool_outcome(result)),
        InvocationView::Scrape { url } => ToolStepView::Scrape { url },
    }
}

/// The arguments that a call's text stands for: the object it spells, and an
/// object without members where it spells none.
pub open spec fn spec_arguments(text: Seq<char>) -> JsonView {
    match spec_parse(text) {
        Some(JsonView::Object(members)) => JsonView::Object(members),
        _ => JsonView::Object(no_members()),
    }
}

/// Reads the arguments of a call.
pub fn parse_arguments(text: &str) -> (r: JsonValue)
    ensures
        json_model(r) == spec_arguments(text@),
{
    match parse(text) {
        Some(document) => if is_object(&document) {
            document
        } else {
            object(empty_members())
        },
        None => object(empty_members()),
    }
}

/// Turns a tool's result into what the conversation gets to see.
pub fn tool_outcome(result: Result<JsonValue, ToolError>) -> (r: ToolOutcome)
    ensures
        r.deep_view() == spec_tool_outcome(outcome_view(result)),
{
    match result {
        Ok(document) => match render(&document) {
            Ok(text) => ToolOutcome::Message(text),
            Err(why) => ToolOutcome::Abort(why),
        },
        Err(e) => match e.kind {
            ToolErrorKind::UnknownFunction => ToolOutcome::Message(e.message()),
            _ => {
                let mut line = String::from_str("Error: ");
                line.append(e.message().as_str());
                ToolOutcome::Message(line)
            },
        },
    }
}

/// What holds of running `call` on `functions`, however it went: the step is
/// what some outcome of invoking the named tool on the call's arguments
/// comes to.
pub open spec fn spec_run_tool(
    functions: Seq<BuiltinFunction>,
    call: ToolCallView,
    step: ToolStepView,
) -> bool {
    exists|invocation: InvocationView| #[trigger]
        spec_invoke(functions, call.name, spec_arguments(call.arguments), invocation) && step
            == spec_tool_step(invocation)
}

impl OpenAIService {
    /// Runs a tool call that the provider asked for, as far as the library
    /// can.
    pub fn run_tool(&self, call: &ToolCall) -> (r: ToolStep)
        ensures
            spec_run_tool(self.functions.functions@, call.deep_view(), r.deep_view()),
    {
        let arguments = parse_arguments(call.arguments.as_str());
        let invocation = self.functions.invoke(call.name.as_str(), &arguments);
        let ghost witness = invocation.deep_view();
        let step = match invocation {
            Invocation::Finished(result) => ToolStep::Done(tool_outcome(result)),
            Invocation::Scrape { url } => ToolStep::Scrape { url },
        };
        assert(spec_invoke(
            self.functions.functions@,
            call.deep_view().name,
            spec_arguments(call.deep_view().arguments),
            witness,
        ) && step.deep_view() == spec_tool_step(witness));
        step
    }

    /// Completes a tool call that was waiting for the page at `url`.
    pub fn finish_scrape(url: String, scraped: Result<Option<String>, ScrapeFailure>) -> (r:
        ToolOutcome)
        ensures
            r.deep_view() == spec_tool_outcome(spec_complete(url@, scraped_view(scraped))),
    {
        tool_outcome(WebsiteToMdFunction::complete(url, scraped))
    }
}

} // verus!
