//! The tool-calling loop of one conversation, as a state machine.
//!
//! The loop asks the provider, runs the tools that the reply asks for, feeds
//! their results back and asks again, until a reply asks for no tool or the
//! limit of rounds is reached. Asking and running happen outside: the loop
//! says what to do next ([`ToolLoop::next_action`]) and takes what came of it
//! ([`ToolLoop::on_reply`], [`ToolLoop::on_tool_result`]).

use crate::modules::openai::{
    duplicate_calls, reply_view, text_outcome, ChatMessage, ChatMessageView, ProviderReply,
    ProviderReplyView, ToolCall, ToolCallView, ToolOutcome, ToolOutcomeView, FOLLOW_UP_MODEL,
    INTERACTIVE_INSTRUCTION, NO_RESPONSE, OPENING_MODEL,
};
use vstd::prelude::*;
use vstd::string::*;

verus! {

/// Where a conversation stands.
#[derive(Clone, Copy, Debug, PartialEq, Eq, Structural)]
pub enum LoopPhase {
    /// The transcript is to be sent to the provider.
    AwaitingProvider,
    /// Tool calls of the last reply are still to be run.
    ExecutingTools,
    /// The conversation is over.
    Done,
}

/// What is to be done next for a conversation.
#[derive(Debug, PartialEq, Eq)]
pub enum LoopAction {
    /// Send the transcript and the tool definitions to `model`.
    AskProvider { model: String },
    /// Run this tool call.
    RunTool { call: ToolCall },
    /// Nothing is left to do: this is the conversation's result.
    Finish { outcome: Result<String, String> },
}

/// The model of a [`LoopAction`].
pub enum LoopActionView {
    AskProvider { model: Seq<char> },
    RunTool { call: ToolCallView },
    Finish { outcome: Result<Seq<char>, Seq<char>> },
}

impl DeepView for LoopAction {
    type V = LoopActionView;

    open spec fn deep_view(&self) -> LoopActionView {
        match self {
            LoopAction::AskProvider { model } => LoopActionView::AskProvider { model: model@ },
            LoopAction::RunTool { call } => LoopActionView::RunTool { call: call.deep_view() },
            LoopAction::Finish { outcome } => LoopActionView::Finish {
                outcome: text_outcome(*outcome),
            },
        }
    }
}

/// The model of a [`ToolLoop`].
pub struct ToolLoopView {
    /// The messages so far.
    pub transcript: Seq<ChatMessageView>,
    /// The tool calls of the last reply, in the order asked for.
    pub pending: Seq<ToolCallView>,
    /// How many of `pending` have been run.
    pub cursor: nat,
    /// How many replies of the provider have come in.
    pub rounds: nat,
    /// How many replies the conversation may take, at most.
    pub max_rounds: nat,
    /// The result, once the conversation is over.
    pub outcome: Option<Result<Seq<char>, Seq<char>>>,
}

impl ToolLoopView {
    /// Where the conversation stands: over once it has a result, running
    /// tools while pending calls are left, awaiting the provider otherwise.
    pub open spec fn phase(self) -> LoopPhase {
        if self.outcome is Some {
            LoopPhase::Done
        } else if self.cursor < self.pending.len() {
            LoopPhase::ExecutingTools
        } else {
            LoopPhase::AwaitingProvider
        }
    }

    /// What every conversation keeps: it never takes more replies than its
    /// limit, and while it goes on it has taken fewer.
    pub open spec fn wf(self) -> bool {
        &&& self.max_rounds >= 1
        &&& self.rounds <= self.max_rounds
        &&& self.outcome is None ==> self.rounds < self.max_rounds
        &&& self.cursor <= self.pending.len()
    }
}

/// The tool calls that a reply asks for: those of its first choice.
pub open spec fn spec_requested_calls(reply: ProviderReplyView) -> Seq<ToolCallView> {
    if reply.choices.len() > 0 {
        match reply.choices[0].tool_calls {
            Some(calls) => calls,
            None => Seq::empty(),
        }
    } else {
        Seq::empty()
    }
}

/// The text that a reply gives: that of its first choice, and a fixed
/// sentence where it has none.
pub open spec fn spec_reply_text(reply: ProviderReplyView) -> Seq<char> {
    if reply.choices.len() > 0 {
        match reply.choices[0].content {
            Some(content) => content,
            None => NO_RESPONSE@,
        }
    } else {
        NO_RESPONSE@
    }
}

/// A conversation at its start: the system instruction and the user's
/// prompt, nothing asked yet. A limit of 0 counts as 1.
pub open spec fn spec_start(prompt: Seq<char>, max_rounds: nat) -> ToolLoopView {
    ToolLoopView {
        transcript: seq![
            ChatMessageView::System { content: INTERACTIVE_INSTRUCTION@ },
            ChatMessageView::User { content: prompt },
        ],
        pending: Seq::empty(),
        cursor: 0,
        rounds: 0,
        max_rounds: if max_rounds == 0 {
            1
        } else {
            max_rounds
        },
        outcome: None,
    }
}

/// The conversation after the provider's reply. Outside
/// [`LoopPhase::AwaitingProvider`] nothing changes. A failure of the provider
/// ends the conversation in that failure. A reply that asks for no tool ends
/// it with the reply's text, and so does one that comes in as the last
/// reply the limit allows. Any other reply is recorded as the assistant's
/// message, and its calls become the pending ones.
pub open spec fn spec_on_reply(
    s: ToolLoopView,
    reply: Result<ProviderReplyView, Seq<char>>,
) -> ToolLoopView {
    if s.phase() != LoopPhase::AwaitingProvider {
        s
    } else {
        match reply {
            Err(why) => ToolLoopView { rounds: s.rounds + 1, outcome: Some(Err(why)), ..s },
            Ok(reply) => {
                let calls = spec_requested_calls(reply);
                if calls.len() == 0 || s.rounds + 1 >= s.max_rounds {
                    ToolLoopView {
                        rounds: s.rounds + 1,
                        outcome: Some(Ok(spec_reply_text(reply))),
                        ..s
                    }
                } else {
                    ToolLoopView {
                        transcript: s.transcript.push(
                            ChatMessageView::Assistant {
                                content: reply.choices[0].content,
                                tool_calls: Some(calls),
                            },
                        ),
                        pending: calls,
                        cursor: 0,
                        rounds: s.rounds + 1,
                        ..s
                    }
                }
            },
        }
    }
}

/// The conversation after the pending call at the cursor has been run.
/// Outside [`LoopPhase::ExecutingTools`] nothing changes. A message is
/// recorded as that call's tool result, under the call's identifier, and the
/// cursor moves on; a result that could not be written ends the conversation.
pub open spec fn spec_on_tool_result(s: ToolLoopView, outcome: ToolOutcomeView) -> ToolLoopView {
    if s.phase() != LoopPhase::ExecutingTools {
        s
    } else {
        match outcome {
            ToolOutcomeView::Message(content) => ToolLoopView {
                transcript: s.transcript.push(
                    ChatMessageView::Tool {
                        content,
                        tool_call_id: s.pending[s.cursor as int].id,
                    },
                ),
                cursor: s.cursor + 1,
                ..s
            },
            ToolOutcomeView::Abort(why) => ToolLoopView { outcome: Some(Err(why)), ..s },
        }
    }
}

/// What is to be done next in state `s`.
pub open spec fn spec_action(s: ToolLoopView) -> LoopActionView {
    match s.phase() {
        LoopPhase::Done => LoopActionView::Finish { outcome: s.outcome->0 },
        LoopPhase::ExecutingTools => LoopActionView::RunTool { call: s.pending[s.cursor as int] },
        LoopPhase::AwaitingProvider => LoopActionView::AskProvider {
            model: if s.rounds == 0 {
                OPENING_MODEL@
            } else {
                FOLLOW_UP_MODEL@
            },
        },
    }
}

/// One tool-calling conversation.
#[derive(Debug)]
pub struct ToolLoop {
    transcript: Vec<ChatMessage>,
    pending: Vec<ToolCall>,
    cursor: usize,
    rounds: usize,
    max_rounds: usize,
    outcome: Option<Result<String, String>>,
}

impl View for ToolLoop {
    type V = ToolLoopView;

    closed spec fn view(&self) -> ToolLoopView {
        ToolLoopView {
            transcript: self.transcript.deep_view(),
            pending: self.pending.deep_view(),
            cursor: self.cursor as nat,
            rounds: self.rounds as nat,
            max_rounds: self.max_rounds as nat,
            outcome: match self.outcome {
                Some(r) => Some(text_outcome(r)),
                None => None,
            },
        }
    }
}

impl ToolLoop {
    #[verifier::type_invariant]
    spec fn inv(self) -> bool {
        self@.wf()
    }

    /// Opens a conversation on `prompt` that takes at most `max_rounds`
    /// replies of the provider (a limit of 0 counts as 1).
    pub fn start(prompt: &str, max_rounds: usize) -> (r: ToolLoop)
        ensures
            r@ == spec_start(prompt@, max_rounds as nat),
    {
        let mut transcript: Vec<ChatMessage> = Vec::new();
        transcript.push(ChatMessage::system(INTERACTIVE_INSTRUCTION));
        transcript.push(ChatMessage::user(prompt));
        let pending: Vec<ToolCall> = Vec::new();
        assert(transcript.deep_view() =~= spec_start(prompt@, max_rounds as nat).transcript);
        assert(pending.deep_view() =~= Seq::<ToolCallView>::empty());
        ToolLoop {
            transcript,
            pending,
            cursor: 0,
            rounds: 0,
            max_rounds: if max_rounds == 0 {
                1
            } else {
                max_rounds
            },
            outcome: None,
        }
    }

    /// Where the conversation stands.
    pub fn phase(&self) -> (r: LoopPhase)
        ensures
            r == self@.phase(),
    {
        if self.outcome.is_some() {
            LoopPhase::Done
        } else if self.cursor < self.pending.len() {
            LoopPhase::ExecutingTools
        } else {
            LoopPhase::AwaitingProvider
        }
    }

    /// The messages so far, as they are sent to the provider.
    pub fn transcript(&self) -> (r: &Vec<ChatMessage>)
        ensures
            r.deep_view() == self@.transcript,
    {
        &self.transcript
    }

    /// How many replies of the provider have come in: never more than the
    /// limit.
    pub fn rounds(&self) -> (r: usize)
        ensures
            r == self@.rounds,
            r <= self@.max_rounds,
            self@.wf(),
    {
        proof {
            use_type_invariant(self);
        }
        self.rounds
    }

    /// What is to be done next.
    pub fn next_action(&self) -> (r: LoopAction)
        ensures
            r.deep_view() == spec_action(self@),
    {
        proof {
            use_type_invariant(self);
        }
        match &self.outcome {
            Some(Ok(text)) => LoopAction::Finish { outcome: Ok(text.clone()) },
            Some(Err(why)) => LoopAction::Finish { outcome: Err(why.clone()) },
            None => if self.cursor < self.pending.len() {
                LoopAction::RunTool { call: self.pending[self.cursor].duplicate() }
            } else if self.rounds == 0 {
                LoopAction::AskProvider { model: String::from_str(OPENING_MODEL) }
            } else {
                LoopAction::AskProvider { model: String::from_str(FOLLOW_UP_MODEL) }
            },
        }
    }

    /// Takes the provider's reply to the transcript.
    pub fn on_reply(self, reply: Result<ProviderReply, String>) -> (r: ToolLoop)
        ensures
            r@ == spec_on_reply(self@, reply_view(reply)),
    {
        proof {
            use_type_invariant(&self);
        }
        if self.outcome.is_some() || self.cursor < self.pending.len() {
            return self;
        }
        let ghost before = self@;
        let ToolLoop { transcript, pending, cursor, rounds, max_rounds, outcome } = self;
        let mut transcript = transcript;
        match reply {
            Err(why) => ToolLoop {
                transcript,
                pending,
                cursor,
                rounds: rounds + 1,
                max_rounds,
                outcome: Some(Err(why)),
            },
            Ok(reply) => {
                let ghost answer = reply.deep_view();
                let mut choices = reply.choices;
                let first = if choices.len() > 0 {
                    Some(choices.swap_remove(0))
                } else {
                    None
                };
                let (content, calls) = match first {
                    Some(choice) => (choice.content, choice.tool_calls),
                    None => (None, None),
                };
                assert(content.deep_view() == if answer.choices.len() > 0 {
                    answer.choices[0].content
                } else {
                    None
                });
                let calls = match calls {
                    Some(calls) => calls,
                    None => Vec::new(),
                };
                assert(calls.deep_view() =~= spec_requested_calls(answer));
                if calls.len() == 0 || rounds + 1 >= max_rounds {
                    let text = match content {
                        Some(text) => text,
                        None => String::from_str(NO_RESPONSE),
                    };
                    ToolLoop {
                        transcript,
                        pending,
                        cursor,
                        rounds: rounds + 1,
                        max_rounds,
                        outcome: Some(Ok(text)),
                    }
                } else {
                    let message = ChatMessage::Assistant {
                        content,
                        tool_calls: Some(duplicate_calls(&calls)),
                    };
                    let ghost recorded = message.deep_view();
                    transcript.push(message);
                    assert(transcript.deep_view() =~= before.transcript.push(recorded));
                    ToolLoop {
                        transcript,
                        pending: calls,
                        cursor: 0,
                        rounds: rounds + 1,
                        max_rounds,
                        outcome: None,
                    }
                }
            },
        }
    }

    /// Takes what running the pending call at the cursor came to.
    pub fn on_tool_result(self, outcome: ToolOutcome) -> (r: ToolLoop)
        ensures
            r@ == spec_on_tool_result(self@, outcome.deep_view()),
    {
        proof {
            use_type_invariant(&self);
        }
        if self.outcome.is_some() || self.cursor >= self.pending.len() {
            return self;
        }
        let ghost before = self@;
        let ToolLoop { transcript, pending, cursor, rounds, max_rounds, outcome: _ } = self;
        let mut transcript = transcript;
        match outcome {
            ToolOutcome::Message(content) => {
                let message = ChatMessage::Tool {
                    content,
                    tool_call_id: pending[cursor].id.clone(),
                };
                let ghost recorded = message.deep_view();
                transcript.push(message);
                assert(transcript.deep_view() =~= before.transcript.push(recorded));
                ToolLoop {
                    transcript,
                    pending,
                    cursor: cursor + 1,
                    rounds,
                    max_rounds,
                    outcome: None,
                }
            },
            ToolOutcome::Abort(why) => ToolLoop {
                transcript,
                pending,
                cursor,
                rounds,
                max_rounds,
                outcome: Some(Err(why)),
            },
        }
    }
}

impl crate::modules::openai::OpenAIService {
    /// Opens a tool-calling conversation on `prompt`, with the usual limit
    /// of rounds.
    pub fn process_openai_interactive(&self, prompt: &str) -> (r: ToolLoop)
        ensures
            r@ == spec_start(prompt@, crate::modules::openai::DEFAULT_MAX_ROUNDS as nat),
    {
        ToolLoop::start(prompt, crate::modules::openai::DEFAULT_MAX_ROUNDS)
    }
}

/// How much is left of a conversation, at most: the replies it may still
/// take, and the pending calls still to run.
pub open spec fn spec_remaining(s: ToolLoopView) -> (nat, nat) {
    if s.outcome is Some {
        (0, 0)
    } else {
        ((s.max_rounds - s.rounds) as nat, (s.pending.len() - s.cursor) as nat)
    }
}

/// A conversation keeps within its limit: it starts within it, and no reply
/// and no tool result takes it beyond.
pub proof fn lemma_loop_stays_bounded(
    s: ToolLoopView,
    reply: Result<ProviderReplyView, Seq<char>>,
    outcome: ToolOutcomeView,
    prompt: Seq<char>,
    max_rounds: nat,
)
    requires
        s.wf(),
    ensures
        spec_start(prompt, max_rounds).wf(),
        spec_on_reply(s, reply).wf(),
        spec_on_tool_result(s, outcome).wf(),
        spec_on_reply(s, reply).rounds <= s.max_rounds,
{
}

/// A conversation comes to an end: every reply that is taken while the
/// provider is awaited uses up one of the rounds that are left, and every
/// tool result that is taken while tools are run uses up one of the pending
/// calls, unless the conversation is over with it.
pub proof fn lemma_loop_progress(
    s: ToolLoopView,
    reply: Result<ProviderReplyView, Seq<char>>,
    outcome: ToolOutcomeView,
)
    requires
        s.wf(),
    ensures
        s.phase() == LoopPhase::AwaitingProvider ==> spec_on_reply(s, reply).phase()
            == LoopPhase::Done || spec_remaining(spec_on_reply(s, reply)).0 < spec_remaining(s).0,
        s.phase() == LoopPhase::ExecutingTools ==> spec_on_tool_result(s, outcome).phase()
            == LoopPhase::Done || (spec_remaining(spec_on_tool_result(s, outcome)).0
            == spec_remaining(s).0 && spec_remaining(spec_on_tool_result(s, outcome)).1
            < spec_remaining(s).1),
{
}

} // verus!
