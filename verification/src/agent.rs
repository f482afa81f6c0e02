//! The orchestration loop.
//!
//! One run serves one message of the user. The agent sends the transcript to
//! the model, reads the reply as it streams in, and looks for an invocation
//! in it. Where there is one, the tool is run and what it returned goes back
//! to the model; where there is none, the reply is the answer. A run has a
//! budget of tool rounds; when it is spent, one last request, not streamed,
//! asks the model for a summary.
//!
//! Requests and tools are not run from here. `Agent::step` takes what has
//! happened as an `Event` and says what is to be done next as an `Action`;
//! the caller performs the action and comes back with the next event.

use crate::app::{App, AppView};
use crate::conversation::{result_text, turns, Role, ToolOutcome, ToolOutcomeView, Turn, TurnView};
use crate::invocation::{invocation_in, parse_tool_call};
use crate::llm::{messages, LlmError, LlmErrorView, Message};
use crate::operation::Operation;
use crate::phrase::{cat2, cat3, cat4};
use crate::prompt::{build_system_prompt, opt_str, system_prompt, PLANNING_REMINDER};
use crate::text::{decimal, format_usize, opt_text, texts};
pub use crate::tool::Tool;
use crate::tool::{opt_tool, ToolView};
use vstd::prelude::*;

verus! {

/// The number of tool rounds that a run may take, unless told otherwise.
pub const DEFAULT_MAX_ATTEMPTS: usize = 8;

/// Where the loop stands.
#[derive(Clone, Copy, Debug, PartialEq, Eq, Structural)]
pub enum Phase {
    /// No message of the user has come yet.
    Idle,
    /// A streamed completion has been asked for; its chunks are coming in.
    AwaitingModel,
    /// An invocation was found and is being run.
    ToolRound,
    /// The budget is spent; the summary has been asked for.
    Summarizing,
    /// The run has ended. The next message of the user begins a new one.
    Terminal,
}

/// What has happened since the last action.
#[derive(Debug)]
pub enum Event {
    /// The user has sent a message. `custom_instructions` is the text that
    /// the user keeps for the system prompt, if any.
    UserMessage { prompt: String, custom_instructions: Option<String> },
    /// One more chunk of the reply has come.
    Chunk(String),
    /// The stream has come to its end.
    StreamEnded,
    /// The streamed request was refused before any chunk came.
    StreamRefused(LlmError),
    /// The stream broke off with an error.
    StreamBroken(LlmError),
    /// The tool has returned: its text, or its diagnostic.
    ToolFinished(Result<String, String>),
    /// The summary has come, with the estimated tokens of the exchange.
    SummaryReceived { text: String, tokens: u64 },
    /// The request for the summary failed.
    SummaryFailed(LlmError),
}

/// The mathematical value of an `Event`.
pub ghost enum EventView {
    UserMessage { prompt: Seq<char>, custom_instructions: Option<Seq<char>> },
    Chunk(Seq<char>),
    StreamEnded,
    StreamRefused(LlmErrorView),
    StreamBroken(LlmErrorView),
    ToolFinished(Result<Seq<char>, Seq<char>>),
    SummaryReceived { text: Seq<char>, tokens: u64 },
    SummaryFailed(LlmErrorView),
}

impl View for Event {
    type V = EventView;

    open spec fn view(&self) -> EventView {
        match self {
            Event::UserMessage { prompt, custom_instructions } => EventView::UserMessage {
                prompt: prompt@,
                custom_instructions: opt_text(*custom_instructions),
            },
            Event::Chunk(text) => EventView::Chunk(text@),
            Event::StreamEnded => EventView::StreamEnded,
            Event::StreamRefused(e) => EventView::StreamRefused(e@),
            Event::StreamBroken(e) => EventView::StreamBroken(e@),
            Event::ToolFinished(r) => EventView::ToolFinished(result_text(*r)),
            Event::SummaryReceived { text, tokens } => EventView::SummaryReceived {
                text: text@,
                tokens: *tokens,
            },
            Event::SummaryFailed(e) => EventView::SummaryFailed(e@),
        }
    }
}

/// What is to be done next.
#[derive(Debug)]
pub enum Action {
    /// Ask the model for a streamed completion over the transcript.
    RequestStream,
    /// Go on reading the stream.
    AwaitChunk,
    /// Run the tool and come back with what it returned.
    Dispatch(Tool),
    /// Ask the model for one completion, not streamed, over the transcript.
    RequestSummary,
    /// The run is over: the answer and the log of the tool rounds.
    Finish { text: String, tool_log: Vec<String> },
    /// The run is over: the model could not be reached or read.
    Fail(LlmError),
    /// The event does not fit the phase; nothing has changed.
    Rejected,
}

/// The mathematical value of an `Action`.
pub ghost enum ActionView {
    RequestStream,
    AwaitChunk,
    Dispatch(ToolView),
    RequestSummary,
    Finish { text: Seq<char>, tool_log: Seq<Seq<char>> },
    Fail(LlmErrorView),
    Rejected,
}

impl View for Action {
    type V = ActionView;

    open spec fn view(&self) -> ActionView {
        match self {
            Action::RequestStream => ActionView::RequestStream,
            Action::AwaitChunk => ActionView::AwaitChunk,
            Action::Dispatch(tool) => ActionView::Dispatch(tool@),
            Action::RequestSummary => ActionView::RequestSummary,
            Action::Finish { text, tool_log } => ActionView::Finish {
                text: text@,
                tool_log: texts(tool_log@),
            },
            Action::Fail(e) => ActionView::Fail(e@),
            Action::Rejected => ActionView::Rejected,
        }
    }
}

/// The reminder turn that follows the system prompt.
pub open spec fn reminder_turn() -> TurnView {
    TurnView { role: Role::System, text: PLANNING_REMINDER@ }
}

/// The turn that holds a reply of the model.
pub open spec fn assistant_turn(text: Seq<char>) -> TurnView {
    TurnView { role: Role::Assistant, text }
}

/// The log line that announces tool round `round`.
pub open spec fn attempt_line(round: nat, label: Seq<char>) -> Seq<char> {
    "[ATTEMPT "@ + decimal(round) + "] Executing "@ + label
}

/// The log line for what a tool returned.
pub open spec fn result_line(result: Result<Seq<char>, Seq<char>>) -> Seq<char> {
    match result {
        Ok(text) => "[SUCCESS] "@ + text,
        Err(diagnostic) => "[ERROR] "@ + diagnostic,
    }
}

/// The log line that closes a run which took tool rounds and ended with an
/// answer in model round `rounds`.
pub open spec fn complete_line(rounds: nat) -> Seq<char> {
    "[COMPLETE] Task completed after "@ + decimal(rounds) + " attempts"@
}

/// The log line that marks a run which spent its budget of `max` rounds.
pub open spec fn budget_line(max: nat) -> Seq<char> {
    "[WARNING] Reached maximum attempts ("@ + decimal(max) + ")"@
}

/// What the display shows where the streamed request was refused.
pub open spec fn refused_notice() -> Seq<char> {
    "Error: Failed to start streaming response"@
}

/// What the display shows where the stream broke off.
pub open spec fn broken_notice(e: LlmErrorView) -> Seq<char> {
    "Error in streaming: "@ + e.message()
}

/// The mathematical value of an `Agent`.
pub ghost struct AgentView {
    /// The transcript.
    pub turns: Seq<TurnView>,
    pub phase: Phase,
    /// Tool rounds completed in the current run.
    pub attempts: usize,
    /// The budget of tool rounds of a run.
    pub max_attempts: usize,
    /// The text of the reply that has streamed in so far.
    pub response: Seq<char>,
    /// The operation that is being run.
    pub pending: Option<Operation>,
    /// The log of the current run.
    pub tool_log: Seq<Seq<char>>,
}

impl AgentView {
    /// Whether a message of the user would begin a run.
    pub open spec fn at_rest(self) -> bool {
        self.phase == Phase::Idle || self.phase == Phase::Terminal
    }

    /// The invariant of the loop. The transcript is empty or begins with the
    /// system prompt and the reminder, and holds no other system turn; a tool
    /// is pending in a tool round and at no other time; and while a run can
    /// still call a tool, a budget that allows any round is not yet spent.
    pub open spec fn well_formed(self) -> bool {
        &&& self.turns.len() > 0 ==> self.turns.len() >= 2 && self.turns[0].role == Role::System
            && self.turns[1] == reminder_turn()
        &&& forall|i: int|
            2 <= i < self.turns.len() ==> (#[trigger] self.turns[i]).role != Role::System
        &&& self.phase == Phase::ToolRound <==> self.pending is Some
        &&& self.phase == Phase::AwaitingModel || self.phase == Phase::ToolRound ==> self.attempts
            < self.max_attempts || self.attempts == 0
        &&& !self.at_rest() ==> self.turns.len() >= 3
    }

    /// The transcript with the system prompt and the reminder in front, where
    /// it was empty.
    pub open spec fn opened(self, custom: Option<Seq<char>>) -> Seq<TurnView> {
        if self.turns.len() == 0 {
            seq![TurnView { role: Role::System, text: system_prompt(custom) }, reminder_turn()]
        } else {
            self.turns
        }
    }

    /// The log with which a run ends that found no invocation in the last
    /// reply.
    pub open spec fn closing_log(self) -> Seq<Seq<char>> {
        if self.attempts >= 1 {
            self.tool_log.push(complete_line((self.attempts + 1) as nat))
        } else {
            self.tool_log
        }
    }

    /// Whether the tool round that is under way spends the budget.
    pub open spec fn last_round(self) -> bool {
        self.attempts + 1 >= self.max_attempts
    }

    /// The state after the event.
    pub open spec fn next(self, e: EventView) -> AgentView {
        match e {
            EventView::UserMessage { prompt, custom_instructions } => if self.at_rest() {
                AgentView {
                    turns: self.opened(custom_instructions).push(
                        TurnView { role: Role::User, text: prompt },
                    ),
                    phase: Phase::AwaitingModel,
                    attempts: 0,
                    response: Seq::empty(),
                    pending: None,
                    tool_log: Seq::empty(),
                    ..self
                }
            } else {
                self
            },
            EventView::Chunk(text) => if self.phase == Phase::AwaitingModel {
                AgentView { response: self.response + text, ..self }
            } else {
                self
            },
            EventView::StreamEnded => if self.phase == Phase::AwaitingModel {
                match invocation_in(self.response) {
                    Some(tool) => AgentView {
                        turns: self.turns.push(assistant_turn(self.response)),
                        phase: Phase::ToolRound,
                        response: Seq::empty(),
                        pending: Some(tool.operation()),
                        tool_log: self.tool_log.push(
                            attempt_line((self.attempts + 1) as nat, tool.label()),
                        ),
                        ..self
                    },
                    None => AgentView {
                        turns: self.turns.push(assistant_turn(self.response)),
                        phase: Phase::Terminal,
                        response: Seq::empty(),
                        tool_log: Seq::empty(),
                        ..self
                    },
                }
            } else {
                self
            },
            EventView::StreamRefused(_) | EventView::StreamBroken(_) => if self.phase
                == Phase::AwaitingModel {
                AgentView {
                    phase: Phase::Terminal,
                    response: Seq::empty(),
                    tool_log: Seq::empty(),
                    ..self
                }
            } else {
                self
            },
            EventView::ToolFinished(result) => if self.phase == Phase::ToolRound
                && self.pending is Some {
                AgentView {
                    turns: self.turns.push(
                        TurnView {
                            role: Role::ToolResult,
                            text: ToolOutcomeView::of(
                                self.pending->0,
                                result,
                            ).turn_text(),
                        },
                    ),
                    phase: if self.last_round() {
                        Phase::Summarizing
                    } else {
                        Phase::AwaitingModel
                    },
                    attempts: (self.attempts + 1) as usize,
                    pending: None,
                    tool_log: self.tool_log.push(result_line(result)),
                    ..self
                }
            } else {
                self
            },
            EventView::SummaryReceived { text, tokens } => if self.phase == Phase::Summarizing {
                AgentView {
                    turns: self.turns.push(assistant_turn(text)),
                    phase: Phase::Terminal,
                    tool_log: Seq::empty(),
                    ..self
                }
            } else {
                self
            },
            EventView::SummaryFailed(_) => if self.phase == Phase::Summarizing {
                AgentView { phase: Phase::Terminal, tool_log: Seq::empty(), ..self }
            } else {
                self
            },
        }
    }

    /// What is to be done after the event.
    pub open spec fn action(self, e: EventView) -> ActionView {
        match e {
            EventView::UserMessage { .. } => if self.at_rest() {
                ActionView::RequestStream
            } else {
                ActionView::Rejected
            },
            EventView::Chunk(_) => if self.phase == Phase::AwaitingModel {
                ActionView::AwaitChunk
            } else {
                ActionView::Rejected
            },
            EventView::StreamEnded => if self.phase == Phase::AwaitingModel {
                match invocation_in(self.response) {
                    Some(tool) => ActionView::Dispatch(tool),
                    None => ActionView::Finish {
                        text: self.response,
                        tool_log: self.closing_log(),
                    },
                }
            } else {
                ActionView::Rejected
            },
            EventView::StreamRefused(e) | EventView::StreamBroken(e) => if self.phase
                == Phase::AwaitingModel {
                ActionView::Fail(e)
            } else {
                ActionView::Rejected
            },
            EventView::ToolFinished(_) => if self.phase == Phase::ToolRound
                && self.pending is Some {
                if self.last_round() {
                    ActionView::RequestSummary
                } else {
                    ActionView::RequestStream
                }
            } else {
                ActionView::Rejected
            },
            EventView::SummaryReceived { text, tokens } => if self.phase == Phase::Summarizing {
                ActionView::Finish {
                    text,
                    tool_log: self.tool_log.push(budget_line(self.max_attempts as nat)),
                }
            } else {
                ActionView::Rejected
            },
            EventView::SummaryFailed(e) => if self.phase == Phase::Summarizing {
                ActionView::Fail(e)
            } else {
                ActionView::Rejected
            },
        }
    }

    /// What the display shows after the event, where it showed `d` before.
    pub open spec fn display(self, d: AppView, e: EventView) -> AppView {
        match e {
            EventView::UserMessage { .. } => if self.at_rest() {
                d.streaming_started()
            } else {
                d
            },
            EventView::Chunk(text) => if self.phase == Phase::AwaitingModel {
                d.chunk_published(text)
            } else {
                d
            },
            EventView::StreamEnded => if self.phase == Phase::AwaitingModel {
                match invocation_in(self.response) {
                    Some(_) => d.request_counted(),
                    None => d.request_counted().streaming_finished(self.response),
                }
            } else {
                d
            },
            EventView::StreamRefused(_) => if self.phase == Phase::AwaitingModel {
                d.streaming_finished(refused_notice())
            } else {
                d
            },
            EventView::StreamBroken(e) => if self.phase == Phase::AwaitingModel {
                d.streaming_finished(broken_notice(e))
            } else {
                d
            },
            EventView::ToolFinished(result) => if self.phase == Phase::ToolRound
                && self.pending is Some {
                let counted = if result is Ok {
                    d.tool_counted()
                } else {
                    d
                };
                if self.last_round() {
                    counted
                } else {
                    counted.streaming_started()
                }
            } else {
                d
            },
            EventView::SummaryReceived { text, tokens } => if self.phase == Phase::Summarizing {
                d.tokens_counted(tokens).streaming_finished(text)
            } else {
                d
            },
            EventView::SummaryFailed(_) => d,
        }
    }
}

/// The loop object: the transcript and the state of the current run.
#[derive(Debug, Clone)]
pub struct Agent {
    turns: Vec<Turn>,
    phase: Phase,
    attempts: usize,
    max_attempts: usize,
    response: String,
    pending: Option<Operation>,
    tool_log: Vec<String>,
}

impl View for Agent {
    type V = AgentView;

    closed spec fn view(&self) -> AgentView {
        AgentView {
            turns: turns(self.turns@),
            phase: self.phase,
            attempts: self.attempts,
            max_attempts: self.max_attempts,
            response: self.response@,
            pending: self.pending,
            tool_log: texts(self.tool_log@),
        }
    }
}

impl Default for Agent {
    fn default() -> (r: Self)
        ensures
            r@ == Agent::initial(DEFAULT_MAX_ATTEMPTS),
    {
        Agent::new()
    }
}

impl Agent {
    /// The value of an agent that has not heard from the user yet.
    pub open spec fn initial(max_attempts: usize) -> AgentView {
        AgentView {
            turns: Seq::empty(),
            phase: Phase::Idle,
            attempts: 0,
            max_attempts,
            response: Seq::empty(),
            pending: None,
            tool_log: Seq::empty(),
        }
    }

    /// An agent with the default budget.
    pub fn new() -> (r: Self)
        ensures
            r@ == Agent::initial(DEFAULT_MAX_ATTEMPTS),
            r@.well_formed(),
    {
        Agent::with_max_attempts(DEFAULT_MAX_ATTEMPTS)
    }

    /// An agent whose runs may take `max_attempts` tool rounds.
    pub fn with_max_attempts(max_attempts: usize) -> (r: Self)
        ensures
            r@ == Agent::initial(max_attempts),
            r@.well_formed(),
    {
        let r = Agent {
            turns: Vec::new(),
            phase: Phase::Idle,
            attempts: 0,
            max_attempts,
            response: String::new(),
            pending: None,
            tool_log: Vec::new(),
        };
        assert(turns(r.turns@) =~= Seq::<TurnView>::empty());
        assert(texts(r.tool_log@) =~= Seq::<Seq<char>>::empty());
        r
    }

    /// The system prompt with the given custom instructions.
    pub fn get_system_prompt(custom: Option<&str>) -> (r: String)
        ensures
            r@ == system_prompt(opt_str(custom)),
    {
        build_system_prompt(custom)
    }

    /// Finds the invocation that a reply asks for.
    pub fn parse_tool_call(&self, response: &str) -> (r: Option<Tool>)
        ensures
            opt_tool(r) == invocation_in(response@),
    {
        parse_tool_call(response)
    }

    /// Where the loop stands.
    pub fn phase(&self) -> (r: Phase)
        ensures
            r == self@.phase,
    {
        self.phase
    }

    /// Tool rounds completed in the current run.
    pub fn attempts(&self) -> (r: usize)
        ensures
            r == self@.attempts,
    {
        self.attempts
    }

    /// The budget of tool rounds of a run.
    pub fn max_attempts(&self) -> (r: usize)
        ensures
            r == self@.max_attempts,
    {
        self.max_attempts
    }

    /// The transcript.
    pub fn turns(&self) -> (r: &Vec<Turn>)
        ensures
            turns(r@) == self@.turns,
    {
        &self.turns
    }

    /// The transcript as the messages of a chat request.
    pub fn messages(&self) -> (r: Vec<Message>)
        ensures
            messages(r@) == self@.turns.map_values(|t: TurnView| t.message()),
    {
        let mut out: Vec<Message> = Vec::new();
        let mut i: usize = 0;
        while i < self.turns.len()
            invariant
                i <= self.turns.len(),
                out.len() == i,
                forall|j: int| 0 <= j < i ==> out@[j]@ == self.turns@[j]@.message(),
            decreases self.turns.len() - i,
        {
            out.push(self.turns[i].to_message());
            i += 1;
        }
        assert(messages(out@) =~= turns(self.turns@).map_values(|t: TurnView| t.message()));
        out
    }

    fn push_turn(&mut self, role: Role, text: String)
        ensures
            final(self)@ == (AgentView {
                turns: old(self)@.turns.push(TurnView { role, text: text@ }),
                ..old(self)@
            }),
    {
        self.turns.push(Turn::new(role, text));
        assert(turns(self.turns@) =~= turns(old(self).turns@).push(
            TurnView { role, text: text@ },
        ));
    }

    fn push_log(&mut self, line: String)
        ensures
            final(self)@ == (AgentView { tool_log: old(self)@.tool_log.push(line@), ..old(self)@ }),
    {
        self.tool_log.push(line);
        assert(texts(self.tool_log@) =~= texts(old(self).tool_log@).push(line@));
    }

    fn take_log(&mut self) -> (r: Vec<String>)
        ensures
            texts(r@) == old(self)@.tool_log,
            final(self)@ == (AgentView { tool_log: Seq::empty(), ..old(self)@ }),
    {
        let mut log: Vec<String> = Vec::new();
        core::mem::swap(&mut self.tool_log, &mut log);
        assert(texts(self.tool_log@) =~= Seq::<Seq<char>>::empty());
        log
    }

    fn take_response(&mut self) -> (r: String)
        ensures
            r@ == old(self)@.response,
            final(self)@ == (AgentView { response: Seq::empty(), ..old(self)@ }),
    {
        let mut text = String::new();
        core::mem::swap(&mut self.response, &mut text);
        text
    }

    /// Takes one event, moves the loop on, updates the display, and says
    /// what is to be done next.
    pub fn step(&mut self, display: &mut App, event: Event) -> (action: Action)
        requires
            old(self)@.well_formed(),
        ensures
            final(self)@.well_formed(),
            final(self)@ == old(self)@.next(event@),
            action@ == old(self)@.action(event@),
            final(display)@ == old(self)@.display(old(display)@, event@),
    {
        match event {
            Event::UserMessage { prompt, custom_instructions } => {
                if self.phase == Phase::Idle || self.phase == Phase::Terminal {
                    if self.turns.len() == 0 {
                        let system = match &custom_instructions {
                            Some(text) => build_system_prompt(Some(text.as_str())),
                            None => build_system_prompt(None),
                        };
                        self.push_turn(Role::System, system);
                        self.push_turn(Role::System, String::from_str(PLANNING_REMINDER));
                    }
                    self.push_turn(Role::User, prompt);
                    self.phase = Phase::AwaitingModel;
                    self.attempts = 0;
                    self.response = String::new();
                    self.pending = None;
                    self.tool_log = Vec::new();
                    display.start_streaming();
                    proof {
                        assert(texts(self.tool_log@) =~= Seq::<Seq<char>>::empty());
                        assert(self@.turns =~= old(self)@.next(event@).turns);
                    }
                    Action::RequestStream
                } else {
                    Action::Rejected
                }
            },
            Event::Chunk(text) => {
                if self.phase == Phase::AwaitingModel {
                    if !text.as_str().is_empty() {
                        self.response.append(text.as_str());
                        display.update_streaming_message(text.as_str());
                    } else {
                        assert(self@.response + text@ =~= self@.response);
                        assert(display@.current_streaming_message + text@
                            =~= display@.current_streaming_message);
                    }
                    Action::AwaitChunk
                } else {
                    Action::Rejected
                }
            },
            Event::StreamEnded => {
                if self.phase == Phase::AwaitingModel {
                    display.count_request();
                    let reply = self.take_response();
                    match parse_tool_call(reply.as_str()) {
                        Some(tool) => {
                            let label = tool.describe();
                            let line = cat4(
                                "[ATTEMPT ",
                                format_usize(self.attempts + 1).as_str(),
                                "] Executing ",
                                label.as_str(),
                            );
                            self.push_log(line);
                            self.push_turn(Role::Assistant, reply);
                            self.pending = Some(tool.operation());
                            self.phase = Phase::ToolRound;
                            Action::Dispatch(tool)
                        },
                        None => {
                            if self.attempts >= 1 {
                                let line = cat3(
                                    "[COMPLETE] Task completed after ",
                                    format_usize(self.attempts + 1).as_str(),
                                    " attempts",
                                );
                                self.push_log(line);
                            }
                            let tool_log = self.take_log();
                            self.push_turn(Role::Assistant, reply.clone());
                            self.phase = Phase::Terminal;
                            display.finish_streaming(reply.clone());
                            Action::Finish { text: reply, tool_log }
                        },
                    }
                } else {
                    Action::Rejected
                }
            },
            Event::StreamRefused(e) => {
                if self.phase == Phase::AwaitingModel {
                    self.phase = Phase::Terminal;
                    self.response = String::new();
                    self.tool_log = Vec::new();
                    assert(texts(self.tool_log@) =~= Seq::<Seq<char>>::empty());
                    display.finish_streaming(
                        String::from_str("Error: Failed to start streaming response"),
                    );
                    Action::Fail(e)
                } else {
                    Action::Rejected
                }
            },
            Event::StreamBroken(e) => {
                if self.phase == Phase::AwaitingModel {
                    self.phase = Phase::Terminal;
                    self.response = String::new();
                    self.tool_log = Vec::new();
                    assert(texts(self.tool_log@) =~= Seq::<Seq<char>>::empty());
                    let notice = cat2("Error in streaming: ", e.message().as_str());
                    display.finish_streaming(notice);
                    Action::Fail(e)
                } else {
                    Action::Rejected
                }
            },
            Event::ToolFinished(result) => {
                if self.phase == Phase::ToolRound {
                    let op = match self.pending.take() {
                        Some(op) => op,
                        None => {
                            return Action::Rejected;
                        },
                    };
                    let line = match &result {
                        Ok(text) => {
                            display.count_tool();
                            cat2("[SUCCESS] ", text.as_str())
                        },
                        Err(diagnostic) => cat2("[ERROR] ", diagnostic.as_str()),
                    };
                    self.push_log(line);
                    let outcome = ToolOutcome::from_result(op, result);
                    self.push_turn(Role::ToolResult, outcome.turn_text());
                    self.attempts = self.attempts + 1;
                    if self.attempts >= self.max_attempts {
                        self.phase = Phase::Summarizing;
                        Action::RequestSummary
                    } else {
                        self.phase = Phase::AwaitingModel;
                        display.start_streaming();
                        Action::RequestStream
                    }
                } else {
                    Action::Rejected
                }
            },
            Event::SummaryReceived { text, tokens } => {
                if self.phase == Phase::Summarizing {
                    display.count_tokens(tokens);
                    display.finish_streaming(text.clone());
                    self.push_turn(Role::Assistant, text.clone());
                    let line = cat3(
                        "[WARNING] Reached maximum attempts (",
                        format_usize(self.max_attempts).as_str(),
                        ")",
                    );
                    self.push_log(line);
                    let tool_log = self.take_log();
                    self.phase = Phase::Terminal;
                    Action::Finish { text, tool_log }
                } else {
                    Action::Rejected
                }
            },
            Event::SummaryFailed(e) => {
                if self.phase == Phase::Summarizing {
                    self.phase = Phase::Terminal;
                    self.tool_log = Vec::new();
                    assert(texts(self.tool_log@) =~= Seq::<Seq<char>>::empty());
                    Action::Fail(e)
                } else {
                    Action::Rejected
                }
            },
        }
    }
}


// ---------------------------------------------------------------------------
// Laws of the loop
// ---------------------------------------------------------------------------

/// The state in which the loop is after it has taken `events` one after
/// another, beginning in state `a`.
pub open spec fn after(a: AgentView, events: Seq<EventView>) -> AgentView
    decreases events.len(),
{
    if events.len() == 0 {
        a
    } else {
        after(a.next(events[0]), events.drop_first())
    }
}

/// What the display shows after the loop has taken `events` one after
/// another, beginning in state `a` with the display at `d`.
pub open spec fn shown_after(a: AgentView, d: AppView, events: Seq<EventView>) -> AppView
    decreases events.len(),
{
    if events.len() == 0 {
        d
    } else {
        shown_after(a.next(events[0]), a.display(d, events[0]), events.drop_first())
    }
}

/// The number of tool rounds that the loop begins while it takes `events`
/// one after another, beginning in state `a`.
pub open spec fn tool_rounds(a: AgentView, events: Seq<EventView>) -> nat
    decreases events.len(),
{
    if events.len() == 0 {
        0
    } else {
        let here: nat = if a.action(events[0]) is Dispatch {
            1
        } else {
            0
        };
        here + tool_rounds(a.next(events[0]), events.drop_first())
    }
}

/// Whether `events`, taken from state `a`, stay within one run: none of them
/// is a message of the user that begins a new run.
pub open spec fn within_run(a: AgentView, events: Seq<EventView>) -> bool
    decreases events.len(),
{
    events.len() == 0 || (!(events[0] is UserMessage && a.at_rest()) && within_run(
        a.next(events[0]),
        events.drop_first(),
    ))
}

/// The tool rounds that a run in state `a` may still begin.
pub open spec fn rounds_left(a: AgentView) -> int {
    match a.phase {
        Phase::AwaitingModel => a.max_attempts - a.attempts,
        Phase::ToolRound => a.max_attempts - a.attempts - 1,
        _ => 0,
    }
}

/// The number of requests to the model that the loop asks for while it
/// takes `events` one after another, beginning in state `a`.
pub open spec fn model_requests(a: AgentView, events: Seq<EventView>) -> nat
    decreases events.len(),
{
    if events.len() == 0 {
        0
    } else {
        let here: nat = if a.action(events[0]) is RequestStream || a.action(events[0])
            is RequestSummary {
            1
        } else {
            0
        };
        here + model_requests(a.next(events[0]), events.drop_first())
    }
}

/// The requests to the model that a run in state `a` may still ask for,
/// beyond the one that is under way.
pub open spec fn requests_left(a: AgentView) -> int {
    match a.phase {
        Phase::AwaitingModel => a.max_attempts - a.attempts,
        Phase::ToolRound => a.max_attempts - a.attempts,
        _ => 0,
    }
}

/// Every event keeps the invariant of the loop.
pub proof fn lemma_next_well_formed(a: AgentView, e: EventView)
    requires
        a.well_formed(),
    ensures
        a.next(e).well_formed(),
{
    let b = a.next(e);
    match e {
        EventView::UserMessage { prompt, custom_instructions } => {
            if a.at_rest() {
                let opened = a.opened(custom_instructions);
                assert forall|i: int| 2 <= i < b.turns.len() implies (#[trigger] b.turns[i]).role
                    != Role::System by {
                    if i < opened.len() {
                        assert(b.turns[i] == a.turns[i]);
                    }
                }
            }
        },
        EventView::StreamEnded => {
            if a.phase == Phase::AwaitingModel {
                assert forall|i: int| 2 <= i < b.turns.len() implies (#[trigger] b.turns[i]).role
                    != Role::System by {
                    if i < a.turns.len() {
                        assert(b.turns[i] == a.turns[i]);
                    }
                }
            }
        },
        EventView::ToolFinished(_) => {
            if a.phase == Phase::ToolRound && a.pending is Some {
                assert forall|i: int| 2 <= i < b.turns.len() implies (#[trigger] b.turns[i]).role
                    != Role::System by {
                    if i < a.turns.len() {
                        assert(b.turns[i] == a.turns[i]);
                    }
                }
            }
        },
        EventView::SummaryReceived { .. } => {
            if a.phase == Phase::Summarizing {
                assert forall|i: int| 2 <= i < b.turns.len() implies (#[trigger] b.turns[i]).role
                    != Role::System by {
                    if i < a.turns.len() {
                        assert(b.turns[i] == a.turns[i]);
                    }
                }
            }
        },
        _ => {},
    }
}

/// A run never begins more tool rounds than it has left.
pub proof fn lemma_rounds_within_budget(a: AgentView, events: Seq<EventView>)
    requires
        a.well_formed(),
        a.max_attempts >= 1,
        within_run(a, events),
    ensures
        tool_rounds(a, events) <= rounds_left(a),
    decreases events.len(),
{
    if events.len() > 0 {
        lemma_next_well_formed(a, events[0]);
        lemma_rounds_within_budget(a.next(events[0]), events.drop_first());
    }
}

/// A run begins with its round counter at zero, whatever the run before it
/// left there, and never begins more tool rounds than its budget allows.
///
/// The budget is at least one round here: a run whose budget is zero still
/// runs the first tool that the model asks for, and goes on to the summary
/// right after it.
pub proof fn lemma_tool_rounds_bounded(
    a: AgentView,
    prompt: Seq<char>,
    custom_instructions: Option<Seq<char>>,
    events: Seq<EventView>,
)
    requires
        a.well_formed(),
        a.at_rest(),
        a.max_attempts >= 1,
        within_run(a.next(EventView::UserMessage { prompt, custom_instructions }), events),
    ensures
        a.next(EventView::UserMessage { prompt, custom_instructions }).attempts == 0,
        tool_rounds(a.next(EventView::UserMessage { prompt, custom_instructions }), events)
            <= a.max_attempts,
{
    let start = EventView::UserMessage { prompt, custom_instructions };
    lemma_next_well_formed(a, start);
    lemma_rounds_within_budget(a.next(start), events);
}

/// A run never asks for more requests than it has left.
pub proof fn lemma_requests_within_budget(a: AgentView, events: Seq<EventView>)
    requires
        a.well_formed(),
        a.max_attempts >= 1,
        within_run(a, events),
    ensures
        model_requests(a, events) <= requests_left(a),
    decreases events.len(),
{
    if events.len() > 0 {
        lemma_next_well_formed(a, events[0]);
        lemma_requests_within_budget(a.next(events[0]), events.drop_first());
    }
}

/// A run asks the model at most once more than its budget of tool rounds:
/// once for the message of the user, and once after each tool round, the
/// last of these being the request for the summary.
pub proof fn lemma_model_requests_bounded(
    a: AgentView,
    prompt: Seq<char>,
    custom_instructions: Option<Seq<char>>,
    events: Seq<EventView>,
)
    requires
        a.well_formed(),
        a.at_rest(),
        a.max_attempts >= 1,
        within_run(a.next(EventView::UserMessage { prompt, custom_instructions }), events),
    ensures
        a.action(EventView::UserMessage { prompt, custom_instructions })
            == ActionView::RequestStream,
        model_requests(a.next(EventView::UserMessage { prompt, custom_instructions }), events)
            <= a.max_attempts,
{
    let start = EventView::UserMessage { prompt, custom_instructions };
    lemma_next_well_formed(a, start);
    lemma_requests_within_budget(a.next(start), events);
}

/// No event takes a turn away from the transcript or changes one: the
/// transcript before the event is a prefix of the transcript after it.
pub proof fn lemma_transcript_grows(a: AgentView, e: EventView)
    ensures
        a.turns.is_prefix_of(a.next(e).turns),
{
    let b = a.next(e);
    if b.turns != a.turns {
        match e {
            EventView::UserMessage { prompt, custom_instructions } => {
                assert(a.turns.is_prefix_of(a.opened(custom_instructions)));
                assert(a.turns =~= b.turns.subrange(0, a.turns.len() as int));
            },
            _ => {
                assert(a.turns =~= b.turns.subrange(0, a.turns.len() as int));
            },
        }
    }
}

/// However many events the loop takes, the transcript it began with stays
/// in front of the transcript it ends with.
pub proof fn lemma_transcript_append_only(a: AgentView, events: Seq<EventView>)
    ensures
        a.turns.is_prefix_of(after(a, events).turns),
    decreases events.len(),
{
    if events.len() > 0 {
        let b = a.next(events[0]);
        lemma_transcript_grows(a, events[0]);
        lemma_transcript_append_only(b, events.drop_first());
        let end = after(a, events).turns;
        assert(a.turns =~= end.subrange(0, a.turns.len() as int)) by {
            assert(a.turns == b.turns.subrange(0, a.turns.len() as int));
            assert(b.turns == end.subrange(0, b.turns.len() as int));
        }
    }
}

/// A run leaves the transcript strictly longer than it found it: whatever
/// happens after the loop has taken the message of the user, the transcript
/// at the end holds all the turns it held before, and at least one more.
pub proof fn lemma_run_extends_transcript(
    a: AgentView,
    prompt: Seq<char>,
    custom_instructions: Option<Seq<char>>,
    events: Seq<EventView>,
)
    requires
        a.at_rest(),
    ensures
        a.turns.is_prefix_of(
            after(a.next(EventView::UserMessage { prompt, custom_instructions }), events).turns,
        ),
        after(a.next(EventView::UserMessage { prompt, custom_instructions }), events).turns.len()
            > a.turns.len(),
{
    let start = EventView::UserMessage { prompt, custom_instructions };
    let b = a.next(start);
    lemma_transcript_grows(a, start);
    lemma_transcript_append_only(b, events);
    let end = after(b, events).turns;
    assert(a.turns =~= end.subrange(0, a.turns.len() as int)) by {
        assert(a.turns == b.turns.subrange(0, a.turns.len() as int));
        assert(b.turns == end.subrange(0, b.turns.len() as int));
    }
}

/// The events of a stream that delivers `chunks` in this order.
pub open spec fn chunk_events(chunks: Seq<Seq<char>>) -> Seq<EventView> {
    chunks.map_values(|c: Seq<char>| EventView::Chunk(c))
}

/// A reply that streams in as chunks leaves the loop and the display where
/// the same text, delivered in one piece, leaves them: the text gathered is
/// the chunks put together in the order in which they came.
pub proof fn lemma_streamed_text_is_whole_text(a: AgentView, d: AppView, chunks: Seq<Seq<char>>)
    requires
        a.phase == Phase::AwaitingModel,
    ensures
        after(a, chunk_events(chunks)) == (AgentView {
            response: a.response + chunks.flatten(),
            ..a
        }),
        after(a, chunk_events(chunks)) == a.next(EventView::Chunk(chunks.flatten())),
        shown_after(a, d, chunk_events(chunks)) == d.chunk_published(chunks.flatten()),
        shown_after(a, d, chunk_events(chunks)) == a.display(
            d,
            EventView::Chunk(chunks.flatten()),
        ),
    decreases chunks.len(),
{
    let events = chunk_events(chunks);
    if chunks.len() == 0 {
        assert(a.response + chunks.flatten() =~= a.response);
        assert(d.current_streaming_message + chunks.flatten() =~= d.current_streaming_message);
    } else {
        let first = chunks[0];
        let rest = chunks.drop_first();
        assert(events[0] == EventView::Chunk(first));
        assert(events.drop_first() =~= chunk_events(rest));
        let b = a.next(events[0]);
        let shown = a.display(d, events[0]);
        lemma_streamed_text_is_whole_text(b, shown, rest);
        assert(chunks.flatten() =~= first + rest.flatten());
        assert((a.response + first) + rest.flatten() =~= a.response + chunks.flatten());
        assert((d.current_streaming_message + first) + rest.flatten()
            =~= d.current_streaming_message + chunks.flatten());
    }
}

} // verus!
