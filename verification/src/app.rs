//! The state that the display reads: transcript lines, tool log, usage
//! counters, scroll positions and the text that is streaming in.

use crate::text::{decimal, format_u64, texts};
use std::time::{Duration, Instant};
use vstd::prelude::*;

verus! {

/// A point in time of the standard library's monotonic clock. Opaque here.
#[verifier::external_type_specification]
#[verifier::external_body]
pub struct ExInstant(Instant);

/// `Instant::now`: the current reading of the clock. Nothing is claimed of it.
pub assume_specification[ Instant::now ]() -> (r: Instant)
;

/// `Instant::elapsed`: the time since the instant. Nothing is claimed of it.
pub assume_specification[ Instant::elapsed ](start: &Instant) -> (r: Duration)
;

/// `Duration::as_secs`: the whole seconds of a duration. Nothing is claimed
/// of it.
pub assume_specification[ Duration::as_secs ](d: &Duration) -> (r: u64)
;

/// What the display shows of a session.
pub struct App {
    pub user_input: String,
    pub conversation: Vec<String>,
    pub status_message: String,
    pub tool_logs: Vec<String>,
    pub is_executing_tool: bool,
    pub current_tool: String,
    pub session_start_time: Instant,
    pub tokens_used: u64,
    pub total_requests: u64,
    pub total_tools_executed: u64,
    pub conversation_scroll_position: usize,
    pub tool_logs_scroll_position: usize,
    pub is_streaming: bool,
    pub current_streaming_message: String,
}

/// The mathematical value of an `App`.
pub ghost struct AppView {
    pub user_input: Seq<char>,
    pub conversation: Seq<Seq<char>>,
    pub status_message: Seq<char>,
    pub tool_logs: Seq<Seq<char>>,
    pub is_executing_tool: bool,
    pub current_tool: Seq<char>,
    pub session_start_time: Instant,
    pub tokens_used: u64,
    pub total_requests: u64,
    pub total_tools_executed: u64,
    pub conversation_scroll_position: usize,
    pub tool_logs_scroll_position: usize,
    pub is_streaming: bool,
    pub current_streaming_message: Seq<char>,
}

impl View for App {
    type V = AppView;

    open spec fn view(&self) -> AppView {
        AppView {
            user_input: self.user_input@,
            conversation: texts(self.conversation@),
            status_message: self.status_message@,
            tool_logs: texts(self.tool_logs@),
            is_executing_tool: self.is_executing_tool,
            current_tool: self.current_tool@,
            session_start_time: self.session_start_time,
            tokens_used: self.tokens_used,
            total_requests: self.total_requests,
            total_tools_executed: self.total_tools_executed,
            conversation_scroll_position: self.conversation_scroll_position,
            tool_logs_scroll_position: self.tool_logs_scroll_position,
            is_streaming: self.is_streaming,
            current_streaming_message: self.current_streaming_message@,
        }
    }
}

/// The scroll position one line up; the top stays the top.
pub open spec fn line_up(position: usize) -> usize {
    if position > 0 {
        (position - 1) as usize
    } else {
        0
    }
}

/// The scroll position one line down. The position `usize::MAX` stands for
/// "at the bottom", so stepping down never reaches it.
pub open spec fn line_down(position: usize) -> usize {
    if position < usize::MAX - 1 {
        (position + 1) as usize
    } else {
        position
    }
}

/// One more, unless the counter is at its limit.
pub open spec fn bumped(n: u64) -> u64 {
    if n < u64::MAX {
        (n + 1) as u64
    } else {
        n
    }
}

/// The sum, or the limit of the counter where the sum is beyond it.
pub open spec fn capped_sum(a: u64, b: u64) -> u64 {
    if a + b <= u64::MAX {
        (a + b) as u64
    } else {
        u64::MAX
    }
}

impl AppView {
    /// The display once a streamed round has begun.
    pub open spec fn streaming_started(self) -> AppView {
        AppView {
            is_streaming: true,
            current_streaming_message: Seq::empty(),
            status_message: status_thinking(),
            ..self
        }
    }

    /// The display with one more chunk of the reply published.
    pub open spec fn chunk_published(self, chunk: Seq<char>) -> AppView {
        AppView { current_streaming_message: self.current_streaming_message + chunk, ..self }
    }

    /// The display once a streamed round has ended with `final_message`.
    pub open spec fn streaming_finished(self, final_message: Seq<char>) -> AppView {
        AppView {
            conversation: if self.current_streaming_message.len() > 0 {
                self.conversation.push(agent_prefix() + final_message)
            } else {
                self.conversation
            },
            is_streaming: false,
            current_streaming_message: Seq::empty(),
            status_message: status_done(),
            conversation_scroll_position: usize::MAX,
            ..self
        }
    }

    /// The display with one more request counted, short of overflow.
    pub open spec fn request_counted(self) -> AppView {
        AppView { total_requests: bumped(self.total_requests), ..self }
    }

    /// The display with one more tool run counted, short of overflow.
    pub open spec fn tool_counted(self) -> AppView {
        AppView { total_tools_executed: bumped(self.total_tools_executed), ..self }
    }

    /// The display with `tokens` more tokens counted, short of overflow.
    pub open spec fn tokens_counted(self, tokens: u64) -> AppView {
        AppView { tokens_used: capped_sum(self.tokens_used, tokens), ..self }
    }
}

/// The status line of a fresh session.
pub open spec fn status_ready() -> Seq<char> {
    "Commands: /quit (exit), /stats (usage stats), ↑↓ (scroll conversation)"@
}

/// The status line while a reply streams in.
pub open spec fn status_thinking() -> Seq<char> {
    "🤔 Thinking... (streaming response)"@
}

/// The status line once a reply is complete.
pub open spec fn status_done() -> Seq<char> {
    "✅ Done."@
}

/// The prefix of a transcript line that holds a reply of the agent.
pub open spec fn agent_prefix() -> Seq<char> {
    "Agent: "@
}

/// `n` in decimal, with a zero in front where it has one digit.
pub open spec fn two_digits(n: nat) -> Seq<char> {
    if n < 10 {
        seq!['0'] + decimal(n)
    } else {
        decimal(n)
    }
}

/// Tokens per request, rounded down; zero where there was no request.
pub open spec fn average_tokens(tokens: u64, requests: u64) -> nat {
    if requests > 0 {
        (tokens / requests) as nat
    } else {
        0
    }
}

/// The usage summary of a session that has lasted `secs` seconds.
pub open spec fn usage_summary(secs: u64, tokens: u64, requests: u64, tools: u64) -> Seq<char> {
    "Session Summary:\n• Duration: "@ + two_digits((secs / 3600) as nat) + ":"@ + two_digits(
        ((secs % 3600) / 60) as nat,
    ) + ":"@ + two_digits((secs % 60) as nat) + "\n• Tokens Used: "@ + decimal(tokens as nat)
        + "\n• LLM Requests: "@ + decimal(requests as nat) + "\n• Tools Executed: "@ + decimal(
        tools as nat,
    ) + "\n• Average Tokens/Request: "@ + decimal(average_tokens(tokens, requests))
}

fn format_two_digits(n: u64) -> (r: String)
    ensures
        r@ == two_digits(n as nat),
{
    let digits = format_u64(n);
    if n < 10 {
        let mut s = String::from_str("0");
        proof {
            reveal_strlit("0");
            assert("0"@ =~= seq!['0']);
        }
        s.append(digits.as_str());
        s
    } else {
        digits
    }
}

/// The usage summary of a session that has lasted `secs` seconds.
pub fn format_usage_summary(secs: u64, tokens: u64, requests: u64, tools: u64) -> (r: String)
    ensures
        r@ == usage_summary(secs, tokens, requests, tools),
{
    let hours = format_two_digits(secs / 3600);
    let minutes = format_two_digits((secs % 3600) / 60);
    let seconds = format_two_digits(secs % 60);
    let average: u64 = if requests > 0 {
        tokens / requests
    } else {
        0
    };
    let mut s = String::from_str("Session Summary:\n• Duration: ");
    s.append(hours.as_str());
    s.append(":");
    s.append(minutes.as_str());
    s.append(":");
    s.append(seconds.as_str());
    s.append("\n• Tokens Used: ");
    s.append(format_u64(tokens).as_str());
    s.append("\n• LLM Requests: ");
    s.append(format_u64(requests).as_str());
    s.append("\n• Tools Executed: ");
    s.append(format_u64(tools).as_str());
    s.append("\n• Average Tokens/Request: ");
    s.append(format_u64(average).as_str());
    s
}

impl Default for App {
    fn default() -> (r: Self)
        ensures
            r@ == App::fresh(r.session_start_time),
    {
        App::new()
    }
}

impl App {
    /// The value of a session that began at `start` and has seen nothing yet.
    pub open spec fn fresh(start: Instant) -> AppView {
        AppView {
            user_input: Seq::empty(),
            conversation: Seq::empty(),
            status_message: status_ready(),
            tool_logs: Seq::empty(),
            is_executing_tool: false,
            current_tool: Seq::empty(),
            session_start_time: start,
            tokens_used: 0,
            total_requests: 0,
            total_tools_executed: 0,
            conversation_scroll_position: 0,
            tool_logs_scroll_position: 0,
            is_streaming: false,
            current_streaming_message: Seq::empty(),
        }
    }

    /// A display for a session that begins now.
    pub fn new() -> (r: Self)
        ensures
            r@ == App::fresh(r.session_start_time),
    {
        let r = App {
            user_input: String::new(),
            conversation: Vec::new(),
            status_message: String::from_str(
                "Commands: /quit (exit), /stats (usage stats), ↑↓ (scroll conversation)",
            ),
            tool_logs: Vec::new(),
            is_executing_tool: false,
            current_tool: String::new(),
            session_start_time: Instant::now(),
            tokens_used: 0,
            total_requests: 0,
            total_tools_executed: 0,
            conversation_scroll_position: 0,
            tool_logs_scroll_position: 0,
            is_streaming: false,
            current_streaming_message: String::new(),
        };
        assert(texts(r.conversation@) =~= Seq::<Seq<char>>::empty());
        assert(texts(r.tool_logs@) =~= Seq::<Seq<char>>::empty());
        r
    }

    /// Adds a line to the tool log.
    pub fn add_tool_log(&mut self, log: String)
        ensures
            final(self)@ == (AppView { tool_logs: old(self)@.tool_logs.push(log@), ..old(self)@ }),
    {
        self.tool_logs.push(log);
        assert(texts(self.tool_logs@) =~= texts(old(self).tool_logs@).push(log@));
    }

    /// Counts `tokens` more tokens.
    pub fn increment_tokens(&mut self, tokens: u64)
        requires
            old(self).tokens_used + tokens <= u64::MAX,
        ensures
            final(self)@ == (AppView {
                tokens_used: (old(self).tokens_used + tokens) as u64,
                ..old(self)@
            }),
    {
        self.tokens_used += tokens;
    }

    /// Counts one more request to the model.
    pub fn increment_requests(&mut self)
        requires
            old(self).total_requests < u64::MAX,
        ensures
            final(self)@ == (AppView {
                total_requests: (old(self).total_requests + 1) as u64,
                ..old(self)@
            }),
    {
        self.total_requests += 1;
    }

    /// Counts one more tool that ran.
    pub fn increment_tools_executed(&mut self)
        requires
            old(self).total_tools_executed < u64::MAX,
        ensures
            final(self)@ == (AppView {
                total_tools_executed: (old(self).total_tools_executed + 1) as u64,
                ..old(self)@
            }),
    {
        self.total_tools_executed += 1;
    }

    /// Counts one more request; a counter at its limit stays there.
    pub fn count_request(&mut self)
        ensures
            final(self)@ == old(self)@.request_counted(),
    {
        if self.total_requests < u64::MAX {
            self.increment_requests();
        }
    }

    /// Counts one more tool run; a counter at its limit stays there.
    pub fn count_tool(&mut self)
        ensures
            final(self)@ == old(self)@.tool_counted(),
    {
        if self.total_tools_executed < u64::MAX {
            self.increment_tools_executed();
        }
    }

    /// Counts `tokens` more tokens; the counter stops at its limit.
    pub fn count_tokens(&mut self, tokens: u64)
        ensures
            final(self)@ == old(self)@.tokens_counted(tokens),
    {
        if tokens <= u64::MAX - self.tokens_used {
            self.increment_tokens(tokens);
        } else {
            self.tokens_used = u64::MAX;
        }
    }

    /// The time since the session began, by the clock.
    pub fn get_session_duration(&self) -> (r: Duration) {
        self.session_start_time.elapsed()
    }

    /// The usage summary of the session, for the time that the clock gives.
    pub fn get_usage_summary(&self) -> (r: String)
        ensures
            exists|secs: u64|
                r@ == usage_summary(
                    secs,
                    self.tokens_used,
                    self.total_requests,
                    self.total_tools_executed,
                ),
    {
        let duration = self.get_session_duration();
        let secs = duration.as_secs();
        format_usage_summary(
            secs,
            self.tokens_used,
            self.total_requests,
            self.total_tools_executed,
        )
    }

    /// Scrolls the conversation one line up.
    pub fn scroll_conversation_up(&mut self)
        ensures
            final(self)@ == (AppView {
                conversation_scroll_position: line_up(old(self).conversation_scroll_position),
                ..old(self)@
            }),
    {
        if self.conversation_scroll_position > 0 {
            self.conversation_scroll_position -= 1;
        }
    }

    /// Scrolls the conversation one line down.
    pub fn scroll_conversation_down(&mut self)
        ensures
            final(self)@ == (AppView {
                conversation_scroll_position: line_down(old(self).conversation_scroll_position),
                ..old(self)@
            }),
    {
        if self.conversation_scroll_position < usize::MAX - 1 {
            self.conversation_scroll_position += 1;
        }
    }

    /// Scrolls the conversation to its first line.
    pub fn scroll_conversation_to_top(&mut self)
        ensures
            final(self)@ == (AppView { conversation_scroll_position: 0, ..old(self)@ }),
    {
        self.conversation_scroll_position = 0;
    }

    /// Scrolls the conversation to its last line.
    pub fn scroll_conversation_to_bottom(&mut self)
        ensures
            final(self)@ == (AppView { conversation_scroll_position: usize::MAX, ..old(self)@ }),
    {
        self.conversation_scroll_position = usize::MAX;
    }

    /// Begins a streamed round: the partial text is cleared.
    pub fn start_streaming(&mut self)
        ensures
            final(self)@ == old(self)@.streaming_started(),
    {
        self.is_streaming = true;
        self.current_streaming_message = String::new();
        self.status_message = String::from_str("🤔 Thinking... (streaming response)");
    }

    /// Publishes one more chunk of the reply that is streaming in.
    pub fn update_streaming_message(&mut self, new_content: &str)
        ensures
            final(self)@ == old(self)@.chunk_published(new_content@),
    {
        self.current_streaming_message.append(new_content);
    }

    /// Ends a streamed round. Where some text has streamed in, the final
    /// message becomes a transcript line of the agent. The partial text is
    /// cleared and the view scrolls to the bottom.
    pub fn finish_streaming(&mut self, final_message: String)
        ensures
            final(self)@ == old(self)@.streaming_finished(final_message@),
    {
        if !self.current_streaming_message.as_str().is_empty() {
            let mut line = String::from_str("Agent: ");
            line.append(final_message.as_str());
            self.conversation.push(line);
            assert(texts(self.conversation@) =~= texts(old(self).conversation@).push(
                agent_prefix() + final_message@,
            ));
        }
        self.is_streaming = false;
        self.current_streaming_message = String::new();
        self.status_message = String::from_str("✅ Done.");
        self.scroll_conversation_to_bottom();
    }
}

} // verus!
