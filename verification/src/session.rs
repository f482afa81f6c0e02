//! What the foreground decides: what a key does to the display, what an
//! entered line means, and what the end of a run leaves on the screen.

use crate::app::{line_down, line_up, usage_summary, App, AppView};
use crate::text::{is_word, texts, to_chars, trim, trimmed};
use vstd::prelude::*;

verus! {

/// `String::pop` of the standard library: takes the last character off the
/// string and returns it; an empty string stays empty and gives `None`.
pub assume_specification[ String::pop ](s: &mut String) -> (r: Option<char>)
    ensures
        match r {
            Some(c) => old(s)@.len() > 0 && c == old(s)@.last() && final(s)@ == old(s)@.drop_last(),
            None => old(s)@.len() == 0 && final(s)@ == old(s)@,
        },
;

/// The number of lines that a page key scrolls.
pub const PAGE_SIZE: usize = 10;

/// A key of the keyboard, as far as the session tells keys apart.
#[derive(Clone, Copy, Debug, PartialEq, Eq, Structural)]
pub enum Key {
    Char(char),
    Backspace,
    Up,
    Down,
    PageUp,
    PageDown,
    Home,
    End,
    Enter,
    /// The key combination that ends the session at once.
    Interrupt,
    Other,
}

/// What the foreground is to do after a key.
#[derive(Debug)]
pub enum Command {
    /// Nothing but to draw again.
    Continue,
    /// End the session.
    Quit,
    /// Draw the summary that was just added, then end the session.
    QuitAfterSummary,
    /// Hand the message to the agent; a run begins.
    Submit(String),
}

/// The mathematical value of a `Command`.
pub ghost enum CommandView {
    Continue,
    Quit,
    QuitAfterSummary,
    Submit(Seq<char>),
}

impl View for Command {
    type V = CommandView;

    open spec fn view(&self) -> CommandView {
        match self {
            Command::Continue => CommandView::Continue,
            Command::Quit => CommandView::Quit,
            Command::QuitAfterSummary => CommandView::QuitAfterSummary,
            Command::Submit(s) => CommandView::Submit(s@),
        }
    }
}

/// The scroll position `n` lines up.
pub open spec fn lines_up(position: usize, n: nat) -> usize
    decreases n,
{
    if n == 0 {
        position
    } else {
        line_up(lines_up(position, (n - 1) as nat))
    }
}

/// The scroll position `n` lines down.
pub open spec fn lines_down(position: usize, n: nat) -> usize
    decreases n,
{
    if n == 0 {
        position
    } else {
        line_down(lines_down(position, (n - 1) as nat))
    }
}

/// The status line while a run is under way.
pub open spec fn status_waiting() -> Seq<char> {
    "🤔 Thinking... (streaming response will appear live)"@
}

/// The transcript line that shows a usage summary.
pub open spec fn summary_line(summary: Seq<char>) -> Seq<char> {
    "System: "@ + summary
}

/// The transcript line that shows a message of the user.
pub open spec fn user_line(message: Seq<char>) -> Seq<char> {
    "User: "@ + message
}

/// Whether a summary line for the counters of `d` is `line`, for some
/// reading of the clock.
pub open spec fn is_summary_line(d: AppView, line: Seq<char>) -> bool {
    exists|secs: u64|
        line == summary_line(
            usage_summary(secs, d.tokens_used, d.total_requests, d.total_tools_executed),
        )
}

/// What the Enter key does to a display that shows `d`, with no run under
/// way. The line that was typed is taken off the input. `/quit` and
/// `/stats`, with or without whitespace around them, add a usage summary to
/// the transcript; any other line is a message for the agent and goes to the
/// transcript under the user's name.
pub open spec fn entered(d: AppView, after: AppView, command: CommandView) -> bool {
    let line = d.user_input;
    if trimmed(line) == "/quit"@ {
        &&& command == CommandView::QuitAfterSummary
        &&& after.conversation.len() == d.conversation.len() + 1
        &&& is_summary_line(d, after.conversation.last())
        &&& after == (AppView {
            user_input: Seq::empty(),
            conversation: d.conversation.push(after.conversation.last()),
            ..d
        })
    } else if trimmed(line) == "/stats"@ {
        &&& command == CommandView::Continue
        &&& after.conversation.len() == d.conversation.len() + 1
        &&& is_summary_line(d, after.conversation.last())
        &&& after == (AppView {
            user_input: Seq::empty(),
            conversation: d.conversation.push(after.conversation.last()),
            ..d
        })
    } else {
        &&& command == CommandView::Submit(line)
        &&& after == (AppView {
            user_input: Seq::empty(),
            conversation: d.conversation.push(user_line(line)),
            status_message: status_waiting(),
            ..d
        })
    }
}

/// What a key does to a display that shows `d`. While a run is under way,
/// Enter does nothing: a second message is not admitted until the run has
/// ended.
pub open spec fn key_effect(
    d: AppView,
    key: Key,
    busy: bool,
    after: AppView,
    command: CommandView,
) -> bool {
    match key {
        Key::Interrupt => after == d && command == CommandView::Quit,
        Key::Char(c) => after == (AppView { user_input: d.user_input.push(c), ..d }) && command
            == CommandView::Continue,
        Key::Backspace => after == (AppView {
            user_input: if d.user_input.len() > 0 {
                d.user_input.drop_last()
            } else {
                d.user_input
            },
            ..d
        }) && command == CommandView::Continue,
        Key::Up => after == (AppView {
            conversation_scroll_position: line_up(d.conversation_scroll_position),
            ..d
        }) && command == CommandView::Continue,
        Key::Down => after == (AppView {
            conversation_scroll_position: line_down(d.conversation_scroll_position),
            ..d
        }) && command == CommandView::Continue,
        Key::PageUp => after == (AppView {
            conversation_scroll_position: lines_up(
                d.conversation_scroll_position,
                PAGE_SIZE as nat,
            ),
            ..d
        }) && command == CommandView::Continue,
        Key::PageDown => after == (AppView {
            conversation_scroll_position: lines_down(
                d.conversation_scroll_position,
                PAGE_SIZE as nat,
            ),
            ..d
        }) && command == CommandView::Continue,
        Key::Home => after == (AppView { conversation_scroll_position: 0, ..d }) && command
            == CommandView::Continue,
        Key::End => after == (AppView { conversation_scroll_position: usize::MAX, ..d })
            && command == CommandView::Continue,
        Key::Enter => if busy {
            after == d && command == CommandView::Continue
        } else {
            entered(d, after, command)
        },
        Key::Other => after == d && command == CommandView::Continue,
    }
}

fn take_input(app: &mut App) -> (r: String)
    ensures
        r@ == old(app)@.user_input,
        final(app)@ == (AppView { user_input: Seq::empty(), ..old(app)@ }),
{
    let mut line = String::new();
    core::mem::swap(&mut app.user_input, &mut line);
    line
}

fn push_line(app: &mut App, head: &str, rest: &str)
    ensures
        final(app)@ == (AppView {
            conversation: old(app)@.conversation.push(head@ + rest@),
            ..old(app)@
        }),
{
    let mut line = String::from_str(head);
    line.append(rest);
    app.conversation.push(line);
    assert(texts(app.conversation@) =~= texts(old(app).conversation@).push(head@ + rest@));
}

/// Applies one key to the display and says what the foreground is to do.
/// `busy` tells whether a run is under way.
pub fn handle_key(app: &mut App, key: Key, busy: bool) -> (r: Command)
    ensures
        key_effect(old(app)@, key, busy, final(app)@, r@),
{
    match key {
        Key::Interrupt => Command::Quit,
        Key::Char(c) => {
            app.user_input.push(c);
            Command::Continue
        },
        Key::Backspace => {
            let _ = app.user_input.pop();
            Command::Continue
        },
        Key::Up => {
            app.scroll_conversation_up();
            Command::Continue
        },
        Key::Down => {
            app.scroll_conversation_down();
            Command::Continue
        },
        Key::PageUp => {
            let mut i: usize = 0;
            while i < PAGE_SIZE
                invariant
                    i <= PAGE_SIZE,
                    app@ == (AppView {
                        conversation_scroll_position: lines_up(
                            old(app)@.conversation_scroll_position,
                            i as nat,
                        ),
                        ..old(app)@
                    }),
                decreases PAGE_SIZE - i,
            {
                app.scroll_conversation_up();
                i += 1;
            }
            Command::Continue
        },
        Key::PageDown => {
            let mut i: usize = 0;
            while i < PAGE_SIZE
                invariant
                    i <= PAGE_SIZE,
                    app@ == (AppView {
                        conversation_scroll_position: lines_down(
                            old(app)@.conversation_scroll_position,
                            i as nat,
                        ),
                        ..old(app)@
                    }),
                decreases PAGE_SIZE - i,
            {
                app.scroll_conversation_down();
                i += 1;
            }
            Command::Continue
        },
        Key::Home => {
            app.scroll_conversation_to_top();
            Command::Continue
        },
        Key::End => {
            app.scroll_conversation_to_bottom();
            Command::Continue
        },
        Key::Enter => {
            if busy {
                return Command::Continue;
            }
            let line = take_input(app);
            let chars = to_chars(line.as_str());
            let word = trim(chars.as_slice());
            if is_word(word, "/quit") {
                let summary = app.get_usage_summary();
                push_line(app, "System: ", summary.as_str());
                assert(app@.conversation.last() == summary_line(summary@));
                Command::QuitAfterSummary
            } else if is_word(word, "/stats") {
                let summary = app.get_usage_summary();
                push_line(app, "System: ", summary.as_str());
                assert(app@.conversation.last() == summary_line(summary@));
                Command::Continue
            } else {
                push_line(app, "User: ", line.as_str());
                app.status_message = String::from_str(
                    "🤔 Thinking... (streaming response will appear live)",
                );
                Command::Submit(line)
            }
        },
        Key::Other => Command::Continue,
    }
}

/// How a run came to its end, as the foreground sees it.
#[derive(Debug)]
pub enum RunEnd {
    /// The run returned an answer, with the log of its tool rounds.
    Completed(Vec<String>),
    /// The run returned an error.
    Failed,
    /// The run was lost.
    Lost,
}

/// What the end of a run leaves on a display that showed `d`: the log of
/// the run behind the tool log, and a word on the status line.
pub open spec fn run_ended(d: AppView, end: RunEnd) -> AppView {
    match end {
        RunEnd::Completed(log) => AppView {
            tool_logs: d.tool_logs + texts(log@),
            status_message: "Done."@,
            ..d
        },
        RunEnd::Failed => AppView { status_message: "Error."@, ..d },
        RunEnd::Lost => AppView { status_message: "Task panicked."@, ..d },
    }
}

/// Shows the end of a run.
pub fn finish_run(app: &mut App, end: RunEnd)
    ensures
        final(app)@ == run_ended(old(app)@, end),
{
    match end {
        RunEnd::Completed(log) => {
            let mut i: usize = 0;
            assert(log@.take(0) =~= Seq::<String>::empty());
            assert(app@.tool_logs + texts(log@.take(0)) =~= app@.tool_logs);
            while i < log.len()
                invariant
                    i <= log.len(),
                    app@ == (AppView {
                        tool_logs: old(app)@.tool_logs + texts(log@.take(i as int)),
                        ..old(app)@
                    }),
                decreases log.len() - i,
            {
                app.add_tool_log(log[i].clone());
                assert(old(app)@.tool_logs + texts(log@.take(i + 1)) =~= (old(app)@.tool_logs
                    + texts(log@.take(i as int))).push(log@[i as int]@));
                i += 1;
            }
            assert(log@.take(log.len() as int) =~= log@);
            app.status_message = String::from_str("Done.");
        },
        RunEnd::Failed => {
            app.status_message = String::from_str("Error.");
        },
        RunEnd::Lost => {
            app.status_message = String::from_str("Task panicked.");
        },
    }
}

} // verus!
