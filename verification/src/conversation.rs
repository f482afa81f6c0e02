//! The transcript: role-tagged turns in the order in which the model is to
//! read them, and the outcome of a tool as the model gets to read it.

use crate::llm::{Message, MessageView};
use crate::operation::Operation;
use vstd::prelude::*;

verus! {

/// Who a turn of the conversation comes from.
#[derive(Clone, Copy, Debug, PartialEq, Eq, Structural)]
pub enum Role {
    System,
    User,
    Assistant,
    ToolResult,
}

impl Role {
    /// The role under which a turn goes over the wire. The model API knows no
    /// role for tool results: they are sent as turns of the user.
    pub open spec fn wire(self) -> Seq<char> {
        match self {
            Role::System => "system"@,
            Role::User => "user"@,
            Role::Assistant => "assistant"@,
            Role::ToolResult => "user"@,
        }
    }

    /// The role under which a turn goes over the wire.
    pub fn wire_name(self) -> (r: &'static str)
        ensures
            r@ == self.wire(),
    {
        match self {
            Role::System => "system",
            Role::User => "user",
            Role::Assistant => "assistant",
            Role::ToolResult => "user",
        }
    }
}

/// One turn of the conversation.
#[derive(Debug, Clone)]
pub struct Turn {
    pub role: Role,
    pub text: String,
}

/// The mathematical value of a `Turn`.
pub ghost struct TurnView {
    pub role: Role,
    pub text: Seq<char>,
}

impl View for Turn {
    type V = TurnView;

    open spec fn view(&self) -> TurnView {
        TurnView { role: self.role, text: self.text@ }
    }
}

impl TurnView {
    /// The turn as a message of a chat request.
    pub open spec fn message(self) -> MessageView {
        MessageView { role: self.role.wire(), content: self.text }
    }
}

/// Views of a sequence of turns.
pub open spec fn turns(v: Seq<Turn>) -> Seq<TurnView> {
    v.map_values(|t: Turn| t@)
}

impl Turn {
    /// A turn of `role` that says `text`.
    pub fn new(role: Role, text: String) -> (r: Turn)
        ensures
            r@ == (TurnView { role, text: text@ }),
    {
        Turn { role, text }
    }

    /// The turn as a message of a chat request.
    pub fn to_message(&self) -> (r: Message)
        ensures
            r@ == self@.message(),
    {
        Message { role: String::from_str(self.role.wire_name()), content: self.text.clone() }
    }
}

/// What a tool call came to, as the model gets to read it.
#[derive(Debug, Clone)]
pub struct ToolOutcome {
    pub success: bool,
    pub text: String,
}

/// The mathematical value of a `ToolOutcome`.
pub ghost struct ToolOutcomeView {
    pub success: bool,
    pub text: Seq<char>,
}

impl View for ToolOutcome {
    type V = ToolOutcomeView;

    open spec fn view(&self) -> ToolOutcomeView {
        ToolOutcomeView { success: self.success, text: self.text@ }
    }
}

/// View of what a capability returned: its text, or its diagnostic.
pub open spec fn result_text(r: Result<String, String>) -> Result<Seq<char>, Seq<char>> {
    match r {
        Ok(s) => Ok(s@),
        Err(s) => Err(s@),
    }
}

/// What the model is told of a failed call of `op`: which operation failed,
/// the diagnostic, and that another way is to be tried.
pub open spec fn failure_text(op: Operation, diagnostic: Seq<char>) -> Seq<char> {
    op.name() + " failed: "@ + diagnostic + ". Suggest an alternative approach."@
}

impl ToolOutcomeView {
    /// The outcome of a call of `op` that returned `result`. A failure is no
    /// error of the conversation: it becomes text for the model.
    pub open spec fn of(op: Operation, result: Result<Seq<char>, Seq<char>>) -> ToolOutcomeView {
        match result {
            Ok(text) => ToolOutcomeView { success: true, text },
            Err(diagnostic) => ToolOutcomeView {
                success: false,
                text: failure_text(op, diagnostic),
            },
        }
    }

    /// The text of the turn that reports the outcome to the model.
    pub open spec fn turn_text(self) -> Seq<char> {
        "Tool result: "@ + self.text
    }
}

impl ToolOutcome {
    /// The outcome of a call of `op` that returned `result`. The text of a
    /// failed outcome is never empty.
    pub fn from_result(op: Operation, result: Result<String, String>) -> (r: ToolOutcome)
        ensures
            r@ == ToolOutcomeView::of(op, result_text(result)),
            r.success <==> result is Ok,
            !r.success ==> r.text@.len() > 0,
    {
        match result {
            Ok(text) => ToolOutcome { success: true, text },
            Err(diagnostic) => {
                let mut text = String::from_str(op.wire_name());
                text.append(" failed: ");
                text.append(diagnostic.as_str());
                text.append(". Suggest an alternative approach.");
                proof {
                    reveal_strlit(" failed: ");
                }
                ToolOutcome { success: false, text }
            },
        }
    }

    /// The text of the turn that reports the outcome to the model.
    pub fn turn_text(&self) -> (r: String)
        ensures
            r@ == self@.turn_text(),
    {
        let mut r = String::from_str("Tool result: ");
        r.append(self.text.as_str());
        r
    }
}

} // verus!
