//! The orchestration engine of a terminal coding agent.
//!
//! The agent talks to a language model and runs tools on its behalf: it
//! sends the transcript to the model, reads the reply as it streams in, looks
//! for an invocation in it, has the tool run, and hands the result back,
//! until the model answers without asking for a tool or the budget of tool
//! rounds is spent.
//!
//! This library holds the rules of that loop, verified: how an invocation is
//! recognised in a reply (`invocation`, `operation`, `tool`, `json`), how the
//! loop moves from event to action (`agent`, `conversation`, `prompt`), what
//! the display shows (`app`, `session`, `ui`), how the replies of the model
//! API are read (`llm`), and what the tools compute from what their effects
//! return (`plan`, `report`, `runner`, `search`, `edit`, `order`). Requests,
//! files and programs are the business of the program around the library.
//!
//! Text is modelled as `Seq<char>` throughout (`text`, `phrase`).

/// The orchestration loop: events in, actions out.
pub mod agent;
/// The state that the display reads.
pub mod app;
/// The settings that a session starts with.
pub mod config;
/// Turns of the transcript and outcomes of tools.
pub mod conversation;
/// Replacing text within text.
pub mod edit;
/// Recognising an invocation in a reply.
pub mod invocation;
/// JSON documents as plain values.
pub mod json;
/// Messages, errors, token estimates and replies of the model API.
pub mod llm;
/// The catalogue of operations.
pub mod operation;
/// Putting lines in order.
pub mod order;
/// Putting texts together.
pub mod phrase;
/// The plan document.
pub mod plan;
/// The instructions that open every conversation.
pub mod prompt;
/// Reports of the tools that work on files.
pub mod report;
/// Rules of the tools that run programs.
pub mod runner;
/// Searching the web and the symbols of a code base.
pub mod search;
/// Decisions of the foreground.
pub mod session;
/// Character-sequence toolkit.
pub mod text;
/// Invocations and their labels.
pub mod tool;
/// Wrapping, scrolling and cutting messages for the renderer.
pub mod ui;
