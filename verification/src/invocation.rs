//! Recognising an invocation in the text of a model's reply.
//!
//! A reply asks for an operation on a line that begins, after trimming, with
//! the marker `TOOL:`. What follows the marker is either a JSON object with
//! the members `name` and `parameters`, or the operation's wire name,
//! followed, where the operation takes arguments, by a space and the
//! arguments in the operation's own plain-text grammar. The object form is
//! tried first. Only the first marked line of a reply counts.

use crate::json::{json_document, JsonValue};
use crate::operation::Operation;
use crate::text::{
    find, from_chars, has_prefix, is_blank, is_whitespace, lemma_leading_whitespace,
    lemma_position, lemma_trailing_whitespace, lemma_trimmed_fixed, lines_of, parse_usize,
    parsed_usize, pieces, position, rfind, slices, split, split_lines, starts_with,
    tail_after_last, texts, to_chars, trim, trim_start, trimmed,
};
use crate::tool::{opt_tool, Tool, ToolView};
use vstd::prelude::*;

verus! {

// ---------------------------------------------------------------------------
// The object form
// ---------------------------------------------------------------------------

/// The texts among `items`, in order; elements that are no strings are left
/// out.
pub open spec fn text_items(items: Seq<JsonValue>) -> Seq<Seq<char>> {
    items.filter_map(|v: JsonValue| v.text())
}

/// An invocation with one required text argument.
pub open spec fn one_text(
    p: JsonValue,
    key: Seq<char>,
    make: spec_fn(Seq<char>) -> ToolView,
) -> Option<ToolView> {
    match p.text_at(key) {
        Some(a) => Some(make(a)),
        None => None,
    }
}

/// An invocation with two required text arguments.
pub open spec fn two_texts(
    p: JsonValue,
    first: Seq<char>,
    second: Seq<char>,
    make: spec_fn(Seq<char>, Seq<char>) -> ToolView,
) -> Option<ToolView> {
    match (p.text_at(first), p.text_at(second)) {
        (Some(a), Some(b)) => Some(make(a, b)),
        _ => None,
    }
}

/// An invocation with a required text argument and an optional one. The
/// optional one counts as absent also where it is no string.
pub open spec fn text_and_optional(
    p: JsonValue,
    first: Seq<char>,
    second: Seq<char>,
    make: spec_fn(Seq<char>, Option<Seq<char>>) -> ToolView,
) -> Option<ToolView> {
    match p.text_at(first) {
        Some(a) => Some(make(a, p.text_at(second))),
        None => None,
    }
}

/// The invocation of `op` that the object `p` of parameters describes, where
/// every required argument is there and has the right type.
pub open spec fn structured(op: Operation, p: JsonValue) -> Option<ToolView> {
    match op {
        Operation::ReadFile => one_text(p, "path"@, |path| ToolView::ReadFile { path }),
        Operation::WriteFile => two_texts(
            p,
            "path"@,
            "content"@,
            |path, content| ToolView::WriteFile { path, content },
        ),
        Operation::AppendFile => two_texts(
            p,
            "path"@,
            "content"@,
            |path, content| ToolView::AppendFile { path, content },
        ),
        Operation::SearchReplace => match (
            p.text_at("path"@),
            p.text_at("old_string"@),
            p.text_at("new_string"@),
        ) {
            (Some(path), Some(old_string), Some(new_string)) => Some(
                ToolView::SearchReplace { path, old_string, new_string },
            ),
            _ => None,
        },
        Operation::DeleteFile => one_text(p, "path"@, |path| ToolView::DeleteFile { path }),
        Operation::ListFiles => one_text(p, "path"@, |path| ToolView::ListFiles { path }),
        Operation::ListFilesRecursive => one_text(
            p,
            "path"@,
            |path| ToolView::ListFilesRecursive { path },
        ),
        Operation::CreateDirectory => one_text(
            p,
            "path"@,
            |path| ToolView::CreateDirectory { path },
        ),
        Operation::GrepSearch => text_and_optional(
            p,
            "pattern"@,
            "path"@,
            |pattern, path| ToolView::GrepSearch { pattern, path },
        ),
        Operation::GlobSearch => one_text(
            p,
            "pattern"@,
            |pattern| ToolView::GlobSearch { pattern },
        ),
        Operation::IndexCodebase => one_text(p, "path"@, |path| ToolView::IndexCodebase { path }),
        Operation::SearchIndex => one_text(p, "query"@, |query| ToolView::SearchIndex { query }),
        Operation::FuzzyFind => text_and_optional(
            p,
            "pattern"@,
            "path"@,
            |pattern, path| ToolView::FuzzyFind { pattern, path },
        ),
        Operation::ReadUrl => one_text(p, "url"@, |url| ToolView::ReadUrl { url }),
        Operation::SearchWeb => one_text(p, "query"@, |query| ToolView::SearchWeb { query }),
        Operation::Remember => one_text(p, "fact"@, |fact| ToolView::Remember { fact }),
        Operation::Recall => Some(ToolView::Recall),
        Operation::ExecuteCode => two_texts(
            p,
            "language"@,
            "code"@,
            |language, code| ToolView::ExecuteCode { language, code },
        ),
        Operation::RunCommand => one_text(
            p,
            "command"@,
            |command| ToolView::RunCommand { command },
        ),
        Operation::GitStatus => Some(ToolView::GitStatus),
        Operation::GitDiff => Some(ToolView::GitDiff),
        Operation::GitCommit => one_text(
            p,
            "message"@,
            |message| ToolView::GitCommit { message },
        ),
        Operation::GitLog => Some(
            ToolView::GitLog {
                count: match p.unsigned_at("count"@) {
                    Some(n) => Some(n as usize),
                    None => None,
                },
            },
        ),
        Operation::RunLint => text_and_optional(
            p,
            "language"@,
            "path"@,
            |language, path| ToolView::RunLint { language, path },
        ),
        Operation::RunTests => text_and_optional(
            p,
            "framework"@,
            "path"@,
            |framework, path| ToolView::RunTests { framework, path },
        ),
        Operation::InstallPackage => two_texts(
            p,
            "manager"@,
            "package"@,
            |manager, package| ToolView::InstallPackage { manager, package },
        ),
        Operation::CreatePlan => match (p.text_at("task"@), p.field("steps"@)) {
            (Some(task), Some(JsonValue::Array(items))) => Some(
                ToolView::CreatePlan { task, steps: text_items(items@) },
            ),
            _ => None,
        },
        Operation::UpdatePlan => match p.unsigned_at("completed_step"@) {
            Some(n) => Some(ToolView::UpdatePlan { completed_step: n as usize }),
            None => None,
        },
        Operation::ClearPlan => Some(ToolView::ClearPlan),
        Operation::GetTime => Some(ToolView::GetTime),
        Operation::GetOsInfo => Some(ToolView::GetOsInfo),
        Operation::CopyFile => two_texts(
            p,
            "source"@,
            "destination"@,
            |source, destination| ToolView::CopyFile { source, destination },
        ),
        Operation::MoveFile => two_texts(
            p,
            "source"@,
            "destination"@,
            |source, destination| ToolView::MoveFile { source, destination },
        ),
        Operation::RenameFile => two_texts(
            p,
            "old_name"@,
            "new_name"@,
            |old_name, new_name| ToolView::RenameFile { old_name, new_name },
        ),
    }
}

/// The texts among the elements of an array, copied.
pub fn collect_texts(items: &Vec<JsonValue>) -> (r: Vec<String>)
    ensures
        texts(r@) == text_items(items@),
{
    let mut out: Vec<String> = Vec::new();
    let mut i: usize = 0;
    assert(items@.take(0) =~= Seq::<JsonValue>::empty());
    assert(texts(out@) =~= Seq::<Seq<char>>::empty());
    while i < items.len()
        invariant
            i <= items.len(),
            texts(out@) == text_items(items@.take(i as int)),
        decreases items.len() - i,
    {
        let ghost before = out@;
        proof {
            items@.lemma_filter_map_take_succ(|v: JsonValue| v.text(), i as int);
        }
        match items[i].as_str() {
            Some(s) => {
                out.push(String::from_str(s));
                assert(texts(out@) =~= texts(before) + seq![s@]);
            },
            None => {},
        }
        i += 1;
    }
    assert(items@.take(items.len() as int) =~= items@);
    out
}

/// A structured call as it stands in a reply: the name of an operation and an
/// object of parameters.
#[derive(Debug)]
pub struct ToolCall {
    pub name: String,
    pub parameters: JsonValue,
}

impl ToolCall {
    /// The call that a document holds: an object with a string member `name`
    /// and a member `parameters`. Other members are ignored.
    pub open spec fn in_document(doc: JsonValue) -> Option<(Seq<char>, JsonValue)> {
        match (doc.text_at("name"@), doc.field("parameters"@)) {
            (Some(name), Some(parameters)) => Some((name, parameters)),
            _ => None,
        }
    }

    /// The invocation that a call with this name and these parameters asks
    /// for. `None` where the name is no operation's, or a required argument
    /// is missing or has the wrong type.
    pub open spec fn invocation(name: Seq<char>, parameters: JsonValue) -> Option<ToolView> {
        match Operation::named(name) {
            Some(op) => structured(op, parameters),
            None => None,
        }
    }

    /// Reads the call that a document holds.
    pub fn from_document(doc: JsonValue) -> (r: Option<ToolCall>)
        ensures
            match r {
                Some(call) => ToolCall::in_document(doc) == Some((call.name@, call.parameters)),
                None => ToolCall::in_document(doc) is None,
            },
    {
        let name = doc.string_at("name")?;
        let parameters = doc.take_field("parameters")?;
        Some(ToolCall { name, parameters })
    }

    /// The invocation that the call asks for.
    pub fn into_tool(self) -> (r: Option<Tool>)
        ensures
            opt_tool(r) == ToolCall::invocation(self.name@, self.parameters),
    {
        let name = to_chars(self.name.as_str());
        let op = Operation::from_name(name.as_slice())?;
        let p = &self.parameters;
        match op {
            Operation::ReadFile => {
                let path = p.string_at("path")?;
                Some(Tool::ReadFile { path })
            },
            Operation::WriteFile => {
                let path = p.string_at("path")?;
                let content = p.string_at("content")?;
                Some(Tool::WriteFile { path, content })
            },
            Operation::AppendFile => {
                let path = p.string_at("path")?;
                let content = p.string_at("content")?;
                Some(Tool::AppendFile { path, content })
            },
            Operation::SearchReplace => {
                let path = p.string_at("path")?;
                let old_string = p.string_at("old_string")?;
                let new_string = p.string_at("new_string")?;
                Some(Tool::SearchReplace { path, old_string, new_string })
            },
            Operation::DeleteFile => {
                let path = p.string_at("path")?;
                Some(Tool::DeleteFile { path })
            },
            Operation::ListFiles => {
                let path = p.string_at("path")?;
                Some(Tool::ListFiles { path })
            },
            Operation::ListFilesRecursive => {
                let path = p.string_at("path")?;
                Some(Tool::ListFilesRecursive { path })
            },
            Operation::CreateDirectory => {
                let path = p.string_at("path")?;
                Some(Tool::CreateDirectory { path })
            },
            Operation::GrepSearch => {
                let pattern = p.string_at("pattern")?;
                let path = p.string_at("path");
                Some(Tool::GrepSearch { pattern, path })
            },
            Operation::GlobSearch => {
                let pattern = p.string_at("pattern")?;
                Some(Tool::GlobSearch { pattern })
            },
            Operation::IndexCodebase => {
                let path = p.string_at("path")?;
                Some(Tool::IndexCodebase { path })
            },
            Operation::SearchIndex => {
                let query = p.string_at("query")?;
                Some(Tool::SearchIndex { query })
            },
            Operation::FuzzyFind => {
                let pattern = p.string_at("pattern")?;
                let path = p.string_at("path");
                Some(Tool::FuzzyFind { pattern, path })
            },
            Operation::ReadUrl => {
                let url = p.string_at("url")?;
                Some(Tool::ReadUrl { url })
            },
            Operation::SearchWeb => {
                let query = p.string_at("query")?;
                Some(Tool::SearchWeb { query })
            },
            Operation::Remember => {
                let fact = p.string_at("fact")?;
                Some(Tool::Remember { fact })
            },
            Operation::Recall => Some(Tool::Recall),
            Operation::ExecuteCode => {
                let language = p.string_at("language")?;
                let code = p.string_at("code")?;
                Some(Tool::ExecuteCode { language, code })
            },
            Operation::RunCommand => {
                let command = p.string_at("command")?;
                Some(Tool::RunCommand { command })
            },
            Operation::GitStatus => Some(Tool::GitStatus),
            Operation::GitDiff => Some(Tool::GitDiff),
            Operation::GitCommit => {
                let message = p.string_at("message")?;
                Some(Tool::GitCommit { message })
            },
            Operation::GitLog => {
                let count = match p.u64_at("count") {
                    Some(n) => Some(n as usize),
                    None => None,
                };
                Some(Tool::GitLog { count })
            },
            Operation::RunLint => {
                let language = p.string_at("language")?;
                let path = p.string_at("path");
                Some(Tool::RunLint { language, path })
            },
            Operation::RunTests => {
                let framework = p.string_at("framework")?;
                let path = p.string_at("path");
                Some(Tool::RunTests { framework, path })
            },
            Operation::InstallPackage => {
                let manager = p.string_at("manager")?;
                let package = p.string_at("package")?;
                Some(Tool::InstallPackage { manager, package })
            },
            Operation::CreatePlan => {
                let task = p.string_at("task")?;
                let items = p.get("steps")?.as_array()?;
                let steps = collect_texts(items);
                Some(Tool::CreatePlan { task, steps })
            },
            Operation::UpdatePlan => {
                let n = p.u64_at("completed_step")?;
                Some(Tool::UpdatePlan { completed_step: n as usize })
            },
            Operation::ClearPlan => Some(Tool::ClearPlan),
            Operation::GetTime => Some(Tool::GetTime),
            Operation::GetOsInfo => Some(Tool::GetOsInfo),
            Operation::CopyFile => {
                let source = p.string_at("source")?;
                let destination = p.string_at("destination")?;
                Some(Tool::CopyFile { source, destination })
            },
            Operation::MoveFile => {
                let source = p.string_at("source")?;
                let destination = p.string_at("destination")?;
                Some(Tool::MoveFile { source, destination })
            },
            Operation::RenameFile => {
                let old_name = p.string_at("old_name")?;
                let new_name = p.string_at("new_name")?;
                Some(Tool::RenameFile { old_name, new_name })
            },
        }
    }
}


// ---------------------------------------------------------------------------
// The plain-text form
// ---------------------------------------------------------------------------

/// `s` cut at its first space: what stands before it and what stands behind.
pub open spec fn cut_first(s: Seq<char>) -> Option<(Seq<char>, Seq<char>)> {
    let n = position(s, ' ');
    if n < s.len() {
        Some((s.take(n as int), s.skip(n + 1 as int)))
    } else {
        None
    }
}

/// `s` cut at its last space.
pub open spec fn cut_last(s: Seq<char>) -> Option<(Seq<char>, Seq<char>)> {
    let k = tail_after_last(s, ' ');
    if k < s.len() {
        Some((s.take(s.len() - k - 1), s.skip(s.len() - k)))
    } else {
        None
    }
}

/// What one piece between double quotes gives to a plan: nothing where it is
/// blank, else the piece trimmed.
pub open spec fn plan_part() -> spec_fn(Seq<char>) -> Option<Seq<char>> {
    |piece: Seq<char>|
        if is_blank(piece) {
            None
        } else {
            Some(trimmed(piece))
        }
}

/// The quoted parts of the arguments of a plan: the pieces between double
/// quotes that are not blank, each trimmed.
pub open spec fn plan_parts(params: Seq<char>) -> Seq<Seq<char>> {
    pieces(params, '"').filter_map(plan_part())
}

/// The invocation of `op` that `params` describes in the plain-text grammar
/// of `op`; `params` is what follows the operation's name and one space.
///
/// An operation with one argument takes all of `params`. One with two
/// arguments takes what stands before the first space and what stands behind
/// it, and there is no invocation without that space; where the second
/// argument is optional, it is absent without the space. A replacement takes
/// a path up to the first space, and cuts the rest at its last space. A log
/// takes a count where `params` writes a number. A plan takes its task and
/// steps from double-quoted parts and needs two of them. A plan update takes
/// the number that `params` writes once trimmed.
pub open spec fn legacy(op: Operation, params: Seq<char>) -> Option<ToolView> {
    match op {
        Operation::ReadFile => Some(ToolView::ReadFile { path: params }),
        Operation::WriteFile => match cut_first(params) {
            Some((path, content)) => Some(ToolView::WriteFile { path, content }),
            None => None,
        },
        Operation::AppendFile => match cut_first(params) {
            Some((path, content)) => Some(ToolView::AppendFile { path, content }),
            None => None,
        },
        Operation::SearchReplace => match cut_first(params) {
            Some((path, rest)) => match cut_last(rest) {
                Some((old_string, new_string)) => Some(
                    ToolView::SearchReplace { path, old_string, new_string },
                ),
                None => None,
            },
            None => None,
        },
        Operation::DeleteFile => Some(ToolView::DeleteFile { path: params }),
        Operation::ListFiles => Some(ToolView::ListFiles { path: params }),
        Operation::ListFilesRecursive => Some(ToolView::ListFilesRecursive { path: params }),
        Operation::CreateDirectory => Some(ToolView::CreateDirectory { path: params }),
        Operation::GrepSearch => match cut_first(params) {
            Some((pattern, path)) => Some(ToolView::GrepSearch { pattern, path: Some(path) }),
            None => Some(ToolView::GrepSearch { pattern: params, path: None }),
        },
        Operation::GlobSearch => Some(ToolView::GlobSearch { pattern: params }),
        Operation::IndexCodebase => Some(ToolView::IndexCodebase { path: params }),
        Operation::SearchIndex => Some(ToolView::SearchIndex { query: params }),
        Operation::FuzzyFind => match cut_first(params) {
            Some((pattern, path)) => Some(ToolView::FuzzyFind { pattern, path: Some(path) }),
            None => Some(ToolView::FuzzyFind { pattern: params, path: None }),
        },
        Operation::ReadUrl => Some(ToolView::ReadUrl { url: params }),
        Operation::SearchWeb => Some(ToolView::SearchWeb { query: params }),
        Operation::Remember => Some(ToolView::Remember { fact: params }),
        Operation::Recall => Some(ToolView::Recall),
        Operation::ExecuteCode => match cut_first(params) {
            Some((language, code)) => Some(ToolView::ExecuteCode { language, code }),
            None => None,
        },
        Operation::RunCommand => Some(ToolView::RunCommand { command: params }),
        Operation::GitStatus => Some(ToolView::GitStatus),
        Operation::GitDiff => Some(ToolView::GitDiff),
        Operation::GitCommit => Some(ToolView::GitCommit { message: params }),
        Operation::GitLog => Some(ToolView::GitLog { count: parsed_usize(params) }),
        Operation::RunLint => match cut_first(params) {
            Some((language, path)) => Some(ToolView::RunLint { language, path: Some(path) }),
            None => Some(ToolView::RunLint { language: params, path: None }),
        },
        Operation::RunTests => match cut_first(params) {
            Some((framework, path)) => Some(ToolView::RunTests { framework, path: Some(path) }),
            None => Some(ToolView::RunTests { framework: params, path: None }),
        },
        Operation::InstallPackage => match cut_first(params) {
            Some((manager, package)) => Some(ToolView::InstallPackage { manager, package }),
            None => None,
        },
        Operation::CreatePlan => {
            let parts = plan_parts(params);
            if parts.len() >= 2 {
                Some(ToolView::CreatePlan { task: parts[0], steps: parts.skip(1) })
            } else {
                None
            }
        },
        Operation::UpdatePlan => match parsed_usize(trimmed(params)) {
            Some(n) => Some(ToolView::UpdatePlan { completed_step: n }),
            None => None,
        },
        Operation::ClearPlan => Some(ToolView::ClearPlan),
        Operation::GetTime => Some(ToolView::GetTime),
        Operation::GetOsInfo => Some(ToolView::GetOsInfo),
        Operation::CopyFile => match cut_first(params) {
            Some((source, destination)) => Some(ToolView::CopyFile { source, destination }),
            None => None,
        },
        Operation::MoveFile => match cut_first(params) {
            Some((source, destination)) => Some(ToolView::MoveFile { source, destination }),
            None => None,
        },
        Operation::RenameFile => match cut_first(params) {
            Some((old_name, new_name)) => Some(ToolView::RenameFile { old_name, new_name }),
            None => None,
        },
    }
}

/// Cuts the slice at its first space.
pub fn split_first(s: &[char]) -> (r: Option<(&[char], &[char])>)
    ensures
        match r {
            Some((a, b)) => cut_first(s@) == Some((a@, b@)),
            None => cut_first(s@) is None,
        },
{
    let len = s.len();
    match find(s, ' ') {
        Some(n) => Some((&s[0..n], &s[n + 1..len])),
        None => None,
    }
}

/// Cuts the slice at its last space.
pub fn split_last(s: &[char]) -> (r: Option<(&[char], &[char])>)
    ensures
        match r {
            Some((a, b)) => cut_last(s@) == Some((a@, b@)),
            None => cut_last(s@) is None,
        },
{
    let len = s.len();
    match rfind(s, ' ') {
        Some(n) => Some((&s[0..n], &s[n + 1..len])),
        None => None,
    }
}

/// The quoted parts of the arguments of a plan.
pub fn quoted_parts(params: &[char]) -> (r: Vec<String>)
    ensures
        texts(r@) == plan_parts(params@),
{
    let parts = split(params, '"');
    let ghost all = slices(parts@);
    let mut out: Vec<String> = Vec::new();
    let mut i: usize = 0;
    assert(all.take(0) =~= Seq::<Seq<char>>::empty());
    assert(texts(out@) =~= Seq::<Seq<char>>::empty());
    while i < parts.len()
        invariant
            i <= parts.len(),
            all == slices(parts@),
            texts(out@) == all.take(i as int).filter_map(plan_part()),
        decreases parts.len() - i,
    {
        let ghost before = out@;
        proof {
            all.lemma_filter_map_take_succ(plan_part(), i as int);
            assert(all[i as int] == parts@[i as int]@);
        }
        let piece = trim(parts[i]);
        if piece.len() > 0 {
            out.push(from_chars(piece));
            assert(texts(out@) =~= texts(before) + seq![piece@]);
        }
        i += 1;
    }
    assert(all.take(parts.len() as int) =~= all);
    out
}

/// Decodes the arguments of `op` from `params`, in the plain-text grammar of
/// `op`.
pub fn decode_arguments(op: Operation, params: &[char]) -> (r: Option<Tool>)
    ensures
        opt_tool(r) == legacy(op, params@),
{
    match op {
            Operation::ReadFile => Some(Tool::ReadFile { path: from_chars(params) }),
            Operation::WriteFile => {
                let (path, content) = split_first(params)?;
                Some(Tool::WriteFile { path: from_chars(path), content: from_chars(content) })
            },
            Operation::AppendFile => {
                let (path, content) = split_first(params)?;
                Some(Tool::AppendFile { path: from_chars(path), content: from_chars(content) })
            },
            Operation::SearchReplace => {
                let (path, rest) = split_first(params)?;
                let (old_string, new_string) = split_last(rest)?;
                Some(
                    Tool::SearchReplace {
                        path: from_chars(path),
                        old_string: from_chars(old_string),
                        new_string: from_chars(new_string),
                    },
                )
            },
            Operation::DeleteFile => Some(Tool::DeleteFile { path: from_chars(params) }),
            Operation::ListFiles => Some(Tool::ListFiles { path: from_chars(params) }),
            Operation::ListFilesRecursive =>
                Some(Tool::ListFilesRecursive { path: from_chars(params) }),
            Operation::CreateDirectory => Some(Tool::CreateDirectory { path: from_chars(params) }),
            Operation::GrepSearch => match split_first(params) {
                Some((pattern, path)) => Some(
                    Tool::GrepSearch { pattern: from_chars(pattern), path: Some(from_chars(path)) },
                ),
                None => Some(Tool::GrepSearch { pattern: from_chars(params), path: None }),
            },
            Operation::GlobSearch => Some(Tool::GlobSearch { pattern: from_chars(params) }),
            Operation::IndexCodebase => Some(Tool::IndexCodebase { path: from_chars(params) }),
            Operation::SearchIndex => Some(Tool::SearchIndex { query: from_chars(params) }),
            Operation::FuzzyFind => match split_first(params) {
                Some((pattern, path)) => Some(
                    Tool::FuzzyFind { pattern: from_chars(pattern), path: Some(from_chars(path)) },
                ),
                None => Some(Tool::FuzzyFind { pattern: from_chars(params), path: None }),
            },
            Operation::ReadUrl => Some(Tool::ReadUrl { url: from_chars(params) }),
            Operation::SearchWeb => Some(Tool::SearchWeb { query: from_chars(params) }),
            Operation::Remember => Some(Tool::Remember { fact: from_chars(params) }),
            Operation::Recall => Some(Tool::Recall),
            Operation::ExecuteCode => {
                let (language, code) = split_first(params)?;
                Some(Tool::ExecuteCode { language: from_chars(language), code: from_chars(code) })
            },
            Operation::RunCommand => Some(Tool::RunCommand { command: from_chars(params) }),
            Operation::GitStatus => Some(Tool::GitStatus),
            Operation::GitDiff => Some(Tool::GitDiff),
            Operation::GitCommit => Some(Tool::GitCommit { message: from_chars(params) }),
            Operation::GitLog => Some(Tool::GitLog { count: parse_usize(params) }),
            Operation::RunLint => match split_first(params) {
                Some((language, path)) => Some(
                    Tool::RunLint { language: from_chars(language), path: Some(from_chars(path)) },
                ),
                None => Some(Tool::RunLint { language: from_chars(params), path: None }),
            },
            Operation::RunTests => match split_first(params) {
                Some((framework, path)) => Some(
                    Tool::RunTests {
                        framework: from_chars(framework),
                        path: Some(from_chars(path)),
                    },
                ),
                None => Some(Tool::RunTests { framework: from_chars(params), path: None }),
            },
            Operation::InstallPackage => {
                let (manager, package) = split_first(params)?;
                Some(
                    Tool::InstallPackage {
                        manager: from_chars(manager),
                        package: from_chars(package),
                    },
                )
            },
            Operation::CreatePlan => {
                let mut parts = quoted_parts(params);
                if parts.len() >= 2 {
                    let ghost all = parts@;
                    let task = parts.remove(0);
                    assert(texts(parts@) =~= texts(all).skip(1));
                    Some(Tool::CreatePlan { task, steps: parts })
                } else {
                    None
                }
            },
            Operation::UpdatePlan => {
                let n = parse_usize(trim(params))?;
                Some(Tool::UpdatePlan { completed_step: n })
            },
            Operation::ClearPlan => Some(Tool::ClearPlan),
            Operation::GetTime => Some(Tool::GetTime),
            Operation::GetOsInfo => Some(Tool::GetOsInfo),
            Operation::CopyFile => {
                let (source, destination) = split_first(params)?;
                Some(
                    Tool::CopyFile {
                        source: from_chars(source),
                        destination: from_chars(destination),
                    },
                )
            },
            Operation::MoveFile => {
                let (source, destination) = split_first(params)?;
                Some(
                    Tool::MoveFile {
                        source: from_chars(source),
                        destination: from_chars(destination),
                    },
                )
            },
            Operation::RenameFile => {
                let (old_name, new_name) = split_first(params)?;
                Some(
                    Tool::RenameFile {
                        old_name: from_chars(old_name),
                        new_name: from_chars(new_name),
                    },
                )
            },
    }
}

// ---------------------------------------------------------------------------
// Lines and replies
// ---------------------------------------------------------------------------

/// The marker that begins a line which asks for an operation.
pub open spec fn marker() -> Seq<char> {
    "TOOL:"@
}

/// The invocation in the object form on what follows the marker.
pub open spec fn structured_invocation(rem: Seq<char>) -> Option<ToolView> {
    if rem.len() > 0 && rem[0] == '{' {
        match json_document(rem) {
            Some(doc) => match ToolCall::in_document(doc) {
                Some((name, parameters)) => ToolCall::invocation(name, parameters),
                None => None,
            },
            None => None,
        }
    } else {
        None
    }
}

/// The token and the arguments on what follows the marker: what stands
/// before the first space and what stands behind it. Without a space, all
/// is the token and the arguments are empty.
pub open spec fn token_and_arguments(rem: Seq<char>) -> (Seq<char>, Seq<char>) {
    match cut_first(rem) {
        Some(parts) => parts,
        None => (rem, Seq::empty()),
    }
}

/// The invocation of `op` with no arguments at all. An operation that takes
/// no argument yields its invocation, and so does the log, with no count;
/// an operation that needs an argument yields none.
pub open spec fn without_arguments(op: Operation) -> Option<ToolView> {
    match op {
        Operation::Recall => Some(ToolView::Recall),
        Operation::GitStatus => Some(ToolView::GitStatus),
        Operation::GitDiff => Some(ToolView::GitDiff),
        Operation::GitLog => Some(ToolView::GitLog { count: None }),
        Operation::ClearPlan => Some(ToolView::ClearPlan),
        Operation::GetTime => Some(ToolView::GetTime),
        Operation::GetOsInfo => Some(ToolView::GetOsInfo),
        _ => None,
    }
}

/// The invocation in the plain-text form on what follows the marker: the
/// name of an operation up to the first space, then its arguments. Where
/// there are no arguments, the operation must be one that needs none.
pub open spec fn legacy_invocation(rem: Seq<char>) -> Option<ToolView> {
    let parts = token_and_arguments(rem);
    match Operation::named(parts.0) {
        Some(op) => if parts.1.len() == 0 {
            without_arguments(op)
        } else {
            legacy(op, parts.1)
        },
        None => None,
    }
}

/// The invocation on what follows the marker: the object form where it
/// yields one, else the plain-text form.
pub open spec fn invocation_on_line(rem: Seq<char>) -> Option<ToolView> {
    match structured_invocation(rem) {
        Some(t) => Some(t),
        None => legacy_invocation(rem),
    }
}

/// What follows the marker on a line, trimmed; `None` where the line, once
/// trimmed, does not begin with the marker.
pub open spec fn marked(line: Seq<char>) -> Option<Seq<char>> {
    let t = trimmed(line);
    if has_prefix(t, marker()) {
        Some(trimmed(t.skip(marker().len() as int)))
    } else {
        None
    }
}

/// What follows the marker on the first marked line among `lines`.
pub open spec fn first_marked(lines: Seq<Seq<char>>) -> Option<Seq<char>>
    decreases lines.len(),
{
    if lines.len() == 0 {
        None
    } else {
        match marked(lines[0]) {
            Some(rem) => Some(rem),
            None => first_marked(lines.drop_first()),
        }
    }
}

/// The invocation that a reply asks for: the one on its first marked line.
/// A reply without a marked line, or whose first marked line yields no
/// invocation, asks for none.
pub open spec fn invocation_in(response: Seq<char>) -> Option<ToolView> {
    match first_marked(lines_of(response)) {
        Some(rem) => invocation_on_line(rem),
        None => None,
    }
}

/// The invocation of `op` with no arguments at all.
pub fn decode_without_arguments(op: Operation) -> (r: Option<Tool>)
    ensures
        opt_tool(r) == without_arguments(op),
{
    match op {
        Operation::Recall => Some(Tool::Recall),
        Operation::GitStatus => Some(Tool::GitStatus),
        Operation::GitDiff => Some(Tool::GitDiff),
        Operation::GitLog => Some(Tool::GitLog { count: None }),
        Operation::ClearPlan => Some(Tool::ClearPlan),
        Operation::GetTime => Some(Tool::GetTime),
        Operation::GetOsInfo => Some(Tool::GetOsInfo),
        _ => None,
    }
}

/// Decodes what follows the marker on a line.
pub fn decode_line(rem: &[char]) -> (r: Option<Tool>)
    ensures
        opt_tool(r) == invocation_on_line(rem@),
{
    if rem.len() > 0 && rem[0] == '{' {
        let text = from_chars(rem);
        let found = match JsonValue::parse(text.as_str()) {
            Some(doc) => match ToolCall::from_document(doc) {
                Some(call) => call.into_tool(),
                None => None,
            },
            None => None,
        };
        if found.is_some() {
            return found;
        }
    }
    let empty: &[char] = &rem[0..0];
    let (token, params) = match split_first(rem) {
        Some(parts) => parts,
        None => (rem, empty),
    };
    assert(empty@ =~= Seq::<char>::empty());
    match Operation::from_name(token) {
        Some(op) => if params.len() == 0 {
            decode_without_arguments(op)
        } else {
            decode_arguments(op, params)
        },
        None => None,
    }
}

/// Finds the invocation that a reply asks for.
pub fn parse_tool_call(response: &str) -> (r: Option<Tool>)
    ensures
        opt_tool(r) == invocation_in(response@),
{
    let chars = to_chars(response);
    let lines = split_lines(chars.as_slice());
    let mark = to_chars("TOOL:");
    let ghost all = slices(lines@);
    let mut i: usize = 0;
    assert(all.skip(0) =~= all);
    while i < lines.len()
        invariant
            i <= lines.len(),
            all == slices(lines@),
            all == lines_of(response@),
            mark@ == marker(),
            first_marked(all.skip(i as int)) == first_marked(all),
        decreases lines.len() - i,
    {
        proof {
            assert(all.skip(i as int).drop_first() =~= all.skip(i + 1));
            assert(all.skip(i as int)[0] == lines@[i as int]@);
        }
        let t = trim(lines[i]);
        if starts_with(t, mark.as_slice()) {
            let rem = trim(&t[mark.len()..t.len()]);
            return decode_line(rem);
        }
        i += 1;
    }
    None
}

// ---------------------------------------------------------------------------
// Laws
// ---------------------------------------------------------------------------

/// What follows the marker on the first marked line is what follows it on
/// the first of the lines that has the marker.
pub proof fn lemma_first_marked(lines: Seq<Seq<char>>, i: int)
    requires
        0 <= i < lines.len(),
        forall|j: int| 0 <= j < i ==> marked(#[trigger] lines[j]) is None,
        marked(lines[i]) is Some,
    ensures
        first_marked(lines) == marked(lines[i]),
    decreases i,
{
    if i > 0 {
        let rest = lines.drop_first();
        assert forall|j: int| 0 <= j < i - 1 implies marked(#[trigger] rest[j]) is None by {
            assert(rest[j] == lines[j + 1]);
        }
        assert(rest[i - 1] == lines[i]);
        lemma_first_marked(rest, i - 1);
    }
}

/// Without a marked line among them, no line is the first marked one.
pub proof fn lemma_none_marked(lines: Seq<Seq<char>>)
    requires
        forall|j: int| 0 <= j < lines.len() ==> marked(#[trigger] lines[j]) is None,
    ensures
        first_marked(lines) is None,
    decreases lines.len(),
{
    if lines.len() > 0 {
        let rest = lines.drop_first();
        assert forall|j: int| 0 <= j < rest.len() implies marked(#[trigger] rest[j]) is None by {
            assert(rest[j] == lines[j + 1]);
        }
        lemma_none_marked(rest);
    }
}

/// A reply none of whose lines begins, once trimmed, with the marker asks
/// for no invocation.
pub proof fn lemma_reply_without_marker(response: Seq<char>)
    requires
        forall|j: int|
            0 <= j < lines_of(response).len() ==> !has_prefix(
                trimmed(#[trigger] lines_of(response)[j]),
                marker(),
            ),
    ensures
        invocation_in(response) is None,
{
    lemma_none_marked(lines_of(response));
}

/// Where the first marked line of a reply carries an object that names an
/// operation and gives its arguments, the reply asks for exactly that
/// invocation, whatever stands on the lines that follow.
pub proof fn lemma_first_structured_line_wins(
    response: Seq<char>,
    i: int,
    doc: JsonValue,
    op: Operation,
    tool: ToolView,
)
    requires
        0 <= i < lines_of(response).len(),
        forall|j: int| 0 <= j < i ==> marked(#[trigger] lines_of(response)[j]) is None,
        marked(lines_of(response)[i]) matches Some(rem) && rem.len() > 0 && rem[0] == '{'
            && json_document(rem) == Some(doc),
        ToolCall::in_document(doc) matches Some((name, parameters)) && Operation::named(name)
            == Some(op) && structured(op, parameters) == Some(tool),
    ensures
        invocation_in(response) == Some(tool),
{
    lemma_first_marked(lines_of(response), i);
}

/// The characters of a wire name: no name is empty or begins with a brace,
/// and none holds whitespace.
pub proof fn lemma_name_shape(op: Operation)
    ensures
        op.name().len() > 0,
        op.name()[0] != '{',
        forall|i: int| 0 <= i < op.name().len() ==> !is_whitespace(#[trigger] op.name()[i]),
{
    reveal_strlit("READ_FILE");
    reveal_strlit("WRITE_FILE");
    reveal_strlit("APPEND_FILE");
    reveal_strlit("SEARCH_REPLACE");
    reveal_strlit("DELETE_FILE");
    reveal_strlit("LIST_FILES");
    reveal_strlit("LIST_FILES_RECURSIVE");
    reveal_strlit("CREATE_DIRECTORY");
    reveal_strlit("GREP_SEARCH");
    reveal_strlit("GLOB_SEARCH");
    reveal_strlit("INDEX_CODEBASE");
    reveal_strlit("SEARCH_INDEX");
    reveal_strlit("FUZZY_FIND");
    reveal_strlit("READ_URL");
    reveal_strlit("SEARCH_WEB");
    reveal_strlit("REMEMBER");
    reveal_strlit("RECALL");
    reveal_strlit("EXECUTE_CODE");
    reveal_strlit("RUN_COMMAND");
    reveal_strlit("GIT_STATUS");
    reveal_strlit("GIT_DIFF");
    reveal_strlit("GIT_COMMIT");
    reveal_strlit("GIT_LOG");
    reveal_strlit("RUN_LINT");
    reveal_strlit("RUN_TESTS");
    reveal_strlit("INSTALL_PACKAGE");
    reveal_strlit("CREATE_PLAN");
    reveal_strlit("UPDATE_PLAN");
    reveal_strlit("CLEAR_PLAN");
    reveal_strlit("GET_TIME");
    reveal_strlit("GET_OS_INFO");
    reveal_strlit("COPY_FILE");
    reveal_strlit("MOVE_FILE");
    reveal_strlit("RENAME_FILE");
}

/// A line in the plain-text form decodes to the split that the grammar of
/// its operation prescribes: for every operation and every text of
/// arguments that is not empty, the name, one space and the arguments give
/// the invocation that `legacy` computes from the arguments.
pub proof fn lemma_legacy_line(op: Operation, params: Seq<char>)
    requires
        params.len() > 0,
    ensures
        invocation_on_line(op.name() + seq![' '] + params) == legacy(op, params),
{
    let name = op.name();
    let rem = name + seq![' '] + params;
    lemma_name_shape(op);
    assert(rem[0] == name[0]);
    assert forall|j: int| 0 <= j < name.len() implies #[trigger] rem[j] != ' ' by {
        assert(rem[j] == name[j]);
    }
    assert(rem[name.len() as int] == ' ');
    lemma_position(rem, ' ', name.len() as int);
    assert(rem.take(name.len() as int) =~= name);
    assert(rem.skip(name.len() + 1 as int) =~= params);
    Operation::lemma_named(op);
}


/// A reply that is one marked line in the plain-text form asks for the
/// invocation that the grammar of its operation prescribes: the marker, a
/// space, the name of an operation, a space and arguments give the
/// invocation that `legacy` computes from the arguments. The arguments hold
/// no line feed and do not end in whitespace, as a line of a reply that has
/// been trimmed does not.
pub proof fn lemma_legacy_reply(op: Operation, params: Seq<char>)
    requires
        params.len() > 0,
        !is_whitespace(params.last()),
        forall|i: int| 0 <= i < params.len() ==> #[trigger] params[i] != '\n',
    ensures
        invocation_in(marker() + seq![' '] + op.name() + seq![' '] + params) == legacy(
            op,
            params,
        ),
{
    reveal_strlit("TOOL:");
    let name = op.name();
    let rem = name + seq![' '] + params;
    let reply = marker() + seq![' '] + rem;
    assert(reply =~= marker() + seq![' '] + op.name() + seq![' '] + params);
    lemma_name_shape(op);
    assert forall|j: int| 0 <= j < reply.len() implies #[trigger] reply[j] != '\n' by {
        if j >= 6 + name.len() + 1 {
            assert(reply[j] == params[j - 6 - name.len() - 1]);
        } else if j >= 6 && j < 6 + name.len() {
            assert(reply[j] == name[j - 6]);
        }
    }
    lemma_position(reply, '\n', reply.len() as int);
    assert(lines_of(reply) =~= seq![reply]);
    assert(reply.last() == params.last());
    lemma_trimmed_fixed(reply);
    assert(reply.take(marker().len() as int) =~= marker());
    let tail = reply.skip(marker().len() as int);
    assert(tail =~= seq![' '] + rem);
    assert(tail[1] == name[0]);
    lemma_leading_whitespace(tail, 1);
    assert(trim_start(tail) =~= rem);
    assert(rem.last() == params.last());
    lemma_trailing_whitespace(rem, 0);
    assert(trimmed(tail) =~= rem);
    assert(first_marked(seq![reply].drop_first()) is None);
    lemma_legacy_line(op, params);
}


/// A line that holds the name of an operation and nothing else asks for the
/// operation without arguments: it yields the invocation of an operation
/// that needs none, and no invocation of one that needs some.
pub proof fn lemma_bare_line(op: Operation)
    ensures
        invocation_on_line(op.name()) == without_arguments(op),
{
    let name = op.name();
    lemma_name_shape(op);
    assert forall|j: int| 0 <= j < name.len() implies #[trigger] name[j] != ' ' by {}
    lemma_position(name, ' ', name.len() as int);
    Operation::lemma_named(op);
}

/// A reply that is the marker, a space and the name of an operation asks
/// for the operation without arguments.
pub proof fn lemma_bare_reply(op: Operation)
    ensures
        invocation_in(marker() + seq![' '] + op.name()) == without_arguments(op),
{
    reveal_strlit("TOOL:");
    let name = op.name();
    let reply = marker() + seq![' '] + name;
    lemma_name_shape(op);
    assert forall|j: int| 0 <= j < reply.len() implies #[trigger] reply[j] != '\n' by {
        if j >= 6 {
            assert(reply[j] == name[j - 6]);
        }
    }
    lemma_position(reply, '\n', reply.len() as int);
    assert(lines_of(reply) =~= seq![reply]);
    assert(reply.last() == name.last());
    lemma_trimmed_fixed(reply);
    assert(reply.take(marker().len() as int) =~= marker());
    let tail = reply.skip(marker().len() as int);
    assert(tail =~= seq![' '] + name);
    assert(tail[1] == name[0]);
    lemma_leading_whitespace(tail, 1);
    assert(trim_start(tail) =~= name);
    lemma_trailing_whitespace(name, 0);
    assert(trimmed(tail) =~= name);
    assert(first_marked(seq![reply].drop_first()) is None);
    lemma_bare_line(op);
}

} // verus!
