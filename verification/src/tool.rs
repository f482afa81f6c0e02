//! Invocations: one operation together with its typed arguments.

use crate::operation::Operation;
use crate::phrase::{cat3, cat4, cat5, cat6};
use crate::text::{decimal, format_usize, from_chars, opt_text, texts, to_chars};
use vstd::prelude::*;

verus! {

/// A decoded request to run one operation, with the arguments the operation
/// takes.
#[derive(Debug, Clone)]
#[allow(inconsistent_fields)]
pub enum Tool {
    ReadFile { path: String },
    WriteFile { path: String, content: String },
    AppendFile { path: String, content: String },
    SearchReplace { path: String, old_string: String, new_string: String },
    DeleteFile { path: String },
    ListFiles { path: String },
    ListFilesRecursive { path: String },
    CreateDirectory { path: String },
    GrepSearch { pattern: String, path: Option<String> },
    GlobSearch { pattern: String },
    IndexCodebase { path: String },
    SearchIndex { query: String },
    FuzzyFind { pattern: String, path: Option<String> },
    ReadUrl { url: String },
    SearchWeb { query: String },
    Remember { fact: String },
    Recall,
    ExecuteCode { language: String, code: String },
    RunCommand { command: String },
    GitStatus,
    GitDiff,
    GitCommit { message: String },
    GitLog { count: Option<usize> },
    RunLint { language: String, path: Option<String> },
    RunTests { framework: String, path: Option<String> },
    InstallPackage { manager: String, package: String },
    CreatePlan { task: String, steps: Vec<String> },
    UpdatePlan { completed_step: usize },
    ClearPlan,
    GetTime,
    GetOsInfo,
    CopyFile { source: String, destination: String },
    MoveFile { source: String, destination: String },
    RenameFile { old_name: String, new_name: String },
}

/// The mathematical value of a `Tool`: texts as character sequences.
#[allow(inconsistent_fields)]
pub ghost enum ToolView {
    ReadFile { path: Seq<char> },
    WriteFile { path: Seq<char>, content: Seq<char> },
    AppendFile { path: Seq<char>, content: Seq<char> },
    SearchReplace { path: Seq<char>, old_string: Seq<char>, new_string: Seq<char> },
    DeleteFile { path: Seq<char> },
    ListFiles { path: Seq<char> },
    ListFilesRecursive { path: Seq<char> },
    CreateDirectory { path: Seq<char> },
    GrepSearch { pattern: Seq<char>, path: Option<Seq<char>> },
    GlobSearch { pattern: Seq<char> },
    IndexCodebase { path: Seq<char> },
    SearchIndex { query: Seq<char> },
    FuzzyFind { pattern: Seq<char>, path: Option<Seq<char>> },
    ReadUrl { url: Seq<char> },
    SearchWeb { query: Seq<char> },
    Remember { fact: Seq<char> },
    Recall,
    ExecuteCode { language: Seq<char>, code: Seq<char> },
    RunCommand { command: Seq<char> },
    GitStatus,
    GitDiff,
    GitCommit { message: Seq<char> },
    GitLog { count: Option<usize> },
    RunLint { language: Seq<char>, path: Option<Seq<char>> },
    RunTests { framework: Seq<char>, path: Option<Seq<char>> },
    InstallPackage { manager: Seq<char>, package: Seq<char> },
    CreatePlan { task: Seq<char>, steps: Seq<Seq<char>> },
    UpdatePlan { completed_step: usize },
    ClearPlan,
    GetTime,
    GetOsInfo,
    CopyFile { source: Seq<char>, destination: Seq<char> },
    MoveFile { source: Seq<char>, destination: Seq<char> },
    RenameFile { old_name: Seq<char>, new_name: Seq<char> },
}

impl View for Tool {
    type V = ToolView;

    open spec fn view(&self) -> ToolView {
        match self {
            Tool::ReadFile { path } => ToolView::ReadFile { path: path@ },
            Tool::WriteFile { path, content } =>
                ToolView::WriteFile { path: path@, content: content@ },
            Tool::AppendFile { path, content } =>
                ToolView::AppendFile { path: path@, content: content@ },
            Tool::SearchReplace { path, old_string, new_string } =>
                ToolView::SearchReplace {
                    path: path@,
                    old_string: old_string@,
                    new_string: new_string@,
                },
            Tool::DeleteFile { path } => ToolView::DeleteFile { path: path@ },
            Tool::ListFiles { path } => ToolView::ListFiles { path: path@ },
            Tool::ListFilesRecursive { path } => ToolView::ListFilesRecursive { path: path@ },
            Tool::CreateDirectory { path } => ToolView::CreateDirectory { path: path@ },
            Tool::GrepSearch { pattern, path } =>
                ToolView::GrepSearch { pattern: pattern@, path: opt_text(*path) },
            Tool::GlobSearch { pattern } => ToolView::GlobSearch { pattern: pattern@ },
            Tool::IndexCodebase { path } => ToolView::IndexCodebase { path: path@ },
            Tool::SearchIndex { query } => ToolView::SearchIndex { query: query@ },
            Tool::FuzzyFind { pattern, path } =>
                ToolView::FuzzyFind { pattern: pattern@, path: opt_text(*path) },
            Tool::ReadUrl { url } => ToolView::ReadUrl { url: url@ },
            Tool::SearchWeb { query } => ToolView::SearchWeb { query: query@ },
            Tool::Remember { fact } => ToolView::Remember { fact: fact@ },
            Tool::Recall => ToolView::Recall,
            Tool::ExecuteCode { language, code } =>
                ToolView::ExecuteCode { language: language@, code: code@ },
            Tool::RunCommand { command } => ToolView::RunCommand { command: command@ },
            Tool::GitStatus => ToolView::GitStatus,
            Tool::GitDiff => ToolView::GitDiff,
            Tool::GitCommit { message } => ToolView::GitCommit { message: message@ },
            Tool::GitLog { count } => ToolView::GitLog { count: *count },
            Tool::RunLint { language, path } =>
                ToolView::RunLint { language: language@, path: opt_text(*path) },
            Tool::RunTests { framework, path } =>
                ToolView::RunTests { framework: framework@, path: opt_text(*path) },
            Tool::InstallPackage { manager, package } =>
                ToolView::InstallPackage { manager: manager@, package: package@ },
            Tool::CreatePlan { task, steps } =>
                ToolView::CreatePlan { task: task@, steps: texts(steps@) },
            Tool::UpdatePlan { completed_step } =>
                ToolView::UpdatePlan { completed_step: *completed_step },
            Tool::ClearPlan => ToolView::ClearPlan,
            Tool::GetTime => ToolView::GetTime,
            Tool::GetOsInfo => ToolView::GetOsInfo,
            Tool::CopyFile { source, destination } =>
                ToolView::CopyFile { source: source@, destination: destination@ },
            Tool::MoveFile { source, destination } =>
                ToolView::MoveFile { source: source@, destination: destination@ },
            Tool::RenameFile { old_name, new_name } =>
                ToolView::RenameFile { old_name: old_name@, new_name: new_name@ },
        }
    }
}

/// View of an optional invocation.
pub open spec fn opt_tool(o: Option<Tool>) -> Option<ToolView> {
    match o {
        Some(t) => Some(t@),
        None => None,
    }
}

/// At most the first `n` characters of `s`.
pub open spec fn at_most(s: Seq<char>, n: nat) -> Seq<char> {
    if s.len() <= n {
        s
    } else {
        s.take(n as int)
    }
}

impl ToolView {
    /// The operation that the invocation asks for.
    pub open spec fn operation(self) -> Operation {
        match self {
            ToolView::ReadFile { .. } => Operation::ReadFile,
            ToolView::WriteFile { .. } => Operation::WriteFile,
            ToolView::AppendFile { .. } => Operation::AppendFile,
            ToolView::SearchReplace { .. } => Operation::SearchReplace,
            ToolView::DeleteFile { .. } => Operation::DeleteFile,
            ToolView::ListFiles { .. } => Operation::ListFiles,
            ToolView::ListFilesRecursive { .. } => Operation::ListFilesRecursive,
            ToolView::CreateDirectory { .. } => Operation::CreateDirectory,
            ToolView::GrepSearch { .. } => Operation::GrepSearch,
            ToolView::GlobSearch { .. } => Operation::GlobSearch,
            ToolView::IndexCodebase { .. } => Operation::IndexCodebase,
            ToolView::SearchIndex { .. } => Operation::SearchIndex,
            ToolView::FuzzyFind { .. } => Operation::FuzzyFind,
            ToolView::ReadUrl { .. } => Operation::ReadUrl,
            ToolView::SearchWeb { .. } => Operation::SearchWeb,
            ToolView::Remember { .. } => Operation::Remember,
            ToolView::Recall => Operation::Recall,
            ToolView::ExecuteCode { .. } => Operation::ExecuteCode,
            ToolView::RunCommand { .. } => Operation::RunCommand,
            ToolView::GitStatus => Operation::GitStatus,
            ToolView::GitDiff => Operation::GitDiff,
            ToolView::GitCommit { .. } => Operation::GitCommit,
            ToolView::GitLog { .. } => Operation::GitLog,
            ToolView::RunLint { .. } => Operation::RunLint,
            ToolView::RunTests { .. } => Operation::RunTests,
            ToolView::InstallPackage { .. } => Operation::InstallPackage,
            ToolView::CreatePlan { .. } => Operation::CreatePlan,
            ToolView::UpdatePlan { .. } => Operation::UpdatePlan,
            ToolView::ClearPlan => Operation::ClearPlan,
            ToolView::GetTime => Operation::GetTime,
            ToolView::GetOsInfo => Operation::GetOsInfo,
            ToolView::CopyFile { .. } => Operation::CopyFile,
            ToolView::MoveFile { .. } => Operation::MoveFile,
            ToolView::RenameFile { .. } => Operation::RenameFile,
        }
    }

    /// What the invocation looks like in a log line: the wire name of the
    /// operation and the argument that tells one call from another.
    pub open spec fn label(self) -> Seq<char> {
        let name = self.operation().name();
        match self {
            ToolView::ReadFile { path, .. } => name + " "@ + path,
            ToolView::WriteFile { path, .. } => name + " "@ + path,
            ToolView::AppendFile { path, .. } => name + " "@ + path,
            ToolView::SearchReplace { path, .. } => name + " "@ + path,
            ToolView::DeleteFile { path, .. } => name + " "@ + path,
            ToolView::ListFiles { path, .. } => name + " "@ + path,
            ToolView::ListFilesRecursive { path, .. } => name + " "@ + path,
            ToolView::CreateDirectory { path, .. } => name + " "@ + path,
            ToolView::GrepSearch { pattern, .. } => name + " "@ + pattern,
            ToolView::GlobSearch { pattern, .. } => name + " "@ + pattern,
            ToolView::IndexCodebase { path, .. } => name + " "@ + path,
            ToolView::SearchIndex { query, .. } => name + " "@ + query,
            ToolView::FuzzyFind { pattern, .. } => name + " "@ + pattern,
            ToolView::ReadUrl { url, .. } => name + " "@ + url,
            ToolView::SearchWeb { query } => name + " '"@ + query + "'"@,
            ToolView::Remember { fact } => name + " ("@ + at_most(fact, 50) + ")"@,
            ToolView::Recall => name,
            ToolView::ExecuteCode { language, .. } => name + " "@ + language,
            ToolView::RunCommand { command, .. } => name + " "@ + command,
            ToolView::GitStatus => name,
            ToolView::GitDiff => name,
            ToolView::GitCommit { message } => name + " \""@ + message + "\""@,
            ToolView::GitLog { count } => name + " "@ + (match count {
                Some(n) => decimal(n as nat),
                None => "all"@,
            }),
            ToolView::RunLint { language, .. } => name + " "@ + language,
            ToolView::RunTests { framework, .. } => name + " "@ + framework,
            ToolView::InstallPackage { manager, package } => name + " "@ + manager + " "@ + package,
            ToolView::CreatePlan { task, steps } =>
                name + " \""@ + task + "\" ("@ + decimal(steps.len()) + " steps)"@,
            ToolView::UpdatePlan { completed_step } =>
                name + " step "@ + decimal(completed_step as nat),
            ToolView::ClearPlan => name,
            ToolView::GetTime => name,
            ToolView::GetOsInfo => name,
            ToolView::CopyFile { source, destination } =>
                name + " "@ + source + " -> "@ + destination,
            ToolView::MoveFile { source, destination } =>
                name + " "@ + source + " -> "@ + destination,
            ToolView::RenameFile { old_name, new_name } =>
                name + " "@ + old_name + " -> "@ + new_name,
        }
    }
}

impl Tool {
    /// The operation that the invocation asks for.
    pub fn operation(&self) -> (r: Operation)
        ensures
            r == self@.operation(),
    {
        match self {
            Tool::ReadFile { .. } => Operation::ReadFile,
            Tool::WriteFile { .. } => Operation::WriteFile,
            Tool::AppendFile { .. } => Operation::AppendFile,
            Tool::SearchReplace { .. } => Operation::SearchReplace,
            Tool::DeleteFile { .. } => Operation::DeleteFile,
            Tool::ListFiles { .. } => Operation::ListFiles,
            Tool::ListFilesRecursive { .. } => Operation::ListFilesRecursive,
            Tool::CreateDirectory { .. } => Operation::CreateDirectory,
            Tool::GrepSearch { .. } => Operation::GrepSearch,
            Tool::GlobSearch { .. } => Operation::GlobSearch,
            Tool::IndexCodebase { .. } => Operation::IndexCodebase,
            Tool::SearchIndex { .. } => Operation::SearchIndex,
            Tool::FuzzyFind { .. } => Operation::FuzzyFind,
            Tool::ReadUrl { .. } => Operation::ReadUrl,
            Tool::SearchWeb { .. } => Operation::SearchWeb,
            Tool::Remember { .. } => Operation::Remember,
            Tool::Recall => Operation::Recall,
            Tool::ExecuteCode { .. } => Operation::ExecuteCode,
            Tool::RunCommand { .. } => Operation::RunCommand,
            Tool::GitStatus => Operation::GitStatus,
            Tool::GitDiff => Operation::GitDiff,
            Tool::GitCommit { .. } => Operation::GitCommit,
            Tool::GitLog { .. } => Operation::GitLog,
            Tool::RunLint { .. } => Operation::RunLint,
            Tool::RunTests { .. } => Operation::RunTests,
            Tool::InstallPackage { .. } => Operation::InstallPackage,
            Tool::CreatePlan { .. } => Operation::CreatePlan,
            Tool::UpdatePlan { .. } => Operation::UpdatePlan,
            Tool::ClearPlan => Operation::ClearPlan,
            Tool::GetTime => Operation::GetTime,
            Tool::GetOsInfo => Operation::GetOsInfo,
            Tool::CopyFile { .. } => Operation::CopyFile,
            Tool::MoveFile { .. } => Operation::MoveFile,
            Tool::RenameFile { .. } => Operation::RenameFile,
        }
    }

    /// The label of the invocation for a log line.
    pub fn describe(&self) -> (r: String)
        ensures
            r@ == self@.label(),
    {
        let name = self.operation().wire_name();
        match self {
            Tool::ReadFile { path, .. } => cat3(name, " ", path.as_str()),
            Tool::WriteFile { path, .. } => cat3(name, " ", path.as_str()),
            Tool::AppendFile { path, .. } => cat3(name, " ", path.as_str()),
            Tool::SearchReplace { path, .. } => cat3(name, " ", path.as_str()),
            Tool::DeleteFile { path, .. } => cat3(name, " ", path.as_str()),
            Tool::ListFiles { path, .. } => cat3(name, " ", path.as_str()),
            Tool::ListFilesRecursive { path, .. } => cat3(name, " ", path.as_str()),
            Tool::CreateDirectory { path, .. } => cat3(name, " ", path.as_str()),
            Tool::GrepSearch { pattern, .. } => cat3(name, " ", pattern.as_str()),
            Tool::GlobSearch { pattern, .. } => cat3(name, " ", pattern.as_str()),
            Tool::IndexCodebase { path, .. } => cat3(name, " ", path.as_str()),
            Tool::SearchIndex { query, .. } => cat3(name, " ", query.as_str()),
            Tool::FuzzyFind { pattern, .. } => cat3(name, " ", pattern.as_str()),
            Tool::ReadUrl { url, .. } => cat3(name, " ", url.as_str()),
            Tool::SearchWeb { query } => cat4(name, " '", query.as_str(), "'"),
            Tool::Remember { fact } => {
                let chars = to_chars(fact.as_str());
                let n: usize = if chars.len() <= 50 {
                    chars.len()
                } else {
                    50
                };
                let head = from_chars(&chars.as_slice()[0..n]);
                assert(head@ =~= at_most(fact@, 50));
                cat4(name, " (", head.as_str(), ")")
            },
            Tool::Recall => String::from_str(name),
            Tool::ExecuteCode { language, .. } => cat3(name, " ", language.as_str()),
            Tool::RunCommand { command, .. } => cat3(name, " ", command.as_str()),
            Tool::GitStatus => String::from_str(name),
            Tool::GitDiff => String::from_str(name),
            Tool::GitCommit { message } => cat4(name, " \"", message.as_str(), "\""),
            Tool::GitLog { count } => {
                let shown = match count {
                    Some(n) => format_usize(*n),
                    None => String::from_str("all"),
                };
                cat3(name, " ", shown.as_str())
            },
            Tool::RunLint { language, .. } => cat3(name, " ", language.as_str()),
            Tool::RunTests { framework, .. } => cat3(name, " ", framework.as_str()),
            Tool::InstallPackage { manager, package } => cat5(
                name,
                " ",
                manager.as_str(),
                " ",
                package.as_str(),
            ),
            Tool::CreatePlan { task, steps } => {
                let count = format_usize(steps.len());
                assert(texts(steps@).len() == steps@.len());
                cat6(name, " \"", task.as_str(), "\" (", count.as_str(), " steps)")
            },
            Tool::UpdatePlan { completed_step } => {
                let shown = format_usize(*completed_step);
                cat3(name, " step ", shown.as_str())
            },
            Tool::ClearPlan => String::from_str(name),
            Tool::GetTime => String::from_str(name),
            Tool::GetOsInfo => String::from_str(name),
            Tool::CopyFile { source, destination } =>
                cat5(name, " ", source.as_str(), " -> ", destination.as_str()),
            Tool::MoveFile { source, destination } =>
                cat5(name, " ", source.as_str(), " -> ", destination.as_str()),
            Tool::RenameFile { old_name, new_name } =>
                cat5(name, " ", old_name.as_str(), " -> ", new_name.as_str()),
        }
    }
}

} // verus!
