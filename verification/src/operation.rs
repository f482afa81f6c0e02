//! The catalogue of operations that a model may ask for.

use crate::text::is_word;
use vstd::prelude::*;

verus! {

/// One entry of the catalogue. Each operation has a wire name, by which a
/// model's output refers to it.
#[derive(Clone, Copy, Debug, PartialEq, Eq, Structural)]
pub enum Operation {
    ReadFile,
    WriteFile,
    AppendFile,
    SearchReplace,
    DeleteFile,
    ListFiles,
    ListFilesRecursive,
    CreateDirectory,
    GrepSearch,
    GlobSearch,
    IndexCodebase,
    SearchIndex,
    FuzzyFind,
    ReadUrl,
    SearchWeb,
    Remember,
    Recall,
    ExecuteCode,
    RunCommand,
    GitStatus,
    GitDiff,
    GitCommit,
    GitLog,
    RunLint,
    RunTests,
    InstallPackage,
    CreatePlan,
    UpdatePlan,
    ClearPlan,
    GetTime,
    GetOsInfo,
    CopyFile,
    MoveFile,
    RenameFile,
}

impl Operation {
    /// The wire name of the operation.
    pub open spec fn name(self) -> Seq<char> {
        match self {
            Operation::ReadFile => "READ_FILE"@,
            Operation::WriteFile => "WRITE_FILE"@,
            Operation::AppendFile => "APPEND_FILE"@,
            Operation::SearchReplace => "SEARCH_REPLACE"@,
            Operation::DeleteFile => "DELETE_FILE"@,
            Operation::ListFiles => "LIST_FILES"@,
            Operation::ListFilesRecursive => "LIST_FILES_RECURSIVE"@,
            Operation::CreateDirectory => "CREATE_DIRECTORY"@,
            Operation::GrepSearch => "GREP_SEARCH"@,
            Operation::GlobSearch => "GLOB_SEARCH"@,
            Operation::IndexCodebase => "INDEX_CODEBASE"@,
            Operation::SearchIndex => "SEARCH_INDEX"@,
            Operation::FuzzyFind => "FUZZY_FIND"@,
            Operation::ReadUrl => "READ_URL"@,
            Operation::SearchWeb => "SEARCH_WEB"@,
            Operation::Remember => "REMEMBER"@,
            Operation::Recall => "RECALL"@,
            Operation::ExecuteCode => "EXECUTE_CODE"@,
            Operation::RunCommand => "RUN_COMMAND"@,
            Operation::GitStatus => "GIT_STATUS"@,
            Operation::GitDiff => "GIT_DIFF"@,
            Operation::GitCommit => "GIT_COMMIT"@,
            Operation::GitLog => "GIT_LOG"@,
            Operation::RunLint => "RUN_LINT"@,
            Operation::RunTests => "RUN_TESTS"@,
            Operation::InstallPackage => "INSTALL_PACKAGE"@,
            Operation::CreatePlan => "CREATE_PLAN"@,
            Operation::UpdatePlan => "UPDATE_PLAN"@,
            Operation::ClearPlan => "CLEAR_PLAN"@,
            Operation::GetTime => "GET_TIME"@,
            Operation::GetOsInfo => "GET_OS_INFO"@,
            Operation::CopyFile => "COPY_FILE"@,
            Operation::MoveFile => "MOVE_FILE"@,
            Operation::RenameFile => "RENAME_FILE"@,
        }
    }

    /// The operation with wire name `name`, if there is one. Names are
    /// matched exactly: case matters.
    pub open spec fn named(name: Seq<char>) -> Option<Operation> {
        if exists|op: Operation| op.name() == name {
            Some(choose|op: Operation| op.name() == name)
        } else {
            None
        }
    }

    /// No two operations share a wire name.
    pub proof fn lemma_names_differ(a: Operation, b: Operation)
        requires
            a != b,
        ensures
            a.name() != b.name(),
    {
        reveal_strlit("READ_FILE");
        reveal_strlit("WRITE_FILE");
        reveal_strlit("APPEND_FILE");
        reveal_strlit("SEARCH_REPLACE");
        reveal_strlit("DELETE_FILE");
        reveal_strlit("LIST_FILES");
        reveal_strlit("LIST_FILES_RECURSIVE");
        reveal_strlit("CREATE_DIRECTORY");
        reveal_strlit("GREP_SEARCH");
        reveal_strlit("GLOB_SEARCH");
        reveal_strlit("INDEX_CODEBASE");
        reveal_strlit("SEARCH_INDEX");
        reveal_strlit("FUZZY_FIND");
        reveal_strlit("READ_URL");
        reveal_strlit("SEARCH_WEB");
        reveal_strlit("REMEMBER");
        reveal_strlit("RECALL");
        reveal_strlit("EXECUTE_CODE");
        reveal_strlit("RUN_COMMAND");
        reveal_strlit("GIT_STATUS");
        reveal_strlit("GIT_DIFF");
        reveal_strlit("GIT_COMMIT");
        reveal_strlit("GIT_LOG");
        reveal_strlit("RUN_LINT");
        reveal_strlit("RUN_TESTS");
        reveal_strlit("INSTALL_PACKAGE");
        reveal_strlit("CREATE_PLAN");
        reveal_strlit("UPDATE_PLAN");
        reveal_strlit("CLEAR_PLAN");
        reveal_strlit("GET_TIME");
        reveal_strlit("GET_OS_INFO");
        reveal_strlit("COPY_FILE");
        reveal_strlit("MOVE_FILE");
        reveal_strlit("RENAME_FILE");
        let x = a.name();
        let y = b.name();
        assert(x.len() != y.len() || x[2] != y[2] || x[4] != y[4]);
    }

    /// Looking an operation up by its own wire name finds it.
    pub proof fn lemma_named(op: Operation)
        ensures
            Operation::named(op.name()) == Some(op),
    {
        let found = choose|o: Operation| o.name() == op.name();
        if found != op {
            Operation::lemma_names_differ(found, op);
        }
    }

    /// The wire name of the operation.
    pub fn wire_name(self) -> (r: &'static str)
        ensures
            r@ == self.name(),
    {
        match self {
            Operation::ReadFile => "READ_FILE",
            Operation::WriteFile => "WRITE_FILE",
            Operation::AppendFile => "APPEND_FILE",
            Operation::SearchReplace => "SEARCH_REPLACE",
            Operation::DeleteFile => "DELETE_FILE",
            Operation::ListFiles => "LIST_FILES",
            Operation::ListFilesRecursive => "LIST_FILES_RECURSIVE",
            Operation::CreateDirectory => "CREATE_DIRECTORY",
            Operation::GrepSearch => "GREP_SEARCH",
            Operation::GlobSearch => "GLOB_SEARCH",
            Operation::IndexCodebase => "INDEX_CODEBASE",
            Operation::SearchIndex => "SEARCH_INDEX",
            Operation::FuzzyFind => "FUZZY_FIND",
            Operation::ReadUrl => "READ_URL",
            Operation::SearchWeb => "SEARCH_WEB",
            Operation::Remember => "REMEMBER",
            Operation::Recall => "RECALL",
            Operation::ExecuteCode => "EXECUTE_CODE",
            Operation::RunCommand => "RUN_COMMAND",
            Operation::GitStatus => "GIT_STATUS",
            Operation::GitDiff => "GIT_DIFF",
            Operation::GitCommit => "GIT_COMMIT",
            Operation::GitLog => "GIT_LOG",
            Operation::RunLint => "RUN_LINT",
            Operation::RunTests => "RUN_TESTS",
            Operation::InstallPackage => "INSTALL_PACKAGE",
            Operation::CreatePlan => "CREATE_PLAN",
            Operation::UpdatePlan => "UPDATE_PLAN",
            Operation::ClearPlan => "CLEAR_PLAN",
            Operation::GetTime => "GET_TIME",
            Operation::GetOsInfo => "GET_OS_INFO",
            Operation::CopyFile => "COPY_FILE",
            Operation::MoveFile => "MOVE_FILE",
            Operation::RenameFile => "RENAME_FILE",
        }
    }

    /// Looks an operation up by its wire name.
    pub fn from_name(token: &[char]) -> (r: Option<Operation>)
        ensures
            r == Operation::named(token@),
    {
        if is_word(token, "READ_FILE") {
            proof {
                Operation::lemma_named(Operation::ReadFile);
            }
            Some(Operation::ReadFile)
        } else if is_word(token, "WRITE_FILE") {
            proof {
                Operation::lemma_named(Operation::WriteFile);
            }
            Some(Operation::WriteFile)
        } else if is_word(token, "APPEND_FILE") {
            proof {
                Operation::lemma_named(Operation::AppendFile);
            }
            Some(Operation::AppendFile)
        } else if is_word(token, "SEARCH_REPLACE") {
            proof {
                Operation::lemma_named(Operation::SearchReplace);
            }
            Some(Operation::SearchReplace)
        } else if is_word(token, "DELETE_FILE") {
            proof {
                Operation::lemma_named(Operation::DeleteFile);
            }
            Some(Operation::DeleteFile)
        } else if is_word(token, "LIST_FILES") {
            proof {
                Operation::lemma_named(Operation::ListFiles);
            }
            Some(Operation::ListFiles)
        } else if is_word(token, "LIST_FILES_RECURSIVE") {
            proof {
                Operation::lemma_named(Operation::ListFilesRecursive);
            }
            Some(Operation::ListFilesRecursive)
        } else if is_word(token, "CREATE_DIRECTORY") {
            proof {
                Operation::lemma_named(Operation::CreateDirectory);
            }
            Some(Operation::CreateDirectory)
        } else if is_word(token, "GREP_SEARCH") {
            proof {
                Operation::lemma_named(Operation::GrepSearch);
            }
            Some(Operation::GrepSearch)
        } else if is_word(token, "GLOB_SEARCH") {
            proof {
                Operation::lemma_named(Operation::GlobSearch);
            }
            Some(Operation::GlobSearch)
        } else if is_word(token, "INDEX_CODEBASE") {
            proof {
                Operation::lemma_named(Operation::IndexCodebase);
            }
            Some(Operation::IndexCodebase)
        } else if is_word(token, "SEARCH_INDEX") {
            proof {
                Operation::lemma_named(Operation::SearchIndex);
            }
            Some(Operation::SearchIndex)
        } else if is_word(token, "FUZZY_FIND") {
            proof {
                Operation::lemma_named(Operation::FuzzyFind);
            }
            Some(Operation::FuzzyFind)
        } else if is_word(token, "READ_URL") {
            proof {
                Operation::lemma_named(Operation::ReadUrl);
            }
            Some(Operation::ReadUrl)
        } else if is_word(token, "SEARCH_WEB") {
            proof {
                Operation::lemma_named(Operation::SearchWeb);
            }
            Some(Operation::SearchWeb)
        } else if is_word(token, "REMEMBER") {
            proof {
                Operation::lemma_named(Operation::Remember);
            }
            Some(Operation::Remember)
        } else if is_word(token, "RECALL") {
            proof {
                Operation::lemma_named(Operation::Recall);
            }
            Some(Operation::Recall)
        } else if is_word(token, "EXECUTE_CODE") {
            proof {
                Operation::lemma_named(Operation::ExecuteCode);
            }
            Some(Operation::ExecuteCode)
        } else if is_word(token, "RUN_COMMAND") {
            proof {
                Operation::lemma_named(Operation::RunCommand);
            }
            Some(Operation::RunCommand)
        } else if is_word(token, "GIT_STATUS") {
            proof {
                Operation::lemma_named(Operation::GitStatus);
            }
            Some(Operation::GitStatus)
        } else if is_word(token, "GIT_DIFF") {
            proof {
                Operation::lemma_named(Operation::GitDiff);
            }
            Some(Operation::GitDiff)
        } else if is_word(token, "GIT_COMMIT") {
            proof {
                Operation::lemma_named(Operation::GitCommit);
            }
            Some(Operation::GitCommit)
        } else if is_word(token, "GIT_LOG") {
            proof {
                Operation::lemma_named(Operation::GitLog);
            }
            Some(Operation::GitLog)
        } else if is_word(token, "RUN_LINT") {
            proof {
                Operation::lemma_named(Operation::RunLint);
            }
            Some(Operation::RunLint)
        } else if is_word(token, "RUN_TESTS") {
            proof {
                Operation::lemma_named(Operation::RunTests);
            }
            Some(Operation::RunTests)
        } else if is_word(token, "INSTALL_PACKAGE") {
            proof {
                Operation::lemma_named(Operation::InstallPackage);
            }
            Some(Operation::InstallPackage)
        } else if is_word(token, "CREATE_PLAN") {
            proof {
                Operation::lemma_named(Operation::CreatePlan);
            }
            Some(Operation::CreatePlan)
        } else if is_word(token, "UPDATE_PLAN") {
            proof {
                Operation::lemma_named(Operation::UpdatePlan);
            }
            Some(Operation::UpdatePlan)
        } else if is_word(token, "CLEAR_PLAN") {
            proof {
                Operation::lemma_named(Operation::ClearPlan);
            }
            Some(Operation::ClearPlan)
        } else if is_word(token, "GET_TIME") {
            proof {
                Operation::lemma_named(Operation::GetTime);
            }
            Some(Operation::GetTime)
        } else if is_word(token, "GET_OS_INFO") {
            proof {
                Operation::lemma_named(Operation::GetOsInfo);
            }
            Some(Operation::GetOsInfo)
        } else if is_word(token, "COPY_FILE") {
            proof {
                Operation::lemma_named(Operation::CopyFile);
            }
            Some(Operation::CopyFile)
        } else if is_word(token, "MOVE_FILE") {
            proof {
                Operation::lemma_named(Operation::MoveFile);
            }
            Some(Operation::MoveFile)
        } else if is_word(token, "RENAME_FILE") {
            proof {
                Operation::lemma_named(Operation::RenameFile);
            }
            Some(Operation::RenameFile)
        } else {
            assert forall|op: Operation| op.name() != token@ by {
                match op {
                    Operation::ReadFile => {},
                    Operation::WriteFile => {},
                    Operation::AppendFile => {},
                    Operation::SearchReplace => {},
                    Operation::DeleteFile => {},
                    Operation::ListFiles => {},
                    Operation::ListFilesRecursive => {},
                    Operation::CreateDirectory => {},
                    Operation::GrepSearch => {},
                    Operation::GlobSearch => {},
                    Operation::IndexCodebase => {},
                    Operation::SearchIndex => {},
                    Operation::FuzzyFind => {},
                    Operation::ReadUrl => {},
                    Operation::SearchWeb => {},
                    Operation::Remember => {},
                    Operation::Recall => {},
                    Operation::ExecuteCode => {},
                    Operation::RunCommand => {},
                    Operation::GitStatus => {},
                    Operation::GitDiff => {},
                    Operation::GitCommit => {},
                    Operation::GitLog => {},
                    Operation::RunLint => {},
                    Operation::RunTests => {},
                    Operation::InstallPackage => {},
                    Operation::CreatePlan => {},
                    Operation::UpdatePlan => {},
                    Operation::ClearPlan => {},
                    Operation::GetTime => {},
                    Operation::GetOsInfo => {},
                    Operation::CopyFile => {},
                    Operation::MoveFile => {},
                    Operation::RenameFile => {},
                }
            }
            None
        }
    }
}

} // verus!
