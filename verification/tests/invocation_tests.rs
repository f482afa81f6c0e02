use rust_tui_coder::invocation::parse_tool_call;
use rust_tui_coder::text::{from_chars, split_lines, to_chars, trim};
use rust_tui_coder::tool::Tool;

#[test]
fn reply_without_marker_asks_for_nothing() {
    assert!(parse_tool_call("I am done.\nNothing more to do.").is_none());
    assert!(parse_tool_call("").is_none());
    assert!(parse_tool_call("ACTION: TOOL: READ_FILE a").is_none());
    assert!(parse_tool_call("tool: READ_FILE a").is_none());
}

#[test]
fn structured_line_is_decoded() {
    let reply = "Let me look.\n  TOOL: {\"name\":\"LIST_FILES\",\"parameters\":{\"path\":\".\"}}\nTOOL: READ_FILE x";
    match parse_tool_call(reply) {
        Some(Tool::ListFiles { path }) => assert_eq!(path, "."),
        other => panic!("unexpected: {:?}", other),
    }
}

#[test]
fn legacy_read_file_line_is_decoded() {
    match parse_tool_call("TOOL: READ_FILE a/b.txt") {
        Some(Tool::ReadFile { path }) => assert_eq!(path, "a/b.txt"),
        other => panic!("unexpected: {:?}", other),
    }
}

#[test]
fn lines_agree_with_std() {
    let samples = ["", "a", "a\n", "a\r\n", "a\r", "\n", "\r\n", "a\n\nb", "a\r\n\r\nb\r", "x\ny\nz\n", "\r", "a\n\r"];
    for s in samples.iter() {
        let chars = to_chars(s);
        let mine: Vec<String> = split_lines(&chars).iter().map(|l| from_chars(l)).collect();
        let theirs: Vec<String> = s.lines().map(|l| l.to_string()).collect();
        assert_eq!(mine, theirs, "for {:?}", s);
    }
}

#[test]
fn trim_agrees_with_std() {
    let samples = ["", " ", "  a  ", "\t\r\n a b \u{3000}", "\u{a0}x\u{2003}", "abc", "\u{200b}a"];
    for s in samples.iter() {
        let chars = to_chars(s);
        assert_eq!(from_chars(trim(&chars)), s.trim(), "for {:?}", s);
    }
}

fn parsed(reply: &str) -> String {
    format!("{:?}", parse_tool_call(reply))
}

#[test]
fn legacy_two_part_operations_split_at_the_first_space() {
    match parse_tool_call("TOOL: WRITE_FILE a.txt hello world") {
        Some(Tool::WriteFile { path, content }) => {
            assert_eq!(path, "a.txt");
            assert_eq!(content, "hello world");
        }
        other => panic!("unexpected: {:?}", other),
    }
    match parse_tool_call("TOOL: COPY_FILE a b c") {
        Some(Tool::CopyFile { source, destination }) => {
            assert_eq!(source, "a");
            assert_eq!(destination, "b c");
        }
        other => panic!("unexpected: {:?}", other),
    }
    match parse_tool_call("TOOL: EXECUTE_CODE python print('x y')") {
        Some(Tool::ExecuteCode { language, code }) => {
            assert_eq!(language, "python");
            assert_eq!(code, "print('x y')");
        }
        other => panic!("unexpected: {:?}", other),
    }
    assert!(parse_tool_call("TOOL: WRITE_FILE a.txt").is_none());
    assert!(parse_tool_call("TOOL: APPEND_FILE a.txt").is_none());
    assert!(parse_tool_call("TOOL: INSTALL_PACKAGE npm").is_none());
    assert!(parse_tool_call("TOOL: MOVE_FILE a").is_none());
    assert!(parse_tool_call("TOOL: RENAME_FILE a").is_none());
}

#[test]
fn legacy_search_replace_cuts_the_rest_at_its_last_space() {
    match parse_tool_call("TOOL: SEARCH_REPLACE f.rs old text new") {
        Some(Tool::SearchReplace { path, old_string, new_string }) => {
            assert_eq!(path, "f.rs");
            assert_eq!(old_string, "old text");
            assert_eq!(new_string, "new");
        }
        other => panic!("unexpected: {:?}", other),
    }
    assert!(parse_tool_call("TOOL: SEARCH_REPLACE f.rs onlyone").is_none());
    assert!(parse_tool_call("TOOL: SEARCH_REPLACE f.rs").is_none());
}

#[test]
fn legacy_optional_second_argument() {
    match parse_tool_call("TOOL: GREP_SEARCH TODO") {
        Some(Tool::GrepSearch { pattern, path }) => {
            assert_eq!(pattern, "TODO");
            assert_eq!(path, None);
        }
        other => panic!("unexpected: {:?}", other),
    }
    match parse_tool_call("TOOL: GREP_SEARCH TODO src/ lib") {
        Some(Tool::GrepSearch { pattern, path }) => {
            assert_eq!(pattern, "TODO");
            assert_eq!(path, Some("src/ lib".to_string()));
        }
        other => panic!("unexpected: {:?}", other),
    }
    match parse_tool_call("TOOL: RUN_TESTS cargo") {
        Some(Tool::RunTests { framework, path }) => {
            assert_eq!(framework, "cargo");
            assert_eq!(path, None);
        }
        other => panic!("unexpected: {:?}", other),
    }
    match parse_tool_call("TOOL: RUN_LINT rust crates/x") {
        Some(Tool::RunLint { language, path }) => {
            assert_eq!(language, "rust");
            assert_eq!(path, Some("crates/x".to_string()));
        }
        other => panic!("unexpected: {:?}", other),
    }
    match parse_tool_call("TOOL: FUZZY_FIND main") {
        Some(Tool::FuzzyFind { pattern, path }) => {
            assert_eq!(pattern, "main");
            assert_eq!(path, None);
        }
        other => panic!("unexpected: {:?}", other),
    }
}

#[test]
fn legacy_numbers() {
    assert_eq!(parsed("TOOL: GIT_LOG 5"), "Some(GitLog { count: Some(5) })");
    assert_eq!(parsed("TOOL: GIT_LOG +7"), "Some(GitLog { count: Some(7) })");
    assert_eq!(parsed("TOOL: GIT_LOG abc"), "Some(GitLog { count: None })");
    assert_eq!(parsed("TOOL: GIT_LOG -1"), "Some(GitLog { count: None })");
    assert_eq!(parsed("TOOL: GIT_LOG 99999999999999999999999999"), "Some(GitLog { count: None })");
    assert_eq!(parsed("TOOL: GIT_LOG"), "Some(GitLog { count: None })");
    assert_eq!(parsed("TOOL: UPDATE_PLAN 3"), "Some(UpdatePlan { completed_step: 3 })");
    assert_eq!(parsed("TOOL: UPDATE_PLAN   12"), "Some(UpdatePlan { completed_step: 12 })");
    assert_eq!(parsed("TOOL: UPDATE_PLAN x"), "None");
    assert_eq!(parsed("TOOL: UPDATE_PLAN 1 2"), "None");
}

#[test]
fn legacy_plan_takes_quoted_parts() {
    match parse_tool_call("TOOL: CREATE_PLAN \"Task description\" \"Step 1\" \" Step 2 \"") {
        Some(Tool::CreatePlan { task, steps }) => {
            assert_eq!(task, "Task description");
            assert_eq!(steps, vec!["Step 1".to_string(), "Step 2".to_string()]);
        }
        other => panic!("unexpected: {:?}", other),
    }
    assert!(parse_tool_call("TOOL: CREATE_PLAN \"only the task\"").is_none());
    assert!(parse_tool_call("TOOL: CREATE_PLAN \"\" \" \"").is_none());
}

#[test]
fn legacy_operations_without_arguments() {
    assert_eq!(parsed("TOOL: RECALL"), "Some(Recall)");
    assert_eq!(parsed("TOOL: GIT_STATUS"), "Some(GitStatus)");
    assert_eq!(parsed("TOOL: GIT_DIFF"), "Some(GitDiff)");
    assert_eq!(parsed("TOOL: GIT_LOG"), "Some(GitLog { count: None })");
    assert_eq!(parsed("TOOL: CLEAR_PLAN"), "Some(ClearPlan)");
    assert_eq!(parsed("TOOL: GET_TIME"), "Some(GetTime)");
    assert_eq!(parsed("TOOL: GET_OS_INFO"), "Some(GetOsInfo)");
    assert_eq!(parsed("  TOOL:   GIT_STATUS  \nmore text"), "Some(GitStatus)");
    assert_eq!(parsed("TOOL: RECALL now"), "Some(Recall)");
    assert_eq!(parsed("TOOL: GIT_STATUS please"), "Some(GitStatus)");
    assert_eq!(parsed("TOOL: GIT_DIFF ."), "Some(GitDiff)");
    assert_eq!(parsed("TOOL: CLEAR_PLAN x"), "Some(ClearPlan)");
    assert_eq!(parsed("TOOL: GET_TIME x"), "Some(GetTime)");
    assert_eq!(parsed("TOOL: GET_OS_INFO x"), "Some(GetOsInfo)");
}

#[test]
fn legacy_operations_that_need_an_argument_yield_none_without_one() {
    for name in [
        "READ_FILE", "WRITE_FILE", "APPEND_FILE", "SEARCH_REPLACE", "DELETE_FILE", "LIST_FILES",
        "LIST_FILES_RECURSIVE", "CREATE_DIRECTORY", "GREP_SEARCH", "GLOB_SEARCH",
        "INDEX_CODEBASE", "SEARCH_INDEX", "FUZZY_FIND", "READ_URL", "SEARCH_WEB", "REMEMBER",
        "EXECUTE_CODE", "RUN_COMMAND", "GIT_COMMIT", "RUN_LINT", "RUN_TESTS", "INSTALL_PACKAGE",
        "CREATE_PLAN", "UPDATE_PLAN", "COPY_FILE", "MOVE_FILE", "RENAME_FILE",
    ] {
        assert_eq!(parsed(&format!("TOOL: {}", name)), "None", "{}", name);
    }
    assert_eq!(parsed("TOOL: git_status"), "None");
    assert_eq!(parsed("TOOL: GIT_STATUS_NOW"), "None");
}

#[test]
fn legacy_single_argument_takes_all_that_follows() {
    assert_eq!(
        parsed("TOOL: RUN_COMMAND cargo build --release"),
        "Some(RunCommand { command: \"cargo build --release\" })"
    );
    assert_eq!(parsed("TOOL: GIT_COMMIT fix the bug"), "Some(GitCommit { message: \"fix the bug\" })");
    assert_eq!(parsed("TOOL: REMEMBER use tabs"), "Some(Remember { fact: \"use tabs\" })");
    assert_eq!(parsed("TOOL: SEARCH_WEB rust verus"), "Some(SearchWeb { query: \"rust verus\" })");
    assert_eq!(parsed("TOOL: READ_URL http://x.y/z"), "Some(ReadUrl { url: \"http://x.y/z\" })");
    assert_eq!(parsed("TOOL: GLOB_SEARCH *.rs"), "Some(GlobSearch { pattern: \"*.rs\" })");
    assert_eq!(parsed("TOOL: INDEX_CODEBASE src"), "Some(IndexCodebase { path: \"src\" })");
    assert_eq!(parsed("TOOL: SEARCH_INDEX parse"), "Some(SearchIndex { query: \"parse\" })");
    assert_eq!(parsed("TOOL: DELETE_FILE a b"), "Some(DeleteFile { path: \"a b\" })");
    assert_eq!(parsed("TOOL: LIST_FILES ."), "Some(ListFiles { path: \".\" })");
    assert_eq!(parsed("TOOL: LIST_FILES_RECURSIVE ."), "Some(ListFilesRecursive { path: \".\" })");
    assert_eq!(parsed("TOOL: CREATE_DIRECTORY a/b"), "Some(CreateDirectory { path: \"a/b\" })");
}

#[test]
fn marker_and_whitespace() {
    assert_eq!(parsed("   TOOL:    READ_FILE   x  "), "Some(ReadFile { path: \"  x\" })");
    assert_eq!(parsed("TOOL:READ_FILE x"), "Some(ReadFile { path: \"x\" })");
    assert_eq!(parsed("TOOL: READ_FILE a\r\nmore"), "Some(ReadFile { path: \"a\" })");
    assert_eq!(parsed("text\n\tTOOL: READ_FILE a\nTOOL: READ_FILE b"), "Some(ReadFile { path: \"a\" })");
    assert_eq!(parsed("Tool: READ_FILE a"), "None");
    assert_eq!(parsed("TOOL READ_FILE a"), "None");
    assert_eq!(parsed("TOOL:"), "None");
    assert_eq!(parsed("TOOL: read_file a"), "None");
    assert_eq!(parsed("TOOL: FLY away"), "None");
}

#[test]
fn only_the_first_marked_line_counts() {
    assert_eq!(parsed("TOOL: FLY away\nTOOL: READ_FILE x"), "None");
    assert_eq!(parsed("TOOL: RECALL\nTOOL: READ_FILE x"), "Some(Recall)");
    assert_eq!(parsed("TOOL: READ_FILE\nTOOL: READ_FILE x"), "None");
    assert_eq!(
        parsed("TOOL: {\"name\":\"GET_TIME\",\"parameters\":{}}\nTOOL: {\"name\":\"RECALL\",\"parameters\":{}}"),
        "Some(GetTime)"
    );
}

#[test]
fn structured_calls_for_each_shape() {
    assert_eq!(
        parsed("TOOL: {\"name\": \"WRITE_FILE\", \"parameters\": {\"path\": \"hello.txt\", \"content\": \"Hello World!\"}}"),
        "Some(WriteFile { path: \"hello.txt\", content: \"Hello World!\" })"
    );
    assert_eq!(
        parsed("TOOL: {\"name\":\"SEARCH_REPLACE\",\"parameters\":{\"path\":\"a\",\"old_string\":\"x y\",\"new_string\":\"\"}}"),
        "Some(SearchReplace { path: \"a\", old_string: \"x y\", new_string: \"\" })"
    );
    assert_eq!(
        parsed("TOOL: {\"name\":\"GREP_SEARCH\",\"parameters\":{\"pattern\":\"TODO|FIXME\",\"path\":\"src/\"}}"),
        "Some(GrepSearch { pattern: \"TODO|FIXME\", path: Some(\"src/\") })"
    );
    assert_eq!(
        parsed("TOOL: {\"name\":\"GREP_SEARCH\",\"parameters\":{\"pattern\":\"TODO\",\"path\":7}}"),
        "Some(GrepSearch { pattern: \"TODO\", path: None })"
    );
    assert_eq!(
        parsed("TOOL: {\"name\":\"GIT_LOG\",\"parameters\":{\"count\":3}}"),
        "Some(GitLog { count: Some(3) })"
    );
    assert_eq!(parsed("TOOL: {\"name\":\"GIT_LOG\",\"parameters\":{}}"), "Some(GitLog { count: None })");
    assert_eq!(
        parsed("TOOL: {\"name\":\"GIT_LOG\",\"parameters\":{\"count\":-3}}"),
        "Some(GitLog { count: None })"
    );
    assert_eq!(
        parsed("TOOL: {\"name\":\"GIT_LOG\",\"parameters\":{\"count\":2.5}}"),
        "Some(GitLog { count: None })"
    );
    assert_eq!(
        parsed("TOOL: {\"name\":\"GIT_LOG\",\"parameters\":{\"count\":\"3\"}}"),
        "Some(GitLog { count: None })"
    );
    assert_eq!(
        parsed("TOOL: {\"name\":\"CREATE_PLAN\",\"parameters\":{\"task\":\"T\",\"steps\":[\"a\",1,\"b\",null]}}"),
        "Some(CreatePlan { task: \"T\", steps: [\"a\", \"b\"] })"
    );
    assert_eq!(
        parsed("TOOL: {\"name\":\"UPDATE_PLAN\",\"parameters\":{\"completed_step\":2}}"),
        "Some(UpdatePlan { completed_step: 2 })"
    );
    assert_eq!(parsed("TOOL: {\"name\":\"GET_TIME\",\"parameters\":null}"), "Some(GetTime)");
    assert_eq!(
        parsed("TOOL: {\"extra\":[1,2],\"parameters\":{\"url\":\"u\"},\"name\":\"READ_URL\"}"),
        "Some(ReadUrl { url: \"u\" })"
    );
    assert_eq!(
        parsed("TOOL: {\"name\":\"RENAME_FILE\",\"parameters\":{\"old_name\":\"a\",\"new_name\":\"b\"}}"),
        "Some(RenameFile { old_name: \"a\", new_name: \"b\" })"
    );
    assert_eq!(
        parsed("TOOL: {\"name\":\"READ_FILE\",\"parameters\":{\"path\":\"caf\\u00e9 \\\"x\\\"\"}}"),
        "Some(ReadFile { path: \"café \\\"x\\\"\" })"
    );
}

#[test]
fn structured_calls_that_are_no_invocation() {
    assert_eq!(parsed("TOOL: {\"name\":\"READ_FILE\",\"parameters\":{}}"), "None");
    assert_eq!(parsed("TOOL: {\"name\":\"READ_FILE\",\"parameters\":{\"path\":5}}"), "None");
    assert_eq!(parsed("TOOL: {\"name\":\"READ_FILE\"}"), "None");
    assert_eq!(parsed("TOOL: {\"parameters\":{\"path\":\"a\"}}"), "None");
    assert_eq!(parsed("TOOL: {\"name\":\"FLY\",\"parameters\":{}}"), "None");
    assert_eq!(parsed("TOOL: {\"name\":\"read_file\",\"parameters\":{\"path\":\"a\"}}"), "None");
    assert_eq!(parsed("TOOL: {\"name\":\"READ_FILE\",\"parameters\":{\"path\":\"a\"}"), "None");
    assert_eq!(parsed("TOOL: {not json}"), "None");
    assert_eq!(parsed("TOOL: {\"name\":\"CREATE_PLAN\",\"parameters\":{\"task\":\"T\",\"steps\":\"a\"}}"), "None");
    assert_eq!(parsed("TOOL: {\"name\":\"UPDATE_PLAN\",\"parameters\":{\"completed_step\":\"2\"}}"), "None");
    assert_eq!(parsed("TOOL: {\"name\":\"WRITE_FILE\",\"parameters\":{\"path\":\"a\"}}"), "None");
}
