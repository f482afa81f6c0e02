use rust_tui_coder::invocation::{
    decode_arguments, decode_line, decode_without_arguments, ToolCall,
};
use rust_tui_coder::json::JsonValue;
use rust_tui_coder::operation::Operation;
use rust_tui_coder::text::to_chars;
use rust_tui_coder::tool::Tool;

const NAMES: [(&str, Operation); 34] = [
    ("READ_FILE", Operation::ReadFile),
    ("WRITE_FILE", Operation::WriteFile),
    ("APPEND_FILE", Operation::AppendFile),
    ("SEARCH_REPLACE", Operation::SearchReplace),
    ("DELETE_FILE", Operation::DeleteFile),
    ("LIST_FILES", Operation::ListFiles),
    ("LIST_FILES_RECURSIVE", Operation::ListFilesRecursive),
    ("CREATE_DIRECTORY", Operation::CreateDirectory),
    ("GREP_SEARCH", Operation::GrepSearch),
    ("GLOB_SEARCH", Operation::GlobSearch),
    ("INDEX_CODEBASE", Operation::IndexCodebase),
    ("SEARCH_INDEX", Operation::SearchIndex),
    ("FUZZY_FIND", Operation::FuzzyFind),
    ("READ_URL", Operation::ReadUrl),
    ("SEARCH_WEB", Operation::SearchWeb),
    ("REMEMBER", Operation::Remember),
    ("RECALL", Operation::Recall),
    ("EXECUTE_CODE", Operation::ExecuteCode),
    ("RUN_COMMAND", Operation::RunCommand),
    ("GIT_STATUS", Operation::GitStatus),
    ("GIT_DIFF", Operation::GitDiff),
    ("GIT_COMMIT", Operation::GitCommit),
    ("GIT_LOG", Operation::GitLog),
    ("RUN_LINT", Operation::RunLint),
    ("RUN_TESTS", Operation::RunTests),
    ("INSTALL_PACKAGE", Operation::InstallPackage),
    ("CREATE_PLAN", Operation::CreatePlan),
    ("UPDATE_PLAN", Operation::UpdatePlan),
    ("CLEAR_PLAN", Operation::ClearPlan),
    ("GET_TIME", Operation::GetTime),
    ("GET_OS_INFO", Operation::GetOsInfo),
    ("COPY_FILE", Operation::CopyFile),
    ("MOVE_FILE", Operation::MoveFile),
    ("RENAME_FILE", Operation::RenameFile),
];

fn object(members: Vec<(&str, JsonValue)>) -> JsonValue {
    JsonValue::Object(members.into_iter().map(|(k, v)| (k.to_string(), v)).collect())
}

fn text(s: &str) -> JsonValue {
    JsonValue::Text(s.to_string())
}

fn call(name: &str, parameters: JsonValue) -> String {
    format!("{:?}", ToolCall { name: name.to_string(), parameters }.into_tool())
}

#[test]
fn every_operation_is_found_by_its_wire_name() {
    for (name, op) in NAMES.iter() {
        assert_eq!(op.wire_name(), *name);
        assert_eq!(Operation::from_name(&to_chars(name)), Some(*op));
        let lower = name.to_lowercase();
        assert_eq!(Operation::from_name(&to_chars(&lower)), None);
        let shorter = &name[..name.len() - 1];
        assert_eq!(Operation::from_name(&to_chars(shorter)), None);
    }
    assert_eq!(Operation::from_name(&to_chars("")), None);
    assert_eq!(Operation::from_name(&to_chars("READ_FILE ")), None);
}

#[test]
fn into_tool_reads_required_and_optional_arguments() {
    assert_eq!(
        call("READ_FILE", object(vec![("path", text("a/b.txt"))])),
        "Some(ReadFile { path: \"a/b.txt\" })"
    );
    assert_eq!(call("READ_FILE", object(vec![("file", text("a"))])), "None");
    assert_eq!(call("READ_FILE", object(vec![("path", JsonValue::Null)])), "None");
    assert_eq!(call("READ_FILE", JsonValue::Null), "None");
    assert_eq!(call("RECALL", JsonValue::Null), "Some(Recall)");
    assert_eq!(call("GIT_STATUS", JsonValue::Array(vec![])), "Some(GitStatus)");
    assert_eq!(call("CLEAR_PLAN", object(vec![])), "Some(ClearPlan)");
    assert_eq!(call("GET_OS_INFO", object(vec![])), "Some(GetOsInfo)");
    assert_eq!(call("GIT_DIFF", object(vec![])), "Some(GitDiff)");
    assert_eq!(
        call("FUZZY_FIND", object(vec![("pattern", text("main")), ("path", text("src/"))])),
        "Some(FuzzyFind { pattern: \"main\", path: Some(\"src/\") })"
    );
    assert_eq!(
        call("RUN_LINT", object(vec![("language", text("rust"))])),
        "Some(RunLint { language: \"rust\", path: None })"
    );
    assert_eq!(
        call("RUN_TESTS", object(vec![("framework", text("cargo")), ("path", JsonValue::Bool(true))])),
        "Some(RunTests { framework: \"cargo\", path: None })"
    );
    assert_eq!(
        call("INSTALL_PACKAGE", object(vec![("manager", text("npm")), ("package", text("left-pad"))])),
        "Some(InstallPackage { manager: \"npm\", package: \"left-pad\" })"
    );
    assert_eq!(call("INSTALL_PACKAGE", object(vec![("manager", text("npm"))])), "None");
    assert_eq!(
        call("GIT_LOG", object(vec![("count", JsonValue::Unsigned(12))])),
        "Some(GitLog { count: Some(12) })"
    );
    assert_eq!(
        call("GIT_LOG", object(vec![("count", JsonValue::OtherNumber)])),
        "Some(GitLog { count: None })"
    );
    assert_eq!(call("UPDATE_PLAN", object(vec![("completed_step", JsonValue::OtherNumber)])), "None");
    assert_eq!(
        call(
            "CREATE_PLAN",
            object(vec![
                ("task", text("Build")),
                ("steps", JsonValue::Array(vec![text("one"), JsonValue::Unsigned(2), text("three")])),
            ])
        ),
        "Some(CreatePlan { task: \"Build\", steps: [\"one\", \"three\"] })"
    );
    assert_eq!(call("CREATE_PLAN", object(vec![("task", text("Build"))])), "None");
    assert_eq!(call("NOPE", object(vec![])), "None");
    assert_eq!(
        call("MOVE_FILE", object(vec![("source", text("a")), ("destination", text("b"))])),
        "Some(MoveFile { source: \"a\", destination: \"b\" })"
    );
    assert_eq!(
        call("COPY_FILE", object(vec![("destination", text("b")), ("source", text("a"))])),
        "Some(CopyFile { source: \"a\", destination: \"b\" })"
    );
}

#[test]
fn first_member_of_a_name_wins() {
    let doc = object(vec![("path", text("first")), ("path", text("second"))]);
    assert_eq!(call("DELETE_FILE", doc), "Some(DeleteFile { path: \"first\" })");
}

#[test]
fn call_is_read_from_a_document() {
    let doc = object(vec![
        ("name", text("LIST_FILES")),
        ("note", JsonValue::Bool(false)),
        ("parameters", object(vec![("path", text("."))])),
    ]);
    let call = ToolCall::from_document(doc).unwrap();
    assert_eq!(call.name, "LIST_FILES");
    assert_eq!(format!("{:?}", call.into_tool()), "Some(ListFiles { path: \".\" })");
    assert!(ToolCall::from_document(object(vec![("name", text("X"))])).is_none());
    assert!(ToolCall::from_document(object(vec![("parameters", object(vec![]))])).is_none());
    assert!(ToolCall::from_document(object(vec![("name", JsonValue::Unsigned(1)), ("parameters", object(vec![]))])).is_none());
    assert!(ToolCall::from_document(JsonValue::Array(vec![])).is_none());
}

#[test]
fn json_parser_gives_plain_values() {
    let doc = JsonValue::parse("{\"a\":[1,-2,3.5,\"x\",true,null,{\"b\":18446744073709551615}]}").unwrap();
    assert_eq!(
        format!("{:?}", doc),
        "Object([(\"a\", Array([Unsigned(1), OtherNumber, OtherNumber, Text(\"x\"), Bool(true), Null, Object([(\"b\", Unsigned(18446744073709551615))])]))])"
    );
    assert!(JsonValue::parse("{\"a\":").is_none());
    assert!(JsonValue::parse("").is_none());
    assert!(JsonValue::parse("1 2").is_none());
    assert_eq!(format!("{:?}", JsonValue::parse(" \"x\" ")), "Some(Text(\"x\"))");
    match JsonValue::parse_or_message("[1,") {
        Err(message) => assert!(!message.is_empty()),
        Ok(v) => panic!("unexpected: {:?}", v),
    }
    let value = JsonValue::parse("{\"k\":\"v\",\"n\":7,\"l\":[\"a\"]}").unwrap();
    assert_eq!(value.string_at("k"), Some("v".to_string()));
    assert_eq!(value.string_at("n"), None);
    assert_eq!(value.u64_at("n"), Some(7));
    assert_eq!(value.u64_at("k"), None);
    assert_eq!(value.array_at("l").map(|l| l.len()), Some(1));
    assert!(value.get("zz").is_none());
    assert_eq!(format!("{:?}", value.take_field("l")), "Some(Array([Text(\"a\")]))");
}

#[test]
fn decode_line_prefers_the_object_form() {
    let line = to_chars("{\"name\":\"REMEMBER\",\"parameters\":{\"fact\":\"tabs\"}}");
    assert_eq!(format!("{:?}", decode_line(&line)), "Some(Remember { fact: \"tabs\" })");
    let legacy = to_chars("REMEMBER {tabs}");
    assert_eq!(format!("{:?}", decode_line(&legacy)), "Some(Remember { fact: \"{tabs}\" })");
    assert_eq!(format!("{:?}", decode_line(&to_chars("GIT_DIFF"))), "Some(GitDiff)");
    assert_eq!(format!("{:?}", decode_line(&to_chars("READ_FILE "))), "None");
    assert_eq!(format!("{:?}", decode_line(&to_chars(""))), "None");
    assert_eq!(
        format!("{:?}", decode_without_arguments(Operation::GitLog)),
        "Some(GitLog { count: None })"
    );
    assert_eq!(format!("{:?}", decode_without_arguments(Operation::RunCommand)), "None");
    let args = to_chars("a b");
    assert_eq!(
        format!("{:?}", decode_arguments(Operation::AppendFile, &args)),
        "Some(AppendFile { path: \"a\", content: \"b\" })"
    );
}

#[test]
fn labels_for_the_log() {
    let cases: Vec<(Tool, &str)> = vec![
        (Tool::ReadFile { path: "a".into() }, "READ_FILE a"),
        (Tool::WriteFile { path: "a".into(), content: "zzz".into() }, "WRITE_FILE a"),
        (Tool::SearchReplace { path: "p".into(), old_string: "o".into(), new_string: "n".into() }, "SEARCH_REPLACE p"),
        (Tool::GrepSearch { pattern: "x".into(), path: Some("y".into()) }, "GREP_SEARCH x"),
        (Tool::SearchWeb { query: "rust book".into() }, "SEARCH_WEB 'rust book'"),
        (Tool::Remember { fact: "f".repeat(60) }, "REMEMBER (ffffffffffffffffffffffffffffffffffffffffffffffffff)"),
        (Tool::Remember { fact: "short".into() }, "REMEMBER (short)"),
        (Tool::Recall, "RECALL"),
        (Tool::ExecuteCode { language: "py".into(), code: "1".into() }, "EXECUTE_CODE py"),
        (Tool::GitCommit { message: "m".into() }, "GIT_COMMIT \"m\""),
        (Tool::GitLog { count: None }, "GIT_LOG all"),
        (Tool::GitLog { count: Some(0) }, "GIT_LOG 0"),
        (Tool::GitLog { count: Some(120) }, "GIT_LOG 120"),
        (Tool::InstallPackage { manager: "npm".into(), package: "x".into() }, "INSTALL_PACKAGE npm x"),
        (Tool::CreatePlan { task: "T".into(), steps: vec!["a".into(), "b".into()] }, "CREATE_PLAN \"T\" (2 steps)"),
        (Tool::UpdatePlan { completed_step: 3 }, "UPDATE_PLAN step 3"),
        (Tool::ClearPlan, "CLEAR_PLAN"),
        (Tool::GetTime, "GET_TIME"),
        (Tool::GetOsInfo, "GET_OS_INFO"),
        (Tool::CopyFile { source: "a".into(), destination: "b".into() }, "COPY_FILE a -> b"),
        (Tool::MoveFile { source: "a".into(), destination: "b".into() }, "MOVE_FILE a -> b"),
        (Tool::RenameFile { old_name: "a".into(), new_name: "b".into() }, "RENAME_FILE a -> b"),
        (Tool::GitStatus, "GIT_STATUS"),
        (Tool::RunTests { framework: "jest".into(), path: None }, "RUN_TESTS jest"),
    ];
    for (tool, label) in cases {
        assert_eq!(tool.describe(), label);
        assert_eq!(tool.describe().starts_with(tool.operation().wire_name()), true);
    }
}
