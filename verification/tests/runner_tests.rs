use rust_tui_coder::runner::{
    classify, command_report, compile_check, executable_path, filled_lines, framework_of, fuzzy_matches,
    fuzzy_report, git_commit_report, git_diff_report, git_log_limit, git_log_report,
    git_status_report, glob_report, grep_report, install_report, javascript_installer,
    lint_report, lint_unsupported, linter_of, manager_of, manager_unsupported,
    rust_package_directory, rust_package_toml, run_report, search_root, test_report,
    tests_unsupported, unsupported_language, Ecosystem, Language, Output,
    framework_from_lowercase, install_command, lint_attempts, linter_from_lowercase,
    lowercase_each, manager_from_lowercase, select_matching, settle, test_attempts, unavailable,
    Attempts, CommandLine,
};

fn output(success: bool, stdout: &str, stderr: &str) -> Output {
    Output { success, stdout: stdout.to_string(), stderr: stderr.to_string() }
}

#[test]
fn languages_are_known_by_their_names_in_any_case() {
    let cases = [
        ("python", Some(Language::Python)),
        ("PY", Some(Language::Python)),
        ("JavaScript", Some(Language::JavaScript)),
        ("js", Some(Language::JavaScript)),
        ("Node", Some(Language::JavaScript)),
        ("bash", Some(Language::Bash)),
        ("SH", Some(Language::Bash)),
        ("Rust", Some(Language::Rust)),
        ("GO", Some(Language::Go)),
        ("java", Some(Language::Java)),
        ("C", Some(Language::C)),
        ("Cpp", Some(Language::Cpp)),
        ("C++", Some(Language::Cpp)),
        ("ruby", None),
        ("", None),
        (" python", None),
    ];
    for (name, expected) in cases.iter() {
        assert_eq!(Language::from_name(name), *expected, "{:?}", name);
    }
}

#[test]
fn sources_and_programs_of_languages() {
    assert_eq!(Language::Python.source_path(17), Some("/tmp/temp_code_17.py".to_string()));
    assert_eq!(Language::JavaScript.source_path(17), Some("/tmp/temp_code_17.js".to_string()));
    assert_eq!(Language::Bash.source_path(17), None);
    assert_eq!(Language::Rust.source_path(17), Some("/tmp/rust_code_17/src/main.rs".to_string()));
    assert_eq!(Language::Go.source_path(0), Some("/tmp/temp_code_0.go".to_string()));
    assert_eq!(Language::Java.source_path(1), Some("/tmp/temp_code_1.java".to_string()));
    assert_eq!(Language::C.source_path(1), Some("/tmp/temp_code_1.c".to_string()));
    assert_eq!(Language::Cpp.source_path(1), Some("/tmp/temp_code_1.cpp".to_string()));
    assert_eq!(rust_package_directory(17), "/tmp/rust_code_17");
    assert_eq!(executable_path(17), "/tmp/temp_exe_17");
    assert!(rust_package_toml().starts_with("[package]\nname = \"temp_code\"\n"));
    assert_eq!(Language::Python.wrap_source("print(1)"), "print(1)");
    assert_eq!(Language::Go.wrap_source("func main() {}"), "package main\n\nfunc main() {}");
    assert_eq!(
        Language::Java.wrap_source("int x = 1;"),
        "public class TempCode {\n    public static void main(String[] args) {\n        int x = 1;\n    }\n}"
    );
    assert_eq!(Language::C.wrap_source("puts(\"x\");"), "#include <stdio.h>\nint main() {\nputs(\"x\");\nreturn 0;\n}");
    assert_eq!(Language::Cpp.wrap_source("x;"), "#include <iostream>\nint main() {\nx;\nreturn 0;\n}");
    assert_eq!(Language::Python.program_name(), "python3");
    assert_eq!(Language::Cpp.program_name(), "g++");
    assert_eq!(Language::C.program_name(), "gcc");
    assert_eq!(Language::Java.program_name(), "javac");
    assert!(Language::Java.is_compiled() && Language::C.is_compiled() && Language::Cpp.is_compiled());
    assert!(!Language::Rust.is_compiled() && !Language::Python.is_compiled());
    assert_eq!(Language::Cpp.label_text(), "C++");
}

#[test]
fn code_reports() {
    assert_eq!(run_report(Language::Python, &output(true, "Python test\n", "warn")), Ok("Python test\n".to_string()));
    assert_eq!(run_report(Language::Python, &output(false, "x", "Traceback")), Err("Python execution failed:\nTraceback".to_string()));
    assert_eq!(run_report(Language::Bash, &output(false, "", "oops")), Err("Bash execution failed:\noops".to_string()));
    assert_eq!(run_report(Language::Cpp, &output(false, "", "segv")), Err("C++ execution failed:\nsegv".to_string()));
    assert_eq!(
        compile_check(Language::Java, &output(false, "", "error: ;")),
        Err("Java compilation failed:\nerror: ;".to_string())
    );
    assert_eq!(compile_check(Language::C, &output(false, "o", "e")), Err("C compilation failed:\ne".to_string()));
    assert_eq!(compile_check(Language::Cpp, &output(true, "o", "e")), Ok(()));
    assert_eq!(
        unsupported_language("ruby"),
        "Unsupported language: ruby. Supported: python, javascript, bash, rust, go, java, c, cpp"
    );
}

#[test]
fn command_reports() {
    assert_eq!(command_report("true", &output(true, "", "")), Ok("Command 'true' executed successfully.".to_string()));
    assert_eq!(command_report("echo hi", &output(true, "hi\n", "")), Ok("Command: echo hi\n\nSTDOUT:\nhi\n\n\nSTDERR:\n".to_string()));
    assert_eq!(command_report("x", &output(true, "", "w")), Ok("Command: x\n\nSTDOUT:\n\n\nSTDERR:\nw".to_string()));
    assert_eq!(command_report("exit 1", &output(false, "out", "bad")), Err("Command 'exit 1' failed:\n\nSTDERR:\nbad".to_string()));
}

#[test]
fn git_reports() {
    assert_eq!(git_status_report(&output(true, " M a.rs\n", "")), Ok("Git status:\n M a.rs\n".to_string()));
    assert_eq!(git_status_report(&output(true, " \n", "")), Ok("Git repository is clean - no changes to commit.".to_string()));
    assert_eq!(git_status_report(&output(false, "x", "fatal")), Err("Not a git repository or git command failed.".to_string()));
    assert_eq!(git_diff_report(&output(true, "diff --git", "")), Ok("Git diff:\ndiff --git".to_string()));
    assert_eq!(git_diff_report(&output(true, "", "")), Ok("No unstaged changes.".to_string()));
    assert_eq!(git_diff_report(&output(false, "", "")), Err("Failed to get git diff.".to_string()));
    assert_eq!(git_commit_report("fix", &output(true, "", "")), Ok("Successfully committed changes with message: 'fix'".to_string()));
    assert_eq!(git_commit_report("fix", &output(false, "", "nothing to commit")), Err("Commit failed: nothing to commit".to_string()));
    assert_eq!(git_log_report(&output(true, "abc first\n", "")), Ok("Git log:\nabc first\n".to_string()));
    assert_eq!(git_log_report(&output(false, "", "")), Err("Failed to get git log.".to_string()));
    assert_eq!(git_log_limit(5), "-5");
}

#[test]
fn search_reports() {
    assert_eq!(search_root(None), ".");
    assert_eq!(search_root(Some("src")), "src");
    assert_eq!(grep_report("TODO", ".", &output(true, "a.rs:1:TODO\n", "")), Ok("a.rs:1:TODO\n".to_string()));
    assert_eq!(grep_report("TODO", "src", &output(false, "", "")), Err("No matches found for pattern 'TODO' in 'src'".to_string()));
    assert_eq!(filled_lines("./a\n\n./b\n"), vec!["./a".to_string(), "./b".to_string()]);
    assert_eq!(glob_report("*.rs", &output(true, "./a.rs\n\n./b.rs\n", "")), Ok("Files matching '*.rs':\n./a.rs\n./b.rs".to_string()));
    assert_eq!(glob_report("*.rs", &output(true, "", "")), Ok("Files matching '*.rs':\n".to_string()));
    assert_eq!(glob_report("*.rs", &output(false, "", "")), Err("No files found matching pattern '*.rs'".to_string()));
    assert_eq!(
        fuzzy_matches("./src/User_Model.rs\n./src/main.rs\n\n./USER.md\n", "user"),
        vec!["./src/User_Model.rs".to_string(), "./USER.md".to_string()]
    );
    assert_eq!(fuzzy_report("MAIN", ".", &output(true, "./src/main.rs\n./x\n", "")), Ok("Files matching fuzzy pattern 'MAIN':\n./src/main.rs".to_string()));
    assert_eq!(fuzzy_report("zzz", "src", &output(true, "./src/main.rs\n", "")), Ok("No files found matching fuzzy pattern 'zzz' in 'src'".to_string()));
    assert_eq!(fuzzy_report("a", "src", &output(false, "", "")), Err("Failed to search files in 'src'".to_string()));
}

#[test]
fn ecosystems_are_known_by_name() {
    assert_eq!(linter_of("Rust"), Some(Ecosystem::Rust));
    assert_eq!(linter_of("python"), Some(Ecosystem::Python));
    assert_eq!(linter_of("JS"), Some(Ecosystem::JavaScript));
    assert_eq!(linter_of("javascript"), Some(Ecosystem::JavaScript));
    assert_eq!(linter_of("go"), None);
    assert_eq!(framework_of("cargo"), Some(Ecosystem::Rust));
    assert_eq!(framework_of("RUST"), Some(Ecosystem::Rust));
    assert_eq!(framework_of("pytest"), Some(Ecosystem::Python));
    assert_eq!(framework_of("Jest"), Some(Ecosystem::JavaScript));
    assert_eq!(framework_of("mocha"), None);
    assert_eq!(manager_of("npm"), Some(Ecosystem::JavaScript));
    assert_eq!(manager_of("Yarn"), Some(Ecosystem::JavaScript));
    assert_eq!(manager_of("cargo"), Some(Ecosystem::Rust));
    assert_eq!(manager_of("PIP"), Some(Ecosystem::Python));
    assert_eq!(manager_of("go"), Some(Ecosystem::Go));
    assert_eq!(manager_of("apt"), None);
    assert_eq!(javascript_installer("yarn"), "yarn");
    assert_eq!(javascript_installer("Yarn"), "npm");
    assert_eq!(javascript_installer("npm"), "npm");
}

#[test]
fn ecosystem_reports() {
    assert_eq!(lint_report(Ecosystem::Rust, &output(true, "", "")), Ok("Cargo clippy passed - no linting issues found.".to_string()));
    assert_eq!(lint_report(Ecosystem::Rust, &output(false, "", "warning: x")), Err("Linting issues found:\nwarning: x".to_string()));
    assert_eq!(lint_report(Ecosystem::Python, &output(true, "", "")), Ok("Python linting passed.".to_string()));
    assert_eq!(lint_report(Ecosystem::Python, &output(false, "", "E501")), Err("Python linting issues:\nE501".to_string()));
    assert_eq!(lint_report(Ecosystem::JavaScript, &output(false, "", "no-var")), Err("JavaScript linting issues:\nno-var".to_string()));
    assert_eq!(lint_report(Ecosystem::JavaScript, &output(true, "", "")), Ok("JavaScript linting passed.".to_string()));
    assert_eq!(lint_unsupported("go"), "Linting not supported for language: go");
    assert_eq!(test_report(Ecosystem::Rust, &output(true, "ok 3", "")), Ok("Tests passed!\nok 3".to_string()));
    assert_eq!(test_report(Ecosystem::Rust, &output(false, "", "1 failed")), Err("Tests failed:\n1 failed".to_string()));
    assert_eq!(test_report(Ecosystem::Python, &output(true, "3 passed", "")), Ok("Python tests passed!\n3 passed".to_string()));
    assert_eq!(test_report(Ecosystem::JavaScript, &output(false, "", "x")), Err("JavaScript tests failed:\nx".to_string()));
    assert_eq!(tests_unsupported("mocha"), "Testing framework 'mocha' not supported.");
    assert_eq!(install_report(Ecosystem::JavaScript, "Yarn", "left-pad", &output(true, "", "")), Ok("Successfully installed Yarn package: left-pad".to_string()));
    assert_eq!(install_report(Ecosystem::JavaScript, "npm", "left-pad", &output(false, "", "404")), Err("Failed to install npm package 'left-pad': 404".to_string()));
    assert_eq!(install_report(Ecosystem::Rust, "cargo", "serde", &output(true, "", "")), Ok("Successfully added Rust crate: serde".to_string()));
    assert_eq!(install_report(Ecosystem::Rust, "cargo", "serde", &output(false, "", "e")), Err("Failed to add Rust crate 'serde': e".to_string()));
    assert_eq!(install_report(Ecosystem::Python, "pip", "x", &output(true, "", "")), Ok("Successfully installed Python package: x".to_string()));
    assert_eq!(install_report(Ecosystem::Go, "go", "x", &output(false, "", "e")), Err("Failed to install Go package 'x': e".to_string()));
    assert_eq!(manager_unsupported("apt"), "Package manager 'apt' not supported.");
}

#[test]
fn a_program_that_ends_badly_is_a_failure() {
    let bad = output(false, "out", "err");
    let good = output(true, "out", "err");
    assert_eq!(classify(&bad, "report".to_string()), Err("report".to_string()));
    assert_eq!(classify(&good, "report".to_string()), Ok("report".to_string()));
    match command_report("exit 1", &output(false, "", "")) {
        Err(diagnostic) => {
            assert!(!diagnostic.is_empty());
            assert!(diagnostic.contains("exit 1"));
        }
        Ok(text) => panic!("unexpected success: {}", text),
    }
    assert!(run_report(Language::Python, &bad).is_err());
    assert!(git_status_report(&bad).is_err());
    assert!(git_diff_report(&bad).is_err());
    assert!(git_commit_report("m", &bad).is_err());
    assert!(git_log_report(&bad).is_err());
    assert!(grep_report("p", ".", &bad).is_err());
    assert!(glob_report("p", &bad).is_err());
    assert!(fuzzy_report("p", ".", &bad).is_err());
    assert!(lint_report(Ecosystem::Rust, &bad).is_err());
    assert!(test_report(Ecosystem::Python, &bad).is_err());
    assert!(install_report(Ecosystem::Go, "go", "x", &bad).is_err());
    assert!(run_report(Language::Python, &good).is_ok());
    assert!(install_report(Ecosystem::Go, "go", "x", &good).is_ok());
}

#[test]
fn names_in_small_letters() {
    assert_eq!(Language::from_lowercase("py"), Some(Language::Python));
    assert_eq!(Language::from_lowercase("PY"), None);
    assert_eq!(Language::from_lowercase("c++"), Some(Language::Cpp));
    assert_eq!(linter_from_lowercase("js"), Some(Ecosystem::JavaScript));
    assert_eq!(linter_from_lowercase("JS"), None);
    assert_eq!(framework_from_lowercase("pytest"), Some(Ecosystem::Python));
    assert_eq!(framework_from_lowercase("Pytest"), None);
    assert_eq!(manager_from_lowercase("yarn"), Some(Ecosystem::JavaScript));
    assert_eq!(manager_from_lowercase("apt"), None);
    let lines = vec![
        ("./A.rs".to_string(), "./a.rs".to_string()),
        ("".to_string(), "a".to_string()),
        ("./b.rs".to_string(), "./b.rs".to_string()),
        ("./c".to_string(), "xax".to_string()),
    ];
    assert_eq!(select_matching(&lines, "a"), vec!["./A.rs".to_string(), "./c".to_string()]);
    assert!(select_matching(&lines, "A").is_empty());
    assert_eq!(
        lowercase_each(&vec!["AbC".to_string(), "".to_string()]),
        vec![("AbC".to_string(), "abc".to_string()), ("".to_string(), "".to_string())]
    );
}

fn shown(line: &CommandLine) -> String {
    format!("{} {:?} in {:?}", line.program, line.arguments, line.directory)
}

fn plan(attempts: &Attempts) -> Vec<String> {
    attempts.commands.iter().map(shown).collect()
}

#[test]
fn programs_are_tried_in_order() {
    let lint = lint_attempts(Ecosystem::Python, "src");
    assert_eq!(
        plan(&lint),
        vec![
            "flake8 [\"src\"] in None",
            "pylint [\"src\"] in None",
            "python [\"-m\", \"pycodestyle\", \"src\"] in None",
        ]
    );
    assert_eq!(lint.unavailable, Some("Python linter not available".to_string()));
    let rust = lint_attempts(Ecosystem::Rust, "crate");
    assert_eq!(plan(&rust), vec!["cargo [\"clippy\"] in Some(\"crate\")"]);
    assert_eq!(rust.unavailable, None);
    let js = lint_attempts(Ecosystem::JavaScript, ".");
    assert_eq!(plan(&js), vec!["eslint [\".\"] in None"]);
    assert_eq!(js.unavailable, Some("ESLint not available".to_string()));
    let tests = test_attempts(Ecosystem::Python, "t");
    assert_eq!(
        plan(&tests),
        vec![
            "python [\"-m\", \"pytest\"] in Some(\"t\")",
            "python [\"-m\", \"unittest\", \"discover\"] in Some(\"t\")",
        ]
    );
    assert_eq!(tests.unavailable, Some("Python testing framework not available".to_string()));
    assert_eq!(plan(&test_attempts(Ecosystem::Rust, ".")), vec!["cargo [\"test\"] in Some(\".\")"]);
    assert_eq!(plan(&test_attempts(Ecosystem::JavaScript, ".")), vec!["npx [\"jest\"] in Some(\".\")"]);
    assert_eq!(
        test_attempts(Ecosystem::JavaScript, ".").unavailable,
        Some("Jest testing framework not available".to_string())
    );
    assert_eq!(shown(&install_command(Ecosystem::JavaScript, "yarn", "x")), "yarn [\"install\", \"x\"] in None");
    assert_eq!(shown(&install_command(Ecosystem::JavaScript, "Yarn", "x")), "npm [\"install\", \"x\"] in None");
    assert_eq!(shown(&install_command(Ecosystem::Rust, "cargo", "serde")), "cargo [\"add\", \"serde\"] in None");
    assert_eq!(shown(&install_command(Ecosystem::Python, "pip", "x")), "pip [\"install\", \"x\"] in None");
    assert_eq!(shown(&install_command(Ecosystem::Go, "go", "x")), "go [\"get\", \"x\"] in None");
}

#[test]
fn attempts_settle() {
    let python = lint_attempts(Ecosystem::Python, ".");
    let rust = lint_attempts(Ecosystem::Rust, ".");
    let started = settle(Some(output(true, "o", "")), &python, "e".to_string()).unwrap();
    assert!(started.success);
    assert_eq!(started.stdout, "o");
    let none = settle(None, &python, "not found".to_string()).unwrap();
    assert!(!none.success);
    assert_eq!(none.stdout, "");
    assert_eq!(none.stderr, "Python linter not available");
    assert_eq!(
        lint_report(Ecosystem::Python, &none),
        Err("Python linting issues:\nPython linter not available".to_string())
    );
    match settle(None, &rust, "not found".to_string()) {
        Err(e) => assert_eq!(e, "not found"),
        Ok(o) => panic!("unexpected: {:?}", o),
    }
    let stand_in = unavailable("gone");
    assert!(!stand_in.success && stand_in.stdout.is_empty() && stand_in.stderr == "gone");
}
