//! The rules of the tools that run programs: which program a name stands
//! for, what is handed to it, and what is reported of its output.

use crate::conversation::result_text;
use crate::phrase::{cat2, cat3, cat4, cat5, cat6};
use crate::text::{
    decimal, format_u64, format_usize, from_chars, is_blank, is_word, join, joined, lines_of,
    slices, split_lines, texts, to_chars, trim,
};
use vstd::prelude::*;

verus! {

/// The text that `str::to_lowercase` makes of `s`: `s` with every character
/// replaced by its lowercase form, as Unicode defines it.
pub uninterp spec fn lowercase_of(s: Seq<char>) -> Seq<char>;

/// `str::to_lowercase` of the standard library.
pub assume_specification[ str::to_lowercase ](s: &str) -> (r: String)
    ensures
        r@ == lowercase_of(s@),
;

/// What a program left behind: whether it ended well, and what it wrote.
#[derive(Debug, Clone)]
pub struct Output {
    pub success: bool,
    pub stdout: String,
    pub stderr: String,
}

/// What a tool that ran a program comes to. A program that ends with a
/// status other than success has failed: its report is the diagnostic of
/// the failure. Otherwise the report is what the tool returns.
pub open spec fn outcome(success: bool, report: Seq<char>) -> Result<Seq<char>, Seq<char>> {
    if success {
        Ok(report)
    } else {
        Err(report)
    }
}

/// Classifies the report of a program that ran by how the program ended.
pub fn classify(output: &Output, report: String) -> (r: Result<String, String>)
    ensures
        result_text(r) == outcome(output.success, report@),
{
    if output.success {
        Ok(report)
    } else {
        Err(report)
    }
}

/// What stands for the output of a program that could not be started: a
/// failure that says so on the error stream.
pub fn unavailable(notice: &str) -> (r: Output)
    ensures
        !r.success,
        r.stdout@ == Seq::<char>::empty(),
        r.stderr@ == notice@,
{
    Output { success: false, stdout: String::new(), stderr: String::from_str(notice) }
}

// ---------------------------------------------------------------------------
// Code execution
// ---------------------------------------------------------------------------

/// A language in which code can be run.
#[derive(Clone, Copy, Debug, PartialEq, Eq, Structural)]
pub enum Language {
    Python,
    JavaScript,
    Bash,
    Rust,
    Go,
    Java,
    C,
    Cpp,
}

impl Language {
    /// The language that a name in small letters stands for.
    pub open spec fn named(lower: Seq<char>) -> Option<Language> {
        if lower == "python"@ || lower == "py"@ {
            Some(Language::Python)
        } else if lower == "javascript"@ || lower == "js"@ || lower == "node"@ {
            Some(Language::JavaScript)
        } else if lower == "bash"@ || lower == "sh"@ {
            Some(Language::Bash)
        } else if lower == "rust"@ {
            Some(Language::Rust)
        } else if lower == "go"@ {
            Some(Language::Go)
        } else if lower == "java"@ {
            Some(Language::Java)
        } else if lower == "c"@ {
            Some(Language::C)
        } else if lower == "cpp"@ || lower == "c++"@ {
            Some(Language::Cpp)
        } else {
            None
        }
    }

    /// The language that a name in small letters stands for.
    pub fn from_lowercase(lower: &str) -> (r: Option<Language>)
        ensures
            r == Language::named(lower@),
    {
        let chars = to_chars(lower);
        let w = chars.as_slice();
        if is_word(w, "python") || is_word(w, "py") {
            Some(Language::Python)
        } else if is_word(w, "javascript") || is_word(w, "js") || is_word(w, "node") {
            Some(Language::JavaScript)
        } else if is_word(w, "bash") || is_word(w, "sh") {
            Some(Language::Bash)
        } else if is_word(w, "rust") {
            Some(Language::Rust)
        } else if is_word(w, "go") {
            Some(Language::Go)
        } else if is_word(w, "java") {
            Some(Language::Java)
        } else if is_word(w, "c") {
            Some(Language::C)
        } else if is_word(w, "cpp") || is_word(w, "c++") {
            Some(Language::Cpp)
        } else {
            None
        }
    }

    /// The language that `name` stands for, whatever the case of its
    /// letters.
    pub fn from_name(name: &str) -> (r: Option<Language>)
        ensures
            r == Language::named(lowercase_of(name@)),
    {
        Language::from_lowercase(name.to_lowercase().as_str())
    }

    /// The name of the language in reports.
    pub open spec fn label(self) -> Seq<char> {
        match self {
            Language::Python => "Python"@,
            Language::JavaScript => "JavaScript"@,
            Language::Bash => "Bash"@,
            Language::Rust => "Rust"@,
            Language::Go => "Go"@,
            Language::Java => "Java"@,
            Language::C => "C"@,
            Language::Cpp => "C++"@,
        }
    }

    /// The name of the language in reports.
    pub fn label_text(self) -> (r: &'static str)
        ensures
            r@ == self.label(),
    {
        match self {
            Language::Python => "Python",
            Language::JavaScript => "JavaScript",
            Language::Bash => "Bash",
            Language::Rust => "Rust",
            Language::Go => "Go",
            Language::Java => "Java",
            Language::C => "C",
            Language::Cpp => "C++",
        }
    }

    /// The program that runs or compiles code of the language.
    pub open spec fn program(self) -> Seq<char> {
        match self {
            Language::Python => "python3"@,
            Language::JavaScript => "node"@,
            Language::Bash => "bash"@,
            Language::Rust => "cargo"@,
            Language::Go => "go"@,
            Language::Java => "javac"@,
            Language::C => "gcc"@,
            Language::Cpp => "g++"@,
        }
    }

    /// The program that runs or compiles code of the language.
    pub fn program_name(self) -> (r: &'static str)
        ensures
            r@ == self.program(),
    {
        match self {
            Language::Python => "python3",
            Language::JavaScript => "node",
            Language::Bash => "bash",
            Language::Rust => "cargo",
            Language::Go => "go",
            Language::Java => "javac",
            Language::C => "gcc",
            Language::Cpp => "g++",
        }
    }

    /// Whether code of the language is compiled before it is run.
    pub fn is_compiled(self) -> (r: bool)
        ensures
            r == (self == Language::Java || self == Language::C || self == Language::Cpp),
    {
        match self {
            Language::Java | Language::C | Language::Cpp => true,
            _ => false,
        }
    }

    /// The file in which code of the language is kept while it runs, for a
    /// run that began `stamp` seconds after the epoch. Bash code is kept in
    /// no file.
    pub open spec fn source_file(self, stamp: nat) -> Option<Seq<char>> {
        match self {
            Language::Python => Some("/tmp/temp_code_"@ + decimal(stamp) + ".py"@),
            Language::JavaScript => Some("/tmp/temp_code_"@ + decimal(stamp) + ".js"@),
            Language::Bash => None,
            Language::Rust => Some("/tmp/rust_code_"@ + decimal(stamp) + "/src/main.rs"@),
            Language::Go => Some("/tmp/temp_code_"@ + decimal(stamp) + ".go"@),
            Language::Java => Some("/tmp/temp_code_"@ + decimal(stamp) + ".java"@),
            Language::C => Some("/tmp/temp_code_"@ + decimal(stamp) + ".c"@),
            Language::Cpp => Some("/tmp/temp_code_"@ + decimal(stamp) + ".cpp"@),
        }
    }

    /// The file in which code of the language is kept while it runs.
    pub fn source_path(self, stamp: u64) -> (r: Option<String>)
        ensures
            crate::text::opt_text(r) == self.source_file(stamp as nat),
    {
        let n = format_u64(stamp);
        match self {
            Language::Python => Some(cat3("/tmp/temp_code_", n.as_str(), ".py")),
            Language::JavaScript => Some(cat3("/tmp/temp_code_", n.as_str(), ".js")),
            Language::Bash => None,
            Language::Rust => Some(cat3("/tmp/rust_code_", n.as_str(), "/src/main.rs")),
            Language::Go => Some(cat3("/tmp/temp_code_", n.as_str(), ".go")),
            Language::Java => Some(cat3("/tmp/temp_code_", n.as_str(), ".java")),
            Language::C => Some(cat3("/tmp/temp_code_", n.as_str(), ".c")),
            Language::Cpp => Some(cat3("/tmp/temp_code_", n.as_str(), ".cpp")),
        }
    }

    /// What is written to the source file: the code as it came, or the code
    /// within what the language needs around it.
    pub open spec fn source_text(self, code: Seq<char>) -> Seq<char> {
        match self {
            Language::Go => "package main\n\n"@ + code,
            Language::Java =>
                "public class TempCode {\n    public static void main(String[] args) {\n        "@
                    + code + "\n    }\n}"@,
            Language::C => "#include <stdio.h>\nint main() {\n"@ + code + "\nreturn 0;\n}"@,
            Language::Cpp => "#include <iostream>\nint main() {\n"@ + code + "\nreturn 0;\n}"@,
            _ => code,
        }
    }

    /// What is written to the source file for `code`.
    pub fn wrap_source(self, code: &str) -> (r: String)
        ensures
            r@ == self.source_text(code@),
    {
        match self {
            Language::Go => cat2("package main\n\n", code),
            Language::Java => cat3(
                "public class TempCode {\n    public static void main(String[] args) {\n        ",
                code,
                "\n    }\n}",
            ),
            Language::C => cat3("#include <stdio.h>\nint main() {\n", code, "\nreturn 0;\n}"),
            Language::Cpp => cat3("#include <iostream>\nint main() {\n", code, "\nreturn 0;\n}"),
            _ => String::from_str(code),
        }
    }
}

/// The directory of the package in which Rust code runs.
pub fn rust_package_directory(stamp: u64) -> (r: String)
    ensures
        r@ == "/tmp/rust_code_"@ + decimal(stamp as nat),
{
    cat2("/tmp/rust_code_", format_u64(stamp).as_str())
}

/// The package file of the package in which Rust code runs.
pub fn rust_package_toml() -> (r: &'static str)
    ensures
        r@ == "[package]\nname = \"temp_code\"\nversion = \"0.1.0\"\nedition = \"2021\"\n[dependencies]\n"@,
{
    "[package]\nname = \"temp_code\"\nversion = \"0.1.0\"\nedition = \"2021\"\n[dependencies]\n"
}

/// The file to which C or C++ code is compiled.
pub fn executable_path(stamp: u64) -> (r: String)
    ensures
        r@ == "/tmp/temp_exe_"@ + decimal(stamp as nat),
{
    cat2("/tmp/temp_exe_", format_u64(stamp).as_str())
}

/// What is reported of a language that cannot be run.
pub fn unsupported_language(name: &str) -> (r: String)
    ensures
        r@ == "Unsupported language: "@ + name@
            + ". Supported: python, javascript, bash, rust, go, java, c, cpp"@,
{
    cat3(
        "Unsupported language: ",
        name,
        ". Supported: python, javascript, bash, rust, go, java, c, cpp",
    )
}

/// What is reported of code that ran: what it wrote, or, where it failed,
/// the language and what it wrote to the error stream.
pub open spec fn run_result(label: Seq<char>, success: bool, stdout: Seq<char>, stderr: Seq<char>)
    -> Seq<char> {
    if success {
        stdout
    } else {
        label + " execution failed:\n"@ + stderr
    }
}

/// The report of code that ran.
pub fn run_report(language: Language, output: &Output) -> (r: Result<String, String>)
    ensures
        result_text(r) == outcome(
            output.success,
            run_result(language.label(), output.success, output.stdout@, output.stderr@),
        ),
{
    let report = {
        if output.success {
            output.stdout.clone()
        } else {
            cat3(language.label_text(), " execution failed:\n", output.stderr.as_str())
        }
    };
    classify(output, report)
}

/// What a compilation came to: nothing to report where it went well, the
/// diagnostic where it did not.
pub fn compile_check(language: Language, output: &Output) -> (r: Result<(), String>)
    ensures
        match r {
            Ok(_) => output.success,
            Err(diagnostic) => !output.success && diagnostic@ == language.label()
                + " compilation failed:\n"@ + output.stderr@,
        },
{
    if output.success {
        Ok(())
    } else {
        Err(cat3(language.label_text(), " compilation failed:\n", output.stderr.as_str()))
    }
}

// ---------------------------------------------------------------------------
// Shell commands and git
// ---------------------------------------------------------------------------

/// What is reported of a shell command.
pub open spec fn command_result(
    command: Seq<char>,
    success: bool,
    stdout: Seq<char>,
    stderr: Seq<char>,
) -> Seq<char> {
    if success {
        if stdout.len() == 0 && stderr.len() == 0 {
            "Command '"@ + command + "' executed successfully."@
        } else {
            "Command: "@ + command + "\n\nSTDOUT:\n"@ + stdout + "\n\nSTDERR:\n"@ + stderr
        }
    } else {
        "Command '"@ + command + "' failed:\n\nSTDERR:\n"@ + stderr
    }
}

/// The report of a shell command.
pub fn command_report(command: &str, output: &Output) -> (r: Result<String, String>)
    ensures
        result_text(r) == outcome(
            output.success,
            command_result(command@, output.success, output.stdout@, output.stderr@),
        ),
{
    let report = {
        if output.success {
            if output.stdout.as_str().is_empty() && output.stderr.as_str().is_empty() {
                cat3("Command '", command, "' executed successfully.")
            } else {
                cat6(
                    "Command: ",
                    command,
                    "\n\nSTDOUT:\n",
                    output.stdout.as_str(),
                    "\n\nSTDERR:\n",
                    output.stderr.as_str(),
                )
            }
        } else {
            cat4("Command '", command, "' failed:\n\nSTDERR:\n", output.stderr.as_str())
        }
    };
    classify(output, report)
}

/// What is reported of a query to git that lists something: the heading and
/// the list, `nothing` where the list is blank, `failed` where git failed.
pub open spec fn listing_result(
    success: bool,
    stdout: Seq<char>,
    heading: Seq<char>,
    nothing: Seq<char>,
    failed: Seq<char>,
) -> Seq<char> {
    if !success {
        failed
    } else if is_blank(stdout) {
        nothing
    } else {
        heading + stdout
    }
}

fn listing_report(output: &Output, heading: &str, nothing: &str, failed: &str) -> (r: String)
    ensures
        r@ == listing_result(output.success, output.stdout@, heading@, nothing@, failed@),
{
    if !output.success {
        String::from_str(failed)
    } else {
        let chars = to_chars(output.stdout.as_str());
        if trim(chars.as_slice()).len() == 0 {
            String::from_str(nothing)
        } else {
            cat2(heading, output.stdout.as_str())
        }
    }
}

/// The report of the status of the repository.
pub fn git_status_report(output: &Output) -> (r: Result<String, String>)
    ensures
        result_text(r) == outcome(
            output.success,
            listing_result(
                output.success,
                output.stdout@,
                "Git status:\n"@,
                "Git repository is clean - no changes to commit."@,
                "Not a git repository or git command failed."@,
            ),
        ),
{
    let report = {
        listing_report(
            output,
            "Git status:\n",
            "Git repository is clean - no changes to commit.",
            "Not a git repository or git command failed.",
        )
    };
    classify(output, report)
}

/// The report of the changes that are not staged.
pub fn git_diff_report(output: &Output) -> (r: Result<String, String>)
    ensures
        result_text(r) == outcome(
            output.success,
            listing_result(
                output.success,
                output.stdout@,
                "Git diff:\n"@,
                "No unstaged changes."@,
                "Failed to get git diff."@,
            ),
        ),
{
    let report = {
        listing_report(output, "Git diff:\n", "No unstaged changes.", "Failed to get git diff.")
    };
    classify(output, report)
}

/// The report of a commit.
pub fn git_commit_report(message: &str, output: &Output) -> (r: Result<String, String>)
    ensures
        result_text(r) == outcome(
            output.success,
            if output.success {
                "Successfully committed changes with message: '"@ + message@ + "'"@
            } else {
                "Commit failed: "@ + output.stderr@
            },
        ),
{
    let report = {
        if output.success {
            cat3("Successfully committed changes with message: '", message, "'")
        } else {
            cat2("Commit failed: ", output.stderr.as_str())
        }
    };
    classify(output, report)
}

/// The report of the history.
pub fn git_log_report(output: &Output) -> (r: Result<String, String>)
    ensures
        result_text(r) == outcome(
            output.success,
            if output.success {
                "Git log:\n"@ + output.stdout@
            } else {
                "Failed to get git log."@
            },
        ),
{
    let report = {
        if output.success {
            cat2("Git log:\n", output.stdout.as_str())
        } else {
            String::from_str("Failed to get git log.")
        }
    };
    classify(output, report)
}

/// The argument that limits a log to `count` entries.
pub fn git_log_limit(count: usize) -> (r: String)
    ensures
        r@ == "-"@ + decimal(count as nat),
{
    cat2("-", format_usize(count).as_str())
}

// ---------------------------------------------------------------------------
// Searches that run a program
// ---------------------------------------------------------------------------

/// Where a search looks when no path is given.
pub fn search_root(path: Option<&str>) -> (r: &str)
    ensures
        r@ == match path {
            Some(p) => p@,
            None => "."@,
        },
{
    match path {
        Some(p) => p,
        None => ".",
    }
}

/// The report of a search for a pattern in files.
pub fn grep_report(pattern: &str, root: &str, output: &Output) -> (r: Result<String, String>)
    ensures
        result_text(r) == outcome(
            output.success,
            if output.success {
                output.stdout@
            } else {
                "No matches found for pattern '"@ + pattern@ + "' in '"@ + root@ + "'"@
            },
        ),
{
    let report = {
        if output.success {
            output.stdout.clone()
        } else {
            cat5("No matches found for pattern '", pattern, "' in '", root, "'")
        }
    };
    classify(output, report)
}

/// The lines among `lines` that are not empty, in order.
pub open spec fn filled(lines: Seq<Seq<char>>) -> Seq<Seq<char>> {
    lines.filter(|l: Seq<char>| l.len() > 0)
}

/// The lines of `text` that are not empty.
pub fn filled_lines(text: &str) -> (r: Vec<String>)
    ensures
        texts(r@) == filled(lines_of(text@)),
{
    let chars = to_chars(text);
    let lines = split_lines(chars.as_slice());
    let ghost all = slices(lines@);
    let mut out: Vec<String> = Vec::new();
    let mut i: usize = 0;
    assert(all.take(0) =~= Seq::<Seq<char>>::empty());
    assert(texts(out@) =~= Seq::<Seq<char>>::empty());
    while i < lines.len()
        invariant
            i <= lines.len(),
            all == slices(lines@),
            texts(out@) == filled(all.take(i as int)),
        decreases lines.len() - i,
    {
        let ghost before = out@;
        proof {
            let next = all.take(i + 1);
            assert(next.drop_last() =~= all.take(i as int));
            assert(next.last() == lines@[i as int]@);
            reveal(Seq::filter);
        }
        if lines[i].len() > 0 {
            out.push(from_chars(lines[i]));
            assert(texts(out@) =~= texts(before).push(lines@[i as int]@));
        }
        i += 1;
    }
    assert(all.take(lines.len() as int) =~= all);
    out
}

/// The report of a search for files by name.
pub fn glob_report(pattern: &str, output: &Output) -> (r: Result<String, String>)
    ensures
        result_text(r) == outcome(
            output.success,
            if output.success {
                "Files matching '"@ + pattern@ + "':\n"@ + joined(
                    filled(lines_of(output.stdout@)),
                    "\n"@,
                )
            } else {
                "No files found matching pattern '"@ + pattern@ + "'"@
            },
        ),
{
    let report = {
        if output.success {
            let files = filled_lines(output.stdout.as_str());
            cat4("Files matching '", pattern, "':\n", join(&files, "\n").as_str())
        } else {
            cat3("No files found matching pattern '", pattern, "'")
        }
    };
    classify(output, report)
}

/// A text together with the same text in small letters.
pub open spec fn with_lowercase(lines: Seq<Seq<char>>) -> Seq<(Seq<char>, Seq<char>)> {
    lines.map_values(|l: Seq<char>| (l, lowercase_of(l)))
}

/// Views of texts that come with their form in small letters.
pub open spec fn pairs(v: Seq<(String, String)>) -> Seq<(Seq<char>, Seq<char>)> {
    v.map_values(|p: (String, String)| (p.0@, p.1@))
}

/// The texts that are not empty and whose form in small letters holds
/// `needle`, in order.
pub open spec fn matching(lines: Seq<(Seq<char>, Seq<char>)>, needle: Seq<char>) -> Seq<
    Seq<char>,
> {
    lines.filter(
        |p: (Seq<char>, Seq<char>)| p.0.len() > 0 && crate::text::occurs_in(p.1, needle),
    ).map_values(|p: (Seq<char>, Seq<char>)| p.0)
}

/// The lines among `lines` that are not empty and hold `needle` once their
/// letters are made small.
pub open spec fn lines_like(lines: Seq<Seq<char>>, needle: Seq<char>) -> Seq<Seq<char>> {
    matching(with_lowercase(lines), needle)
}

/// Among texts that come with their form in small letters, those that are
/// not empty and whose small form holds `needle`.
pub fn select_matching(lines: &Vec<(String, String)>, needle: &str) -> (r: Vec<String>)
    ensures
        texts(r@) == matching(pairs(lines@), needle@),
{
    let word = to_chars(needle);
    let ghost all = pairs(lines@);
    let ghost keep = |p: (Seq<char>, Seq<char>)|
        p.0.len() > 0 && crate::text::occurs_in(p.1, needle@);
    let ghost first = |p: (Seq<char>, Seq<char>)| p.0;
    let mut out: Vec<String> = Vec::new();
    let mut i: usize = 0;
    assert(all.take(0) =~= Seq::<(Seq<char>, Seq<char>)>::empty());
    assert(texts(out@) =~= all.take(0).filter(keep).map_values(first));
    while i < lines.len()
        invariant
            i <= lines.len(),
            all == pairs(lines@),
            word@ == needle@,
            keep == (|p: (Seq<char>, Seq<char>)|
                p.0.len() > 0 && crate::text::occurs_in(p.1, needle@)),
            first == (|p: (Seq<char>, Seq<char>)| p.0),
            texts(out@) == all.take(i as int).filter(keep).map_values(first),
        decreases lines.len() - i,
    {
        let ghost before = out@;
        proof {
            let next = all.take(i + 1);
            assert(next.drop_last() =~= all.take(i as int));
            assert(next.last() == (lines@[i as int].0@, lines@[i as int].1@));
            reveal(Seq::filter);
        }
        let lower = to_chars(lines[i].1.as_str());
        if !lines[i].0.as_str().is_empty() && crate::text::contains(
            lower.as_slice(),
            word.as_slice(),
        ) {
            out.push(lines[i].0.clone());
            assert(texts(out@) =~= texts(before).push(lines@[i as int].0@));
            assert(texts(out@) =~= all.take(i + 1).filter(keep).map_values(first));
        } else {
            assert(texts(out@) =~= all.take(i + 1).filter(keep).map_values(first));
        }
        i += 1;
    }
    assert(all.take(lines.len() as int) =~= all);
    out
}

/// Each text of `lines` together with its form in small letters.
pub fn lowercase_each(lines: &Vec<String>) -> (r: Vec<(String, String)>)
    ensures
        pairs(r@) == with_lowercase(texts(lines@)),
{
    let mut out: Vec<(String, String)> = Vec::new();
    let mut i: usize = 0;
    while i < lines.len()
        invariant
            i <= lines.len(),
            out.len() == i,
            forall|j: int|
                0 <= j < i ==> (#[trigger] out@[j]).0@ == lines@[j]@ && out@[j].1@
                    == lowercase_of(lines@[j]@),
        decreases lines.len() - i,
    {
        let lower = lines[i].as_str().to_lowercase();
        out.push((lines[i].clone(), lower));
        i += 1;
    }
    assert(pairs(out@) =~= with_lowercase(texts(lines@)));
    out
}

/// The lines of `text`, each as a string of its own.
pub fn lines_of_text(text: &str) -> (r: Vec<String>)
    ensures
        texts(r@) == lines_of(text@),
{
    let chars = to_chars(text);
    let lines = split_lines(chars.as_slice());
    let mut out: Vec<String> = Vec::new();
    let mut i: usize = 0;
    while i < lines.len()
        invariant
            i <= lines.len(),
            slices(lines@) == lines_of(text@),
            out.len() == i,
            forall|j: int| 0 <= j < i ==> (#[trigger] out@[j])@ == lines@[j]@,
        decreases lines.len() - i,
    {
        out.push(from_chars(lines[i]));
        i += 1;
    }
    assert(texts(out@) =~= slices(lines@));
    out
}

/// The lines of `text` that are not empty and hold `pattern`, whatever the
/// case of the letters.
pub fn fuzzy_matches(text: &str, pattern: &str) -> (r: Vec<String>)
    ensures
        texts(r@) == lines_like(lines_of(text@), lowercase_of(pattern@)),
{
    let needle = pattern.to_lowercase();
    let lines = lowercase_each(&lines_of_text(text));
    select_matching(&lines, needle.as_str())
}

/// The report of a search for files by a part of their path.
pub fn fuzzy_report(pattern: &str, root: &str, output: &Output) -> (r: Result<String, String>)
    ensures
        result_text(r) == outcome(
            output.success,
            if output.success {
                let found = lines_like(lines_of(output.stdout@), lowercase_of(pattern@));
                if found.len() == 0 {
                    "No files found matching fuzzy pattern '"@ + pattern@ + "' in '"@ + root@ + "'"@
                } else {
                    "Files matching fuzzy pattern '"@ + pattern@ + "':\n"@ + joined(found, "\n"@)
                }
            } else {
                "Failed to search files in '"@ + root@ + "'"@
            },
        ),
{
    let report = {
        if output.success {
            let found = fuzzy_matches(output.stdout.as_str(), pattern);
            if found.len() == 0 {
                cat5("No files found matching fuzzy pattern '", pattern, "' in '", root, "'")
            } else {
                cat4("Files matching fuzzy pattern '", pattern, "':\n", join(&found, "\n").as_str())
            }
        } else {
            cat3("Failed to search files in '", root, "'")
        }
    };
    classify(output, report)
}

// ---------------------------------------------------------------------------
// Linters, test frameworks, package managers
// ---------------------------------------------------------------------------

/// A family of tools that check, test or install for one ecosystem.
#[derive(Clone, Copy, Debug, PartialEq, Eq, Structural)]
pub enum Ecosystem {
    Rust,
    Python,
    JavaScript,
    Go,
}

/// The ecosystem whose linter a name in small letters asks for.
pub open spec fn linter_named(lower: Seq<char>) -> Option<Ecosystem> {
    if lower == "rust"@ {
        Some(Ecosystem::Rust)
    } else if lower == "python"@ {
        Some(Ecosystem::Python)
    } else if lower == "javascript"@ || lower == "js"@ {
        Some(Ecosystem::JavaScript)
    } else {
        None
    }
}

/// The ecosystem whose test framework a name in small letters asks for.
pub open spec fn framework_named(lower: Seq<char>) -> Option<Ecosystem> {
    if lower == "cargo"@ || lower == "rust"@ {
        Some(Ecosystem::Rust)
    } else if lower == "pytest"@ || lower == "python"@ {
        Some(Ecosystem::Python)
    } else if lower == "jest"@ || lower == "javascript"@ || lower == "js"@ {
        Some(Ecosystem::JavaScript)
    } else {
        None
    }
}

/// The ecosystem whose package manager a name in small letters asks for.
pub open spec fn manager_named(lower: Seq<char>) -> Option<Ecosystem> {
    if lower == "npm"@ || lower == "yarn"@ {
        Some(Ecosystem::JavaScript)
    } else if lower == "cargo"@ || lower == "rust"@ {
        Some(Ecosystem::Rust)
    } else if lower == "pip"@ || lower == "python"@ {
        Some(Ecosystem::Python)
    } else if lower == "go"@ {
        Some(Ecosystem::Go)
    } else {
        None
    }
}

/// The ecosystem whose linter a name in small letters asks for.
pub fn linter_from_lowercase(lower: &str) -> (r: Option<Ecosystem>)
    ensures
        r == linter_named(lower@),
{
    let chars = to_chars(lower);
    let w = chars.as_slice();
    if is_word(w, "rust") {
        Some(Ecosystem::Rust)
    } else if is_word(w, "python") {
        Some(Ecosystem::Python)
    } else if is_word(w, "javascript") || is_word(w, "js") {
        Some(Ecosystem::JavaScript)
    } else {
        None
    }
}

/// The ecosystem whose test framework a name in small letters asks for.
pub fn framework_from_lowercase(lower: &str) -> (r: Option<Ecosystem>)
    ensures
        r == framework_named(lower@),
{
    let chars = to_chars(lower);
    let w = chars.as_slice();
    if is_word(w, "cargo") || is_word(w, "rust") {
        Some(Ecosystem::Rust)
    } else if is_word(w, "pytest") || is_word(w, "python") {
        Some(Ecosystem::Python)
    } else if is_word(w, "jest") || is_word(w, "javascript") || is_word(w, "js") {
        Some(Ecosystem::JavaScript)
    } else {
        None
    }
}

/// The ecosystem whose package manager a name in small letters asks for.
pub fn manager_from_lowercase(lower: &str) -> (r: Option<Ecosystem>)
    ensures
        r == manager_named(lower@),
{
    let chars = to_chars(lower);
    let w = chars.as_slice();
    if is_word(w, "npm") || is_word(w, "yarn") {
        Some(Ecosystem::JavaScript)
    } else if is_word(w, "cargo") || is_word(w, "rust") {
        Some(Ecosystem::Rust)
    } else if is_word(w, "pip") || is_word(w, "python") {
        Some(Ecosystem::Python)
    } else if is_word(w, "go") {
        Some(Ecosystem::Go)
    } else {
        None
    }
}

/// The ecosystem whose linter `language` asks for, in any case of letters.
pub fn linter_of(language: &str) -> (r: Option<Ecosystem>)
    ensures
        r == linter_named(lowercase_of(language@)),
{
    linter_from_lowercase(language.to_lowercase().as_str())
}

/// The ecosystem whose test framework `framework` asks for, in any case of
/// letters.
pub fn framework_of(framework: &str) -> (r: Option<Ecosystem>)
    ensures
        r == framework_named(lowercase_of(framework@)),
{
    framework_from_lowercase(framework.to_lowercase().as_str())
}

/// The ecosystem whose package manager `manager` asks for, in any case of
/// letters.
pub fn manager_of(manager: &str) -> (r: Option<Ecosystem>)
    ensures
        r == manager_named(lowercase_of(manager@)),
{
    manager_from_lowercase(manager.to_lowercase().as_str())
}

/// The program that installs packages for JavaScript: `yarn` where the
/// manager was asked for by exactly that name, else `npm`.
pub fn javascript_installer(manager: &str) -> (r: &'static str)
    ensures
        r@ == if manager@ == "yarn"@ {
            "yarn"@
        } else {
            "npm"@
        },
{
    let chars = to_chars(manager);
    if is_word(chars.as_slice(), "yarn") {
        "yarn"
    } else {
        "npm"
    }
}

/// What is reported of a linter that ran.
pub open spec fn lint_result(ecosystem: Ecosystem, success: bool, stderr: Seq<char>) -> Seq<char> {
    match ecosystem {
        Ecosystem::Rust => if success {
            "Cargo clippy passed - no linting issues found."@
        } else {
            "Linting issues found:\n"@ + stderr
        },
        Ecosystem::Python => if success {
            "Python linting passed."@
        } else {
            "Python linting issues:\n"@ + stderr
        },
        _ => if success {
            "JavaScript linting passed."@
        } else {
            "JavaScript linting issues:\n"@ + stderr
        },
    }
}

/// The report of a linter that ran.
pub fn lint_report(ecosystem: Ecosystem, output: &Output) -> (r: Result<String, String>)
    ensures
        result_text(r) == outcome(
            output.success,
            lint_result(ecosystem, output.success, output.stderr@),
        ),
{
    let report = {
        match ecosystem {
            Ecosystem::Rust => if output.success {
                String::from_str("Cargo clippy passed - no linting issues found.")
            } else {
                cat2("Linting issues found:\n", output.stderr.as_str())
            },
            Ecosystem::Python => if output.success {
                String::from_str("Python linting passed.")
            } else {
                cat2("Python linting issues:\n", output.stderr.as_str())
            },
            _ => if output.success {
                String::from_str("JavaScript linting passed.")
            } else {
                cat2("JavaScript linting issues:\n", output.stderr.as_str())
            },
        }
    };
    classify(output, report)
}

/// What is reported of a language that has no linter here.
pub fn lint_unsupported(language: &str) -> (r: String)
    ensures
        r@ == "Linting not supported for language: "@ + language@,
{
    cat2("Linting not supported for language: ", language)
}

/// What is reported of tests that ran.
pub open spec fn test_result(
    ecosystem: Ecosystem,
    success: bool,
    stdout: Seq<char>,
    stderr: Seq<char>,
) -> Seq<char> {
    match ecosystem {
        Ecosystem::Rust => if success {
            "Tests passed!\n"@ + stdout
        } else {
            "Tests failed:\n"@ + stderr
        },
        Ecosystem::Python => if success {
            "Python tests passed!\n"@ + stdout
        } else {
            "Python tests failed:\n"@ + stderr
        },
        _ => if success {
            "JavaScript tests passed!\n"@ + stdout
        } else {
            "JavaScript tests failed:\n"@ + stderr
        },
    }
}

/// The report of tests that ran.
pub fn test_report(ecosystem: Ecosystem, output: &Output) -> (r: Result<String, String>)
    ensures
        result_text(r) == outcome(
            output.success,
            test_result(ecosystem, output.success, output.stdout@, output.stderr@),
        ),
{
    let report = {
        match ecosystem {
            Ecosystem::Rust => if output.success {
                cat2("Tests passed!\n", output.stdout.as_str())
            } else {
                cat2("Tests failed:\n", output.stderr.as_str())
            },
            Ecosystem::Python => if output.success {
                cat2("Python tests passed!\n", output.stdout.as_str())
            } else {
                cat2("Python tests failed:\n", output.stderr.as_str())
            },
            _ => if output.success {
                cat2("JavaScript tests passed!\n", output.stdout.as_str())
            } else {
                cat2("JavaScript tests failed:\n", output.stderr.as_str())
            },
        }
    };
    classify(output, report)
}

/// What is reported of a test framework that is not known here.
pub fn tests_unsupported(framework: &str) -> (r: String)
    ensures
        r@ == "Testing framework '"@ + framework@ + "' not supported."@,
{
    cat3("Testing framework '", framework, "' not supported.")
}

/// What is reported of a package that was to be installed.
pub open spec fn install_result(
    ecosystem: Ecosystem,
    manager: Seq<char>,
    package: Seq<char>,
    success: bool,
    stderr: Seq<char>,
) -> Seq<char> {
    match ecosystem {
        Ecosystem::JavaScript => if success {
            "Successfully installed "@ + manager + " package: "@ + package
        } else {
            "Failed to install "@ + manager + " package '"@ + package + "': "@ + stderr
        },
        Ecosystem::Rust => if success {
            "Successfully added Rust crate: "@ + package
        } else {
            "Failed to add Rust crate '"@ + package + "': "@ + stderr
        },
        Ecosystem::Python => if success {
            "Successfully installed Python package: "@ + package
        } else {
            "Failed to install Python package '"@ + package + "': "@ + stderr
        },
        Ecosystem::Go => if success {
            "Successfully installed Go package: "@ + package
        } else {
            "Failed to install Go package '"@ + package + "': "@ + stderr
        },
    }
}

/// The report of a package that was to be installed.
pub fn install_report(
    ecosystem: Ecosystem,
    manager: &str,
    package: &str,
    output: &Output,
) -> (r: Result<String, String>)
    ensures
        result_text(r) == outcome(
            output.success,
            install_result(ecosystem, manager@, package@, output.success, output.stderr@),
        ),
{
    let report = {
        let err = output.stderr.as_str();
        match ecosystem {
            Ecosystem::JavaScript => if output.success {
                cat4("Successfully installed ", manager, " package: ", package)
            } else {
                cat6("Failed to install ", manager, " package '", package, "': ", err)
            },
            Ecosystem::Rust => if output.success {
                cat2("Successfully added Rust crate: ", package)
            } else {
                cat4("Failed to add Rust crate '", package, "': ", err)
            },
            Ecosystem::Python => if output.success {
                cat2("Successfully installed Python package: ", package)
            } else {
                cat4("Failed to install Python package '", package, "': ", err)
            },
            Ecosystem::Go => if output.success {
                cat2("Successfully installed Go package: ", package)
            } else {
                cat4("Failed to install Go package '", package, "': ", err)
            },
        }
    };
    classify(output, report)
}

/// What is reported of a package manager that is not known here.
pub fn manager_unsupported(manager: &str) -> (r: String)
    ensures
        r@ == "Package manager '"@ + manager@ + "' not supported."@,
{
    cat3("Package manager '", manager, "' not supported.")
}


// ---------------------------------------------------------------------------
// Which programs are run
// ---------------------------------------------------------------------------

/// A program to run: its name, its arguments, and the directory in which it
/// runs, where that is not the current one.
#[derive(Debug, Clone)]
pub struct CommandLine {
    pub program: String,
    pub arguments: Vec<String>,
    pub directory: Option<String>,
}

/// The mathematical value of a `CommandLine`.
pub ghost struct CommandLineView {
    pub program: Seq<char>,
    pub arguments: Seq<Seq<char>>,
    pub directory: Option<Seq<char>>,
}

impl View for CommandLine {
    type V = CommandLineView;

    open spec fn view(&self) -> CommandLineView {
        CommandLineView {
            program: self.program@,
            arguments: texts(self.arguments@),
            directory: crate::text::opt_text(self.directory),
        }
    }
}

/// Programs to try one after another, until one can be started, and what
/// stands for the output where none can: a notice, or nothing, in which
/// case the tool fails with the error of the last attempt.
#[derive(Debug, Clone)]
pub struct Attempts {
    pub commands: Vec<CommandLine>,
    pub unavailable: Option<String>,
}

/// The mathematical value of `Attempts`.
pub ghost struct AttemptsView {
    pub commands: Seq<CommandLineView>,
    pub unavailable: Option<Seq<char>>,
}

impl View for Attempts {
    type V = AttemptsView;

    open spec fn view(&self) -> AttemptsView {
        AttemptsView {
            commands: self.commands@.map_values(|c: CommandLine| c@),
            unavailable: crate::text::opt_text(self.unavailable),
        }
    }
}

/// The linters of an ecosystem, in the order in which they are tried.
pub open spec fn lint_plan(ecosystem: Ecosystem, target: Seq<char>) -> AttemptsView {
    match ecosystem {
        Ecosystem::Rust => AttemptsView {
            commands: seq![
                CommandLineView {
                    program: "cargo"@,
                    arguments: seq!["clippy"@],
                    directory: Some(target),
                },
            ],
            unavailable: None,
        },
        Ecosystem::Python => AttemptsView {
            commands: seq![
                CommandLineView { program: "flake8"@, arguments: seq![target], directory: None },
                CommandLineView { program: "pylint"@, arguments: seq![target], directory: None },
                CommandLineView {
                    program: "python"@,
                    arguments: seq!["-m"@, "pycodestyle"@, target],
                    directory: None,
                },
            ],
            unavailable: Some("Python linter not available"@),
        },
        _ => AttemptsView {
            commands: seq![
                CommandLineView { program: "eslint"@, arguments: seq![target], directory: None },
            ],
            unavailable: Some("ESLint not available"@),
        },
    }
}

/// The test runners of an ecosystem, in the order in which they are tried.
/// Each runs in the directory under test.
pub open spec fn test_plan(ecosystem: Ecosystem, target: Seq<char>) -> AttemptsView {
    match ecosystem {
        Ecosystem::Rust => AttemptsView {
            commands: seq![
                CommandLineView {
                    program: "cargo"@,
                    arguments: seq!["test"@],
                    directory: Some(target),
                },
            ],
            unavailable: None,
        },
        Ecosystem::Python => AttemptsView {
            commands: seq![
                CommandLineView {
                    program: "python"@,
                    arguments: seq!["-m"@, "pytest"@],
                    directory: Some(target),
                },
                CommandLineView {
                    program: "python"@,
                    arguments: seq!["-m"@, "unittest"@, "discover"@],
                    directory: Some(target),
                },
            ],
            unavailable: Some("Python testing framework not available"@),
        },
        _ => AttemptsView {
            commands: seq![
                CommandLineView {
                    program: "npx"@,
                    arguments: seq!["jest"@],
                    directory: Some(target),
                },
            ],
            unavailable: Some("Jest testing framework not available"@),
        },
    }
}

/// The program that installs a package for an ecosystem.
pub open spec fn install_line(
    ecosystem: Ecosystem,
    manager: Seq<char>,
    package: Seq<char>,
) -> CommandLineView {
    match ecosystem {
        Ecosystem::JavaScript => CommandLineView {
            program: if manager == "yarn"@ {
                "yarn"@
            } else {
                "npm"@
            },
            arguments: seq!["install"@, package],
            directory: None,
        },
        Ecosystem::Rust => CommandLineView {
            program: "cargo"@,
            arguments: seq!["add"@, package],
            directory: None,
        },
        Ecosystem::Python => CommandLineView {
            program: "pip"@,
            arguments: seq!["install"@, package],
            directory: None,
        },
        Ecosystem::Go => CommandLineView {
            program: "go"@,
            arguments: seq!["get"@, package],
            directory: None,
        },
    }
}

fn option_string(o: Option<&str>) -> (r: Option<String>)
    ensures
        crate::text::opt_text(r) == match o {
            Some(s) => Some(s@),
            None => None,
        },
{
    match o {
        Some(s) => Some(String::from_str(s)),
        None => None,
    }
}

fn line1(program: &str, a: &str, directory: Option<&str>) -> (r: CommandLine)
    ensures
        r@ == (CommandLineView {
            program: program@,
            arguments: seq![a@],
            directory: match directory {
                Some(d) => Some(d@),
                None => None,
            },
        }),
{
    let mut arguments: Vec<String> = Vec::new();
    arguments.push(String::from_str(a));
    assert(texts(arguments@) =~= seq![a@]);
    CommandLine {
        program: String::from_str(program),
        arguments,
        directory: option_string(directory),
    }
}

fn line2(program: &str, a: &str, b: &str, directory: Option<&str>) -> (r: CommandLine)
    ensures
        r@ == (CommandLineView {
            program: program@,
            arguments: seq![a@, b@],
            directory: match directory {
                Some(d) => Some(d@),
                None => None,
            },
        }),
{
    let mut arguments: Vec<String> = Vec::new();
    arguments.push(String::from_str(a));
    arguments.push(String::from_str(b));
    assert(texts(arguments@) =~= seq![a@, b@]);
    CommandLine {
        program: String::from_str(program),
        arguments,
        directory: option_string(directory),
    }
}

fn line3(program: &str, a: &str, b: &str, c: &str, directory: Option<&str>) -> (r: CommandLine)
    ensures
        r@ == (CommandLineView {
            program: program@,
            arguments: seq![a@, b@, c@],
            directory: match directory {
                Some(d) => Some(d@),
                None => None,
            },
        }),
{
    let mut arguments: Vec<String> = Vec::new();
    arguments.push(String::from_str(a));
    arguments.push(String::from_str(b));
    arguments.push(String::from_str(c));
    assert(texts(arguments@) =~= seq![a@, b@, c@]);
    CommandLine {
        program: String::from_str(program),
        arguments,
        directory: option_string(directory),
    }
}

/// The linters of an ecosystem for `target`, in the order in which they are
/// tried.
pub fn lint_attempts(ecosystem: Ecosystem, target: &str) -> (r: Attempts)
    ensures
        r@ == lint_plan(ecosystem, target@),
{
    let mut commands: Vec<CommandLine> = Vec::new();
    let unavailable = match ecosystem {
        Ecosystem::Rust => {
            commands.push(line1("cargo", "clippy", Some(target)));
            None
        },
        Ecosystem::Python => {
            commands.push(line1("flake8", target, None));
            commands.push(line1("pylint", target, None));
            commands.push(line3("python", "-m", "pycodestyle", target, None));
            Some(String::from_str("Python linter not available"))
        },
        _ => {
            commands.push(line1("eslint", target, None));
            Some(String::from_str("ESLint not available"))
        },
    };
    let r = Attempts { commands, unavailable };
    assert(r@.commands =~= lint_plan(ecosystem, target@).commands);
    r
}

/// The test runners of an ecosystem for the directory `target`, in the
/// order in which they are tried.
pub fn test_attempts(ecosystem: Ecosystem, target: &str) -> (r: Attempts)
    ensures
        r@ == test_plan(ecosystem, target@),
{
    let mut commands: Vec<CommandLine> = Vec::new();
    let unavailable = match ecosystem {
        Ecosystem::Rust => {
            commands.push(line1("cargo", "test", Some(target)));
            None
        },
        Ecosystem::Python => {
            commands.push(line2("python", "-m", "pytest", Some(target)));
            commands.push(line3("python", "-m", "unittest", "discover", Some(target)));
            Some(String::from_str("Python testing framework not available"))
        },
        _ => {
            commands.push(line1("npx", "jest", Some(target)));
            Some(String::from_str("Jest testing framework not available"))
        },
    };
    let r = Attempts { commands, unavailable };
    assert(r@.commands =~= test_plan(ecosystem, target@).commands);
    r
}

/// The program that installs `package` for an ecosystem. For JavaScript it
/// is `yarn` where the manager was asked for by exactly that name, else
/// `npm`.
pub fn install_command(ecosystem: Ecosystem, manager: &str, package: &str) -> (r: CommandLine)
    ensures
        r@ == install_line(ecosystem, manager@, package@),
{
    match ecosystem {
        Ecosystem::JavaScript => line2(javascript_installer(manager), "install", package, None),
        Ecosystem::Rust => line2("cargo", "add", package, None),
        Ecosystem::Python => line2("pip", "install", package, None),
        Ecosystem::Go => line2("go", "get", package, None),
    }
}

/// What a row of attempts comes to. `started` is the output of the first
/// program that could be started, if any could; `error` is what went wrong
/// with the last attempt. Where none could be started, the notice stands for
/// the output; without a notice, the tool fails with the error.
pub open spec fn settled(
    started: Option<Output>,
    unavailable: Option<Seq<char>>,
    error: Seq<char>,
    r: Result<Output, String>,
) -> bool {
    match started {
        Some(output) => r == Ok::<Output, String>(output),
        None => match unavailable {
            Some(notice) => r matches Ok(output) && !output.success && output.stdout@
                == Seq::<char>::empty() && output.stderr@ == notice,
            None => r matches Err(e) && e@ == error,
        },
    }
}

/// What a row of attempts comes to.
pub fn settle(started: Option<Output>, attempts: &Attempts, error: String) -> (r: Result<
    Output,
    String,
>)
    ensures
        settled(started, attempts@.unavailable, error@, r),
{
    match started {
        Some(output) => Ok(output),
        None => match &attempts.unavailable {
            Some(notice) => Ok(unavailable(notice.as_str())),
            None => Err(error),
        },
    }
}

} // verus!
