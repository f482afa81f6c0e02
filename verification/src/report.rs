//! What the tools that work on files and directories report, and what they
//! decide before they touch anything.

use crate::edit::{replace_all, replaced};
use crate::phrase::{cat2, cat3, cat4, cat5, cat7};
use crate::text::{
    contains, decimal, format_usize, from_chars, has_prefix, join, joined, lines_of, occurs_in,
    slices, split_lines, starts_with, texts, to_chars, trim_end_matches, without_trailing,
};
use vstd::prelude::*;

verus! {

/// The report of a file that was read: its path and its content.
pub fn file_read(path: &str, content: &str) -> (r: String)
    ensures
        r@ == "File: "@ + path@ + "\n\n"@ + content@,
{
    cat4("File: ", path, "\n\n", content)
}

/// The report of a file that was written, with the bytes written.
pub fn file_written(path: &str, bytes: usize) -> (r: String)
    ensures
        r@ == "File '"@ + path@ + "' written successfully ("@ + decimal(bytes as nat)
            + " bytes)."@,
{
    cat5("File '", path, "' written successfully (", format_usize(bytes).as_str(), " bytes).")
}

/// The diagnostic for a file to append to that is not there.
pub fn file_missing(path: &str) -> (r: String)
    ensures
        r@ == "File '"@ + path@ + "' does not exist"@,
{
    cat3("File '", path, "' does not exist")
}

/// The report of content that was appended, with the bytes added.
pub fn content_appended(path: &str, bytes: usize) -> (r: String)
    ensures
        r@ == "Content appended to '"@ + path@ + "' successfully ("@ + decimal(bytes as nat)
            + " bytes added)."@,
{
    cat5(
        "Content appended to '",
        path,
        "' successfully (",
        format_usize(bytes).as_str(),
        " bytes added).",
    )
}

/// What a replacement in a file comes to: the new content and the report,
/// or the diagnostic where the text to replace does not occur.
pub open spec fn replacement(
    path: Seq<char>,
    content: Seq<char>,
    old_string: Seq<char>,
    new_string: Seq<char>,
) -> Result<(Seq<char>, Seq<char>), Seq<char>> {
    if occurs_in(content, old_string) {
        Ok(
            (
                replaced(content, old_string, new_string),
                "Successfully replaced '"@ + old_string + "' with '"@ + new_string + "' in '"@
                    + path + "'"@,
            ),
        )
    } else {
        Err("Old string '"@ + old_string + "' not found in file '"@ + path + "'"@)
    }
}

/// View of the result of a replacement.
pub open spec fn replacement_view(r: Result<(String, String), String>) -> Result<
    (Seq<char>, Seq<char>),
    Seq<char>,
> {
    match r {
        Ok((content, report)) => Ok((content@, report@)),
        Err(diagnostic) => Err(diagnostic@),
    }
}

/// Replaces every occurrence of `old_string` in the content of a file.
/// Nothing is replaced, and a diagnostic is returned, where `old_string`
/// does not occur.
pub fn replace_in_file(path: &str, content: &str, old_string: &str, new_string: &str) -> (r:
    Result<(String, String), String>)
    ensures
        replacement_view(r) == replacement(path@, content@, old_string@, new_string@),
{
    let text = to_chars(content);
    let from = to_chars(old_string);
    let to = to_chars(new_string);
    if contains(text.as_slice(), from.as_slice()) {
        let changed = replace_all(text.as_slice(), from.as_slice(), to.as_slice());
        Ok(
            (
                from_chars(changed.as_slice()),
                cat7(
                    "Successfully replaced '",
                    old_string,
                    "' with '",
                    new_string,
                    "' in '",
                    path,
                    "'",
                ),
            ),
        )
    } else {
        Err(cat5("Old string '", old_string, "' not found in file '", path, "'"))
    }
}

/// The report of a file or a directory that was deleted.
pub fn deleted(path: &str, was_directory: bool) -> (r: String)
    ensures
        r@ == if was_directory {
            "Directory '"@ + path@ + "' deleted successfully."@
        } else {
            "File '"@ + path@ + "' deleted successfully."@
        },
{
    if was_directory {
        cat3("Directory '", path, "' deleted successfully.")
    } else {
        cat3("File '", path, "' deleted successfully.")
    }
}

/// The report of a directory that was created.
pub fn directory_created(path: &str) -> (r: String)
    ensures
        r@ == "Directory '"@ + path@ + "' created successfully."@,
{
    cat3("Directory '", path, "' created successfully.")
}

/// One line of a listing: the kind of the entry and its name.
pub open spec fn entry_line(name: Seq<char>, is_directory: bool) -> Seq<char> {
    if is_directory {
        "[DIR] "@ + name
    } else {
        "[FILE] "@ + name
    }
}

/// One line of a listing.
pub fn listing_line(name: &str, is_directory: bool) -> (r: String)
    ensures
        r@ == entry_line(name@, is_directory),
{
    if is_directory {
        cat2("[DIR] ", name)
    } else {
        cat2("[FILE] ", name)
    }
}

/// One line of a recursive listing: the indentation of its depth, the kind
/// of the entry and its name; the name of a directory is followed by the
/// path separator.
pub open spec fn tree_line(
    prefix: Seq<char>,
    name: Seq<char>,
    is_directory: bool,
    separator: char,
) -> Seq<char> {
    if is_directory {
        (prefix + "[DIR] "@ + name).push(separator)
    } else {
        prefix + "[FILE] "@ + name
    }
}

/// One line of a recursive listing.
pub fn recursive_listing_line(prefix: &str, name: &str, is_directory: bool, separator: char) -> (r:
    String)
    ensures
        r@ == tree_line(prefix@, name@, is_directory, separator),
{
    if is_directory {
        let mut r = cat3(prefix, "[DIR] ", name);
        r.push(separator);
        r
    } else {
        cat3(prefix, "[FILE] ", name)
    }
}

/// The indentation one level below `prefix`.
pub fn deeper(prefix: &str) -> (r: String)
    ensures
        r@ == prefix@ + "  "@,
{
    cat2(prefix, "  ")
}

/// The report of a listing: a heading with the path, then the lines.
pub fn listing(path: &str, lines: &Vec<String>) -> (r: String)
    ensures
        r@ == "Contents of '"@ + path@ + "':\n"@ + joined(texts(lines@), "\n"@),
{
    cat4("Contents of '", path, "':\n", join(lines, "\n").as_str())
}

/// The report of a recursive listing.
pub fn recursive_listing(path: &str, lines: &Vec<String>) -> (r: String)
    ensures
        r@ == "Recursive contents of '"@ + path@ + "':\n"@ + joined(texts(lines@), "\n"@),
{
    cat4("Recursive contents of '", path, "':\n", join(lines, "\n").as_str())
}

/// The report of a file that was copied, moved or renamed: `verb` says
/// which.
pub fn transferred(verb: &str, source: &str, destination: &str) -> (r: String)
    ensures
        r@ == "Successfully "@ + verb@ + " '"@ + source@ + "' to '"@ + destination@ + "'"@,
{
    cat7("Successfully ", verb, " '", source, "' to '", destination, "'")
}

/// What is remembered of a fact: a heading with the time, then the fact.
pub fn memory_entry(timestamp: &str, fact: &str) -> (r: String)
    ensures
        r@ == "\n## ["@ + timestamp@ + "]\n"@ + fact@ + "\n"@,
{
    cat5("\n## [", timestamp, "]\n", fact, "\n")
}

/// The memory document that holds one entry and nothing before it.
pub fn new_memory(entry: &str) -> (r: String)
    ensures
        r@ == "# Agent Memory\n"@ + entry@,
{
    cat2("# Agent Memory\n", entry)
}

/// The report of a fact that was remembered.
pub fn remembered(fact: &str, file: &str) -> (r: String)
    ensures
        r@ == "Remembered: '"@ + fact@ + "' (saved to "@ + file@ + ")"@,
{
    cat5("Remembered: '", fact, "' (saved to ", file, ")")
}

/// The report of the memory document, or of its absence.
pub fn recalled(content: Option<&str>) -> (r: String)
    ensures
        r@ == match content {
            Some(text) => "Project Memory:\n\n"@ + text@,
            None => "No project memory found. Use REMEMBER to save important facts."@,
        },
{
    match content {
        Some(text) => cat2("Project Memory:\n\n", text),
        None => String::from_str("No project memory found. Use REMEMBER to save important facts."),
    }
}

/// The report of a plan that was cleared, or of its absence.
pub fn plan_cleared(existed: bool) -> (r: String)
    ensures
        r@ == if existed {
            "Cleared plan.md - task completed!"@
        } else {
            "No plan.md file found to clear"@
        },
{
    if existed {
        String::from_str("Cleared plan.md - task completed!")
    } else {
        String::from_str("No plan.md file found to clear")
    }
}

/// The report of the time: date, time of day, zone, and seconds since the
/// epoch.
pub fn time_report(date: &str, time: &str, zone: &str, unix_seconds: u64) -> (r: String)
    ensures
        r@ == "Current Date & Time:\n• Date: "@ + date@ + "\n• Time: "@ + time@
            + "\n• Timezone: "@ + zone@ + "\n• Unix Timestamp: "@ + decimal(
            unix_seconds as nat,
        ),
{
    let mut r = cat6_time(date, time, zone);
    r.append("\n• Unix Timestamp: ");
    r.append(crate::text::format_u64(unix_seconds).as_str());
    r
}

fn cat6_time(date: &str, time: &str, zone: &str) -> (r: String)
    ensures
        r@ == "Current Date & Time:\n• Date: "@ + date@ + "\n• Time: "@ + time@
            + "\n• Timezone: "@ + zone@,
{
    crate::phrase::cat6(
        "Current Date & Time:\n• Date: ",
        date,
        "\n• Time: ",
        time,
        "\n• Timezone: ",
        zone,
    )
}

/// The name under which a system is reported.
pub open spec fn system_name(os: Seq<char>, distribution: Option<Seq<char>>) -> Seq<char> {
    if os == "linux"@ {
        "Linux ("@ + (match distribution {
            Some(d) => d,
            None => "Unknown Linux Distribution"@,
        }) + ")"@
    } else if os == "macos"@ {
        "macOS"@
    } else if os == "windows"@ {
        "Windows"@
    } else {
        os
    }
}

/// View of optional text.
pub open spec fn opt_view(o: Option<&str>) -> Option<Seq<char>> {
    match o {
        Some(s) => Some(s@),
        None => None,
    }
}

/// The name under which a system is reported: for Linux with its
/// distribution, where that is known.
pub fn system_details(os: &str, distribution: Option<&str>) -> (r: String)
    ensures
        r@ == system_name(os@, opt_view(distribution)),
{
    let name = to_chars(os);
    if crate::text::is_word(name.as_slice(), "linux") {
        match distribution {
            Some(d) => cat3("Linux (", d, ")"),
            None => cat3("Linux (", "Unknown Linux Distribution", ")"),
        }
    } else if crate::text::is_word(name.as_slice(), "macos") {
        String::from_str("macOS")
    } else if crate::text::is_word(name.as_slice(), "windows") {
        String::from_str("Windows")
    } else {
        String::from_str(os)
    }
}

/// The shells of a system.
pub fn shell_of(os: &str) -> (r: &'static str)
    ensures
        r@ == if os@ == "windows"@ {
            "cmd.exe / PowerShell"@
        } else {
            "bash / sh"@
        },
{
    let name = to_chars(os);
    if crate::text::is_word(name.as_slice(), "windows") {
        "cmd.exe / PowerShell"
    } else {
        "bash / sh"
    }
}

/// What joins two commands on a system.
pub fn command_separator_of(os: &str) -> (r: &'static str)
    ensures
        r@ == if os@ == "windows"@ {
            "&"@
        } else {
            "&&"@
        },
{
    let name = to_chars(os);
    if crate::text::is_word(name.as_slice(), "windows") {
        "&"
    } else {
        "&&"
    }
}


/// The key under which a system names its distribution.
pub open spec fn distribution_key() -> Seq<char> {
    "PRETTY_NAME="@
}

/// `s` without the occurrences of `prefix` at its front.
pub open spec fn without_leading(s: Seq<char>, prefix: Seq<char>) -> Seq<char>
    decreases s.len(),
{
    if prefix.len() > 0 && has_prefix(s, prefix) {
        without_leading(s.skip(prefix.len() as int), prefix)
    } else {
        s
    }
}

/// Number of characters `c` at the front of `s`.
pub open spec fn leading_run(s: Seq<char>, c: char) -> nat
    decreases s.len(),
{
    if s.len() > 0 && s[0] == c {
        1 + leading_run(s.drop_first(), c)
    } else {
        0
    }
}

/// `s` without the double quotes at its two ends.
pub open spec fn unquoted(s: Seq<char>) -> Seq<char> {
    without_trailing(s.skip(leading_run(s, '"') as int), '"')
}

/// The name that a line gives to the distribution: what follows the key,
/// without quotes.
pub open spec fn named_distribution(line: Seq<char>) -> Seq<char> {
    unquoted(without_leading(line, distribution_key()))
}

/// The name of the distribution on the first of the lines that begins with
/// the key.
pub open spec fn first_distribution(lines: Seq<Seq<char>>) -> Option<Seq<char>>
    decreases lines.len(),
{
    if lines.len() == 0 {
        None
    } else if has_prefix(lines[0], distribution_key()) {
        Some(named_distribution(lines[0]))
    } else {
        first_distribution(lines.drop_first())
    }
}

proof fn lemma_leading_run(s: Seq<char>, c: char, n: int)
    requires
        0 <= n <= s.len(),
        forall|j: int| 0 <= j < n ==> #[trigger] s[j] == c,
        n < s.len() ==> s[n] != c,
    ensures
        leading_run(s, c) == n,
    decreases n,
{
    if n > 0 {
        let t = s.drop_first();
        assert forall|j: int| 0 <= j < n - 1 implies #[trigger] t[j] == c by {
            assert(t[j] == s[j + 1]);
        }
        lemma_leading_run(t, c, n - 1);
    }
}

fn distribution_of_line(line: &[char], key: &[char]) -> (r: String)
    requires
        key@ == distribution_key(),
        key@.len() > 0,
    ensures
        r@ == named_distribution(line@),
{
    let mut start: usize = 0;
    assert(line@.skip(0) =~= line@);
    while starts_with(&line[start..line.len()], key)
        invariant
            start <= line.len(),
            key@ == distribution_key(),
            key@.len() > 0,
            without_leading(line@, key@) == without_leading(line@.skip(start as int), key@),
        decreases line.len() - start,
    {
        proof {
            let rest = line@.skip(start as int);
            assert(rest.skip(key.len() as int) =~= line@.skip(start + key.len()));
        }
        start += key.len();
    }
    let rest = &line[start..line.len()];
    assert(rest@ == without_leading(line@, distribution_key()));
    let mut a: usize = 0;
    while a < rest.len() && rest[a] == '"'
        invariant
            a <= rest.len(),
            forall|j: int| 0 <= j < a ==> #[trigger] rest@[j] == '"',
        decreases rest.len() - a,
    {
        a += 1;
    }
    proof {
        lemma_leading_run(rest@, '"', a as int);
    }
    from_chars(trim_end_matches(&rest[a..rest.len()], '"'))
}

/// The name of the distribution in the text of a system's release file.
pub fn distribution_in(release: &str) -> (r: Option<String>)
    ensures
        crate::text::opt_text(r) == first_distribution(lines_of(release@)),
{
    let chars = to_chars(release);
    let lines = split_lines(chars.as_slice());
    let key = to_chars("PRETTY_NAME=");
    proof {
        reveal_strlit("PRETTY_NAME=");
    }
    let ghost all = slices(lines@);
    let mut i: usize = 0;
    assert(all.skip(0) =~= all);
    while i < lines.len()
        invariant
            i <= lines.len(),
            all == slices(lines@),
            all == lines_of(release@),
            key@ == distribution_key(),
            key@.len() > 0,
            first_distribution(all.skip(i as int)) == first_distribution(all),
        decreases lines.len() - i,
    {
        proof {
            assert(all.skip(i as int).drop_first() =~= all.skip(i + 1));
            assert(all.skip(i as int)[0] == lines@[i as int]@);
        }
        if starts_with(lines[i], key.as_slice()) {
            return Some(distribution_of_line(lines[i], key.as_slice()));
        }
        i += 1;
    }
    None
}

/// The report of the system: its name, architecture and family, its shells,
/// what separates paths and commands, and where temporary files go.
pub fn system_report(
    details: &str,
    architecture: &str,
    family: &str,
    shell: &str,
    path_separator: char,
    command_separator: &str,
    temp_directory: &str,
) -> (r: String)
    ensures
        r@ == ("Operating System Information:\n• OS: "@ + details@ + "\n• Architecture: "@
            + architecture@ + "\n• OS Family: "@ + family@ + "\n• Shell: "@ + shell@
            + "\n• Path Separator: "@).push(path_separator) + "\n• Command Separator: "@
            + command_separator@ + "\n• Temp Directory: "@ + temp_directory@,
{
    let mut r = String::from_str("Operating System Information:\n• OS: ");
    r.append(details);
    r.append("\n• Architecture: ");
    r.append(architecture);
    r.append("\n• OS Family: ");
    r.append(family);
    r.append("\n• Shell: ");
    r.append(shell);
    r.append("\n• Path Separator: ");
    r.push(path_separator);
    r.append("\n• Command Separator: ");
    r.append(command_separator);
    r.append("\n• Temp Directory: ");
    r.append(temp_directory);
    r
}

} // verus!
