//! Searching: the web, and the symbols of a code base.
//!
//! Patterns are matched by the `regex` crate and texts are percent-encoded
//! and decoded by the `urlencoding` crate. What is done with the matches is
//! verified here.

use crate::json::{json_document, JsonValue};
use crate::order::{ordered, sort_lines};
use crate::phrase::{cat2, cat3, cat4, cat5, cat6};
use crate::runner::{lowercase_each, lowercase_of, pairs, with_lowercase};
use crate::text::{
    contains, decimal, format_usize, from_chars, is_word, join, joined, occurs_at, occurs_in,
    opt_text, same, texts, to_chars,
};
use crate::tool::at_most;
use vstd::prelude::*;
use vstd::string::StringSliceAdditionalSpecFns;

verus! {

// ---------------------------------------------------------------------------
// Outside functions
// ---------------------------------------------------------------------------

/// The matches of a pattern in a text, as the `regex` crate finds them: for
/// each match, from left to right and without overlap, the text of every
/// group, group zero being the whole match; a group that took no part in
/// the match has no text. `None` where the pattern is no regular expression.
pub uninterp spec fn regex_captures(pattern: Seq<char>, text: Seq<char>) -> Option<
    Seq<Seq<Option<Seq<char>>>>,
>;

/// The text that percent-decoding makes of `s`, as the `urlencoding` crate
/// does it. `None` where the decoded bytes are no UTF-8.
pub uninterp spec fn percent_decoded(s: Seq<char>) -> Option<Seq<char>>;

/// The bytes that percent-encoding leaves as they are: digits, letters,
/// hyphen, full stop, underscore and tilde.
pub open spec fn is_unreserved(b: u8) -> bool {
    ||| 0x30 <= b <= 0x39
    ||| 0x41 <= b <= 0x5a
    ||| 0x61 <= b <= 0x7a
    ||| b == 0x2d
    ||| b == 0x2e
    ||| b == 0x5f
    ||| b == 0x7e
}

/// The hexadecimal digit for `d`, in capitals, for `d` below sixteen.
pub open spec fn hex_digit(d: int) -> char {
    if d < 10 {
        (0x30 + d) as char
    } else {
        (0x41 + d - 10) as char
    }
}

/// The percent-encoding of a sequence of bytes: an unreserved byte stands
/// for itself, any other byte becomes a percent sign and two hexadecimal
/// digits.
pub open spec fn percent_encoded(bytes: Seq<u8>) -> Seq<char>
    decreases bytes.len(),
{
    if bytes.len() == 0 {
        Seq::empty()
    } else {
        let b = bytes.last();
        percent_encoded(bytes.drop_last()) + if is_unreserved(b) {
            seq![b as char]
        } else {
            seq!['%', hex_digit(b as int / 16), hex_digit(b as int % 16)]
        }
    }
}

/// Views of the groups of one match.
pub open spec fn groups_view(groups: Seq<Option<String>>) -> Seq<Option<Seq<char>>> {
    groups.map_values(|g: Option<String>| opt_text(g))
}

/// Views of the groups of all matches.
pub open spec fn captures_view(found: Option<Vec<Vec<Option<String>>>>) -> Option<
    Seq<Seq<Option<Seq<char>>>>,
> {
    match found {
        Some(all) => Some(all@.map_values(|m: Vec<Option<String>>| groups_view(m@))),
        None => None,
    }
}

/// `regex::Regex::new` and `Regex::captures_iter`: compiles the pattern and
/// collects the groups of every match in the text.
#[verifier::external_body]
fn capture_all(pattern: &str, text: &str) -> (r: Option<Vec<Vec<Option<String>>>>)
    ensures
        captures_view(r) == regex_captures(pattern@, text@),
{
    let compiled = regex::Regex::new(pattern).ok()?;
    Some(
        compiled.captures_iter(text).map(
            |found| found.iter().map(|group| group.map(|m| m.as_str().to_string())).collect(),
        ).collect(),
    )
}

/// `urlencoding::encode`: the percent-encoding of the UTF-8 bytes of the
/// text.
#[verifier::external_body]
fn percent_encode(data: &str) -> (r: String)
    ensures
        r@ == percent_encoded(data.spec_bytes()),
{
    urlencoding::encode(data).into_owned()
}

/// `urlencoding::decode`: percent-decodes the text.
#[verifier::external_body]
fn percent_decode(data: &str) -> (r: Option<String>)
    ensures
        opt_text(r) == percent_decoded(data@),
{
    urlencoding::decode(data).ok().map(|text| text.into_owned())
}

// ---------------------------------------------------------------------------
// Web search
// ---------------------------------------------------------------------------

/// The pattern that finds a result in the page of the search service: the
/// link in group one, the title in group two.
pub const RESULT_PATTERN: &'static str =
    "class=\"result__a\"\\s+href=\"([^\"]+)\">([^<]+)</a>";

/// How many results of a search are reported.
pub const RESULT_LIMIT: usize = 5;

/// How much of a page is reported where no result was found in it.
pub const RAW_LIMIT: usize = 1000;

/// Whether a provider, named in small letters, is the one search service
/// that is supported.
pub fn is_supported_lowercase(lower: &str) -> (r: bool)
    ensures
        r == (lower@ == "duckduckgo"@),
{
    let chars = to_chars(lower);
    is_word(chars.as_slice(), "duckduckgo")
}

/// Whether the provider is the one search service that is supported,
/// whatever the case of the letters.
pub fn is_supported_provider(provider: &str) -> (r: bool)
    ensures
        r == (lowercase_of(provider@) == "duckduckgo"@),
{
    is_supported_lowercase(provider.to_lowercase().as_str())
}

/// What is reported of a provider, named in small letters, that is not
/// supported.
pub fn provider_notice(lower: &str) -> (r: String)
    ensures
        r@ == "Provider '"@ + lower@ + "' not yet implemented. Please use 'duckduckgo'."@,
{
    cat3("Provider '", lower, "' not yet implemented. Please use 'duckduckgo'.")
}

/// What is reported of a provider that is not supported.
pub fn provider_unsupported(provider: &str) -> (r: String)
    ensures
        r@ == "Provider '"@ + lowercase_of(provider@)
            + "' not yet implemented. Please use 'duckduckgo'."@,
{
    provider_notice(provider.to_lowercase().as_str())
}

/// The address that answers a search for `query`.
pub fn search_url(query: &str) -> (r: String)
    ensures
        r@ == "https://html.duckduckgo.com/html/?q="@ + percent_encoded(query.spec_bytes()),
{
    cat2("https://html.duckduckgo.com/html/?q=", percent_encode(query).as_str())
}

/// Index of the first occurrence of `needle` in `s`.
pub open spec fn first_occurrence(s: Seq<char>, needle: Seq<char>, i: int) -> bool {
    occurs_at(s, needle, i) && forall|j: int| 0 <= j < i ==> !occurs_at(s, needle, j)
}

/// Index of the first occurrence of `needle` in the slice.
pub fn find_text(s: &[char], needle: &[char]) -> (r: Option<usize>)
    ensures
        match r {
            Some(i) => first_occurrence(s@, needle@, i as int),
            None => !occurs_in(s@, needle@),
        },
{
    if needle.len() > s.len() {
        assert(forall|i: int| !occurs_at(s@, needle@, i));
        return None;
    }
    let last: usize = s.len() - needle.len();
    let mut i: usize = 0;
    loop
        invariant
            i <= last,
            last == s.len() - needle.len(),
            forall|j: int| 0 <= j < i ==> !occurs_at(s@, needle@, j),
        decreases last - i,
    {
        if same(&s[i..i + needle.len()], needle) {
            assert(occurs_at(s@, needle@, i as int));
            return Some(i);
        }
        if i == last {
            assert(forall|j: int| !occurs_at(s@, needle@, j));
            return None;
        }
        i += 1;
    }
}

/// The mark behind which a link of the search service carries the address
/// that it leads to.
pub open spec fn target_mark() -> Seq<char> {
    "uddg="@
}

/// Whether `clean` is the address that `link` leads to: what stands behind
/// the first target mark, percent-decoded; the link itself where it has no
/// mark or where what stands behind the mark cannot be decoded.
pub open spec fn is_cleaned(link: Seq<char>, clean: Seq<char>) -> bool {
    if occurs_in(link, target_mark()) {
        exists|i: int|
            first_occurrence(link, target_mark(), i) && clean == match percent_decoded(
                link.skip(i + target_mark().len()),
            ) {
                Some(target) => target,
                None => link,
            }
    } else {
        clean == link
    }
}

/// What stands behind the first target mark of a link, if it has one.
pub fn marked_target(link: &str) -> (r: Option<String>)
    ensures
        match r {
            Some(rest) => exists|i: int|
                first_occurrence(link@, target_mark(), i) && rest@ == link@.skip(
                    i + target_mark().len(),
                ),
            None => !occurs_in(link@, target_mark()),
        },
{
    let chars = to_chars(link);
    let mark = to_chars("uddg=");
    let total = chars.len();
    let width = mark.len();
    match find_text(chars.as_slice(), mark.as_slice()) {
        Some(i) => {
            assert(occurs_at(chars@, mark@, i as int));
            let rest = from_chars(&chars.as_slice()[i + width..total]);
            assert(first_occurrence(link@, target_mark(), i as int) && rest@ == link@.skip(
                i as int + target_mark().len(),
            ));
            Some(rest)
        },
        None => None,
    }
}

/// The address that a link leads to, where `decoded` is what decoding made
/// of its marked target: the decoded target, or the link itself where the
/// target could not be decoded.
pub fn chosen_target(link: &str, decoded: Option<String>) -> (r: String)
    ensures
        r@ == match decoded {
            Some(target) => target@,
            None => link@,
        },
{
    match decoded {
        Some(target) => target,
        None => String::from_str(link),
    }
}

/// The address that a link of the search service leads to.
pub fn clean_link(link: &str) -> (r: String)
    ensures
        is_cleaned(link@, r@),
{
    match marked_target(link) {
        Some(rest) => chosen_target(link, percent_decode(rest.as_str())),
        None => String::from_str(link),
    }
}

/// Whether `line` is the line that reports the match with these groups: the
/// title and the cleaned link, in the form of a list item with a link.
pub open spec fn is_result_line(groups: Seq<Option<Seq<char>>>, line: Seq<char>) -> bool {
    groups.len() >= 3 && groups[1] is Some && groups[2] is Some && exists|clean: Seq<char>|
        is_cleaned(groups[1]->0, clean) && line == "- ["@ + groups[2]->0 + "]("@ + clean + ")"@
}

/// Whether a match has the link and the title that a result needs.
pub open spec fn is_result(groups: Seq<Option<Seq<char>>>) -> bool {
    groups.len() >= 3 && groups[1] is Some && groups[2] is Some
}

/// Whether `lines` report the results in a page with these matches: one
/// line for each of the first matches, up to the limit, in order.
pub open spec fn are_result_lines(
    found: Seq<Seq<Option<Seq<char>>>>,
    lines: Seq<Seq<char>>,
) -> bool {
    let shown = if found.len() <= RESULT_LIMIT {
        found
    } else {
        found.take(RESULT_LIMIT as int)
    };
    let kept = shown.filter(|g: Seq<Option<Seq<char>>>| is_result(g));
    lines.len() == kept.len() && forall|i: int|
        0 <= i < lines.len() ==> is_result_line(kept[i], #[trigger] lines[i])
}

/// The lines that report the matches of the result pattern: one line for
/// each of the first matches, up to the limit, in order.
pub fn result_lines(found: &Vec<Vec<Option<String>>>) -> (r: Vec<String>)
    ensures
        are_result_lines(
            found@.map_values(|m: Vec<Option<String>>| groups_view(m@)),
            texts(r@),
        ),
{
    let ghost all = found@.map_values(|m: Vec<Option<String>>| groups_view(m@));
    let n: usize = if found.len() <= RESULT_LIMIT {
        found.len()
    } else {
        RESULT_LIMIT
    };
    let ghost shown = all.take(n as int);
    assert(shown =~= if all.len() <= RESULT_LIMIT {
        all
    } else {
        all.take(RESULT_LIMIT as int)
    });
    let mut out: Vec<String> = Vec::new();
    let mut i: usize = 0;
    let ghost keep = |g: Seq<Option<Seq<char>>>| is_result(g);
    assert(shown.take(0) =~= Seq::<Seq<Option<Seq<char>>>>::empty());
    while i < n
        invariant
            i <= n,
            n <= found.len(),
            all == found@.map_values(|m: Vec<Option<String>>| groups_view(m@)),
            shown == all.take(n as int),
            keep == (|g: Seq<Option<Seq<char>>>| is_result(g)),
            out.len() == shown.take(i as int).filter(keep).len(),
            forall|k: int|
                0 <= k < out.len() ==> is_result_line(
                    shown.take(i as int).filter(keep)[k],
                    (#[trigger] out@[k])@,
                ),
        decreases n - i,
    {
        let groups = &found[i];
        let ghost g = groups_view(groups@);
        let ghost before = shown.take(i as int).filter(keep);
        proof {
            let next = shown.take(i + 1);
            assert(next.drop_last() =~= shown.take(i as int));
            assert(next.last() == g);
            reveal(Seq::filter);
        }
        if groups.len() >= 3 {
            assert(g[1] == opt_text(groups@[1]) && g[2] == opt_text(groups@[2]));
            match (&groups[1], &groups[2]) {
                (Some(link), Some(title)) => {
                    let clean = clean_link(link.as_str());
                    let line = cat5("- [", title.as_str(), "](", clean.as_str(), ")");
                    let ghost held = out@;
                    out.push(line);
                    proof {
                        let now = shown.take(i + 1).filter(keep);
                        assert(now =~= before.push(g));
                        assert(g[1]->0 == link@ && g[2]->0 == title@);
                        assert(is_cleaned(g[1]->0, clean@));
                        assert(line@ == "- ["@ + g[2]->0 + "]("@ + clean@ + ")"@);
                        assert(is_result_line(g, line@));
                        assert forall|k: int| 0 <= k < out.len() implies is_result_line(
                            now[k],
                            (#[trigger] out@[k])@,
                        ) by {
                            if k < held.len() {
                                assert(out@[k] == held[k]);
                                assert(now[k] == before[k]);
                            }
                        }
                    }
                },
                _ => {
                    assert(!is_result(g));
                },
            }
        } else {
            assert(!is_result(g));
        }
        i += 1;
    }
    assert(shown.take(n as int) =~= shown);
    out
}

/// The lines that report the results found in a page of the search service.
/// A page in which the pattern finds nothing gives no line.
pub fn search_results(html: &str) -> (r: Vec<String>)
    ensures
        match regex_captures(RESULT_PATTERN@, html@) {
            Some(found) => are_result_lines(found, texts(r@)),
            None => r@.len() == 0,
        },
{
    match capture_all(RESULT_PATTERN, html) {
        Some(found) => result_lines(&found),
        None => Vec::new(),
    }
}

/// What is reported of a search: the lines of the results, or, where there
/// is none, the beginning of the page as plain text.
pub open spec fn search_result(query: Seq<char>, lines: Seq<Seq<char>>, page: Seq<char>) -> Seq<
    char,
> {
    if lines.len() == 0 {
        "Search results for '"@ + query + "' (raw text):\n\n"@ + at_most(page, RAW_LIMIT as nat)
    } else {
        "Search results for '"@ + query + "':\n\n"@ + joined(lines, "\n"@)
    }
}

/// The report of a search. `page_text` is the page as plain text; it is
/// read only where there are no results.
pub fn search_report(query: &str, lines: &Vec<String>, page_text: &str) -> (r: String)
    ensures
        r@ == search_result(query@, texts(lines@), page_text@),
{
    if lines.len() == 0 {
        let chars = to_chars(page_text);
        let n: usize = if chars.len() <= RAW_LIMIT {
            chars.len()
        } else {
            RAW_LIMIT
        };
        let head = from_chars(&chars.as_slice()[0..n]);
        assert(head@ =~= at_most(page_text@, RAW_LIMIT as nat));
        cat4("Search results for '", query, "' (raw text):\n\n", head.as_str())
    } else {
        cat4("Search results for '", query, "':\n\n", join(lines, "\n").as_str())
    }
}

/// The report of a page that was read: its address and its text.
pub fn page_report(url: &str, text: &str) -> (r: String)
    ensures
        r@ == "Content of "@ + url@ + ":\n\n"@ + text@,
{
    cat4("Content of ", url, ":\n\n", text)
}

// ---------------------------------------------------------------------------
// The symbol index
// ---------------------------------------------------------------------------

/// The patterns that find symbols: the name is in group one, unless said
/// otherwise.
pub const RUST_FUNCTION: &'static str = "fn\\s+([a-zA-Z_][a-zA-Z0-9_]*)";

/// The kind of the type is in group one, its name in group two.
pub const RUST_TYPE: &'static str = "(struct|enum|trait)\\s+([a-zA-Z_][a-zA-Z0-9_]*)";

/// Finds the functions of Python code.
pub const PYTHON_FUNCTION: &'static str = "def\\s+([a-zA-Z_][a-zA-Z0-9_]*)";

/// Finds the classes of Python and JavaScript code.
pub const CLASS: &'static str = "class\\s+([a-zA-Z_][a-zA-Z0-9_]*)";

/// The name is in group one or in group two.
pub const SCRIPT_FUNCTION: &'static str =
    "(?:function\\s+([a-zA-Z_][a-zA-Z0-9_]*)|([a-zA-Z_][a-zA-Z0-9_]*)\\s*=\\s*function)";

/// Finds the variables of JavaScript code.
pub const SCRIPT_VARIABLE: &'static str = "(?:const|let|var)\\s+([a-zA-Z_][a-zA-Z0-9_]*)\\s*=";

/// How the symbol of a match is named.
#[derive(Clone, Copy, Debug, PartialEq, Eq, Structural)]
pub enum Naming {
    /// `label`, then the text of group one.
    Labelled,
    /// The text of group one as the label, then the text of group two.
    KindAndName,
    /// `label`, then the text of group one, or of group two where group one
    /// took no part.
    EitherGroup,
}

/// The symbol that a match gives, if it gives one.
pub open spec fn symbol_of(
    groups: Seq<Option<Seq<char>>>,
    naming: Naming,
    label: Seq<char>,
) -> Option<Seq<char>> {
    match naming {
        Naming::Labelled => if groups.len() >= 2 && groups[1] is Some {
            Some(label + ": "@ + groups[1]->0)
        } else {
            None
        },
        Naming::KindAndName => if groups.len() >= 3 && groups[1] is Some && groups[2] is Some {
            Some(groups[1]->0 + ": "@ + groups[2]->0)
        } else {
            None
        },
        Naming::EitherGroup => if groups.len() >= 3 && groups[1] is Some {
            Some(label + ": "@ + groups[1]->0)
        } else if groups.len() >= 3 && groups[2] is Some {
            Some(label + ": "@ + groups[2]->0)
        } else {
            None
        },
    }
}

/// The symbols that a pattern finds in a text, in the order of the matches.
pub open spec fn symbols_found(
    pattern: Seq<char>,
    content: Seq<char>,
    naming: Naming,
    label: Seq<char>,
) -> Seq<Seq<char>> {
    match regex_captures(pattern, content) {
        Some(found) => symbols_among(found, naming, label),
        None => Seq::empty(),
    }
}

/// The symbol that a match with these groups gives, if it gives one.
pub fn name_symbol(groups: &Vec<Option<String>>, naming: Naming, label: &str) -> (r: Option<
    String,
>)
    ensures
        opt_text(r) == symbol_of(groups_view(groups@), naming, label@),
{
    let ghost g = groups_view(groups@);
    match naming {
        Naming::Labelled => {
            if groups.len() >= 2 {
                assert(g[1] == opt_text(groups@[1]));
                match &groups[1] {
                    Some(name) => Some(cat3(label, ": ", name.as_str())),
                    None => None,
                }
            } else {
                None
            }
        },
        Naming::KindAndName => {
            if groups.len() >= 3 {
                assert(g[1] == opt_text(groups@[1]) && g[2] == opt_text(groups@[2]));
                match (&groups[1], &groups[2]) {
                    (Some(kind), Some(name)) => Some(cat3(kind.as_str(), ": ", name.as_str())),
                    _ => None,
                }
            } else {
                None
            }
        },
        Naming::EitherGroup => {
            if groups.len() >= 3 {
                assert(g[1] == opt_text(groups@[1]) && g[2] == opt_text(groups@[2]));
                match (&groups[1], &groups[2]) {
                    (Some(name), _) => Some(cat3(label, ": ", name.as_str())),
                    (None, Some(name)) => Some(cat3(label, ": ", name.as_str())),
                    _ => None,
                }
            } else {
                None
            }
        },
    }
}

/// The symbols that matches give, in the order of the matches.
pub open spec fn symbols_among(
    found: Seq<Seq<Option<Seq<char>>>>,
    naming: Naming,
    label: Seq<char>,
) -> Seq<Seq<char>> {
    found.filter_map(|g: Seq<Option<Seq<char>>>| symbol_of(g, naming, label))
}

/// Adds to `out` the symbols that the matches give.
pub fn symbols_from_matches(
    out: &mut Vec<String>,
    found: &Vec<Vec<Option<String>>>,
    naming: Naming,
    label: &str,
)
    ensures
        texts(final(out)@) == texts(old(out)@) + symbols_among(
            found@.map_values(|m: Vec<Option<String>>| groups_view(m@)),
            naming,
            label@,
        ),
{
    let ghost base = texts(out@);
    let ghost all = found@.map_values(|m: Vec<Option<String>>| groups_view(m@));
    let ghost pick = |g: Seq<Option<Seq<char>>>| symbol_of(g, naming, label@);
    let mut i: usize = 0;
    assert(all.take(0) =~= Seq::<Seq<Option<Seq<char>>>>::empty());
    assert(base + all.take(0).filter_map(pick) =~= base);
    while i < found.len()
        invariant
            i <= found.len(),
            all == found@.map_values(|m: Vec<Option<String>>| groups_view(m@)),
            pick == (|g: Seq<Option<Seq<char>>>| symbol_of(g, naming, label@)),
            texts(out@) == base + all.take(i as int).filter_map(pick),
        decreases found.len() - i,
    {
        let ghost before = out@;
        proof {
            all.lemma_filter_map_take_succ(pick, i as int);
            assert(all[i as int] == groups_view(found@[i as int]@));
        }
        match name_symbol(&found[i], naming, label) {
            Some(symbol) => {
                out.push(symbol);
                assert(texts(out@) =~= texts(before).push(symbol@));
                assert(texts(out@) =~= base + all.take(i + 1).filter_map(pick));
            },
            None => {
                assert(texts(out@) =~= base + all.take(i + 1).filter_map(pick));
            },
        }
        i += 1;
    }
    assert(all.take(found.len() as int) =~= all);
}

fn add_symbols(out: &mut Vec<String>, pattern: &str, content: &str, naming: Naming, label: &str)
    ensures
        texts(final(out)@) == texts(old(out)@) + symbols_found(pattern@, content@, naming, label@),
{
    match capture_all(pattern, content) {
        Some(found) => symbols_from_matches(out, &found, naming, label),
        None => {
            assert(texts(out@) + Seq::<Seq<char>>::empty() =~= texts(out@));
        },
    }
}

/// The symbols of a file with the given extension and content: functions
/// and types for Rust, functions and classes for Python, functions, classes
/// and variables for JavaScript and TypeScript. Files of other kinds have
/// no symbols.
pub open spec fn symbols_of(extension: Seq<char>, content: Seq<char>) -> Seq<Seq<char>> {
    if extension == "rs"@ {
        symbols_found(RUST_FUNCTION@, content, Naming::Labelled, "Function"@) + symbols_found(
            RUST_TYPE@,
            content,
            Naming::KindAndName,
            ""@,
        )
    } else if extension == "py"@ {
        symbols_found(PYTHON_FUNCTION@, content, Naming::Labelled, "Function"@) + symbols_found(
            CLASS@,
            content,
            Naming::Labelled,
            "Class"@,
        )
    } else if extension == "js"@ || extension == "ts"@ || extension == "jsx"@ || extension
        == "tsx"@ {
        symbols_found(SCRIPT_FUNCTION@, content, Naming::EitherGroup, "Function"@) + symbols_found(
            CLASS@,
            content,
            Naming::Labelled,
            "Class"@,
        ) + symbols_found(SCRIPT_VARIABLE@, content, Naming::Labelled, "Variable"@)
    } else {
        Seq::empty()
    }
}

/// The symbols of a file with the given extension and content.
pub fn symbols_in(extension: &str, content: &str) -> (r: Vec<String>)
    ensures
        texts(r@) == symbols_of(extension@, content@),
{
    let ext = to_chars(extension);
    let e = ext.as_slice();
    let mut out: Vec<String> = Vec::new();
    assert(texts(out@) =~= Seq::<Seq<char>>::empty());
    if is_word(e, "rs") {
        add_symbols(&mut out, RUST_FUNCTION, content, Naming::Labelled, "Function");
        add_symbols(&mut out, RUST_TYPE, content, Naming::KindAndName, "");
        assert(texts(out@) =~= symbols_of(extension@, content@));
    } else if is_word(e, "py") {
        add_symbols(&mut out, PYTHON_FUNCTION, content, Naming::Labelled, "Function");
        add_symbols(&mut out, CLASS, content, Naming::Labelled, "Class");
        assert(texts(out@) =~= symbols_of(extension@, content@));
    } else if is_word(e, "js") || is_word(e, "ts") || is_word(e, "jsx") || is_word(e, "tsx") {
        add_symbols(&mut out, SCRIPT_FUNCTION, content, Naming::EitherGroup, "Function");
        add_symbols(&mut out, CLASS, content, Naming::Labelled, "Class");
        add_symbols(&mut out, SCRIPT_VARIABLE, content, Naming::Labelled, "Variable");
        assert(texts(out@) =~= symbols_of(extension@, content@));
    }
    out
}

/// What is reported once a code base has been indexed.
pub fn index_report(files: usize, symbols: usize) -> (r: String)
    ensures
        r@ == "Indexed "@ + decimal(files as nat) + " files and found "@ + decimal(symbols as nat)
            + " symbols. Index saved to .agent_index.json"@,
{
    cat5(
        "Indexed ",
        format_usize(files).as_str(),
        " files and found ",
        format_usize(symbols).as_str(),
        " symbols. Index saved to .agent_index.json",
    )
}

/// What is reported where there is no index to search.
pub fn index_missing() -> (r: &'static str)
    ensures
        r@ == "Index not found. Please run INDEX_CODEBASE first."@,
{
    "Index not found. Please run INDEX_CODEBASE first."
}

/// Whether a symbol holds the query, whatever the case of the letters.
pub open spec fn symbol_matches(symbol: Seq<char>, query: Seq<char>) -> bool {
    occurs_in(lowercase_of(symbol), lowercase_of(query))
}

/// The line that reports a symbol found in a file.
pub open spec fn hit_line(symbol: Seq<char>, file: Seq<char>) -> Seq<char> {
    symbol + " -> "@ + file
}

/// The lines that report, among symbols that come with their form in small
/// letters, those whose small form holds `needle`.
pub open spec fn hits_among(
    file: Seq<char>,
    symbols: Seq<(Seq<char>, Seq<char>)>,
    needle: Seq<char>,
) -> Seq<Seq<char>> {
    symbols.filter(|p: (Seq<char>, Seq<char>)| occurs_in(p.1, needle)).map_values(
        |p: (Seq<char>, Seq<char>)| hit_line(p.0, file),
    )
}

/// The lines that report the symbols of one file that hold the query,
/// whatever the case of the letters.
pub open spec fn hits_in(file: Seq<char>, symbols: Seq<Seq<char>>, query: Seq<char>) -> Seq<
    Seq<char>,
> {
    hits_among(file, with_lowercase(symbols), lowercase_of(query))
}

/// The lines that report, among symbols that come with their form in small
/// letters, those whose small form holds `needle`.
pub fn select_hits(file: &str, symbols: &Vec<(String, String)>, needle: &str) -> (r: Vec<String>)
    ensures
        texts(r@) == hits_among(file@, pairs(symbols@), needle@),
{
    let word = to_chars(needle);
    let ghost all = pairs(symbols@);
    let ghost keep = |p: (Seq<char>, Seq<char>)| occurs_in(p.1, needle@);
    let ghost line = |p: (Seq<char>, Seq<char>)| hit_line(p.0, file@);
    let mut out: Vec<String> = Vec::new();
    let mut i: usize = 0;
    assert(all.take(0) =~= Seq::<(Seq<char>, Seq<char>)>::empty());
    assert(texts(out@) =~= all.take(0).filter(keep).map_values(line));
    while i < symbols.len()
        invariant
            i <= symbols.len(),
            all == pairs(symbols@),
            word@ == needle@,
            keep == (|p: (Seq<char>, Seq<char>)| occurs_in(p.1, needle@)),
            line == (|p: (Seq<char>, Seq<char>)| hit_line(p.0, file@)),
            texts(out@) == all.take(i as int).filter(keep).map_values(line),
        decreases symbols.len() - i,
    {
        let ghost before = out@;
        proof {
            let next = all.take(i + 1);
            assert(next.drop_last() =~= all.take(i as int));
            assert(next.last() == (symbols@[i as int].0@, symbols@[i as int].1@));
            reveal(Seq::filter);
        }
        let lower = to_chars(symbols[i].1.as_str());
        if contains(lower.as_slice(), word.as_slice()) {
            let hit = cat3(symbols[i].0.as_str(), " -> ", file);
            out.push(hit);
            assert(texts(out@) =~= texts(before).push(hit@));
            assert(texts(out@) =~= all.take(i + 1).filter(keep).map_values(line));
        } else {
            assert(texts(out@) =~= all.take(i + 1).filter(keep).map_values(line));
        }
        i += 1;
    }
    assert(all.take(symbols.len() as int) =~= all);
    out
}

/// The lines that report the symbols of one file that hold the query.
pub fn file_hits(file: &str, symbols: &Vec<String>, query: &str) -> (r: Vec<String>)
    ensures
        texts(r@) == hits_in(file@, texts(symbols@), query@),
{
    let needle = query.to_lowercase();
    let lowered = lowercase_each(symbols);
    select_hits(file, &lowered, needle.as_str())
}

/// The report of a search in the index. `hits` are the lines of all files.
/// They are reported in the order of a dictionary.
pub fn index_search_report(query: &str, hits: Vec<String>) -> (r: String)
    ensures
        hits@.len() == 0 ==> r@ == "No symbols found matching '"@ + query@ + "'"@,
        hits@.len() > 0 ==> exists|sorted: Seq<Seq<char>>|
            sorted.to_multiset() == texts(hits@).to_multiset() && ordered(sorted) && r@
                == "Found "@ + decimal(hits@.len()) + " matches for '"@ + query@ + "':\n"@
                + joined(sorted, "\n"@),
{
    if hits.len() == 0 {
        cat3("No symbols found matching '", query, "'")
    } else {
        let n = hits.len();
        let sorted = sort_lines(hits);
        cat6(
            "Found ",
            format_usize(n).as_str(),
            " matches for '",
            query,
            "':\n",
            join(&sorted, "\n").as_str(),
        )
    }
}


/// The files of an index with their symbols.
pub open spec fn index_view(index: Seq<(String, Vec<String>)>) -> Seq<(Seq<char>, Seq<Seq<char>>)> {
    index.map_values(|e: (String, Vec<String>)| (e.0@, texts(e.1@)))
}

/// The texts of an array of strings.
pub open spec fn strings_of(v: JsonValue) -> Option<Seq<Seq<char>>> {
    match v.items() {
        Some(items) => if forall|i: int| 0 <= i < items.len() ==> (#[trigger] items[i]).text()
            is Some {
            Some(items.map_values(|x: JsonValue| x.text()->0))
        } else {
            None
        },
        None => None,
    }
}

/// The entries of an index document: an object in which every member is an
/// array of strings, the symbols of the file that the member is named
/// after.
pub open spec fn index_entries(doc: JsonValue) -> Option<Seq<(Seq<char>, Seq<Seq<char>>)>> {
    match doc {
        JsonValue::Object(entries) => if forall|i: int|
            0 <= i < entries@.len() ==> strings_of((#[trigger] entries@[i]).1) is Some {
            Some(
                entries@.map_values(
                    |e: (String, JsonValue)| (e.0@, strings_of(e.1)->0),
                ),
            )
        } else {
            None
        },
        _ => None,
    }
}

/// The index that a text holds. A text that is no index document holds the
/// empty index.
pub open spec fn index_in(content: Seq<char>) -> Seq<(Seq<char>, Seq<Seq<char>>)> {
    match json_document(content) {
        Some(doc) => index_of_document(doc),
        None => Seq::empty(),
    }
}

fn read_strings(v: &JsonValue) -> (r: Option<Vec<String>>)
    ensures
        match r {
            Some(list) => strings_of(*v) == Some(texts(list@)),
            None => strings_of(*v) is None,
        },
{
    let items = v.as_array()?;
    let mut out: Vec<String> = Vec::new();
    let mut i: usize = 0;
    while i < items.len()
        invariant
            i <= items.len(),
            v.items() == Some(items@),
            out.len() == i,
            forall|j: int| 0 <= j < i ==> (#[trigger] items@[j]).text() == Some(out@[j]@),
        decreases items.len() - i,
    {
        match items[i].as_str() {
            Some(s) => {
                out.push(String::from_str(s));
            },
            None => {
                return None;
            },
        }
        i += 1;
    }
    assert(texts(out@) =~= items@.map_values(|x: JsonValue| x.text()->0));
    Some(out)
}

/// The index that a document holds; the empty index where the document is
/// no index document.
pub open spec fn index_of_document(doc: JsonValue) -> Seq<(Seq<char>, Seq<Seq<char>>)> {
    match index_entries(doc) {
        Some(entries) => entries,
        None => Seq::empty(),
    }
}

/// Reads the index that a document holds.
pub fn index_from_document(doc: &JsonValue) -> (r: Vec<(String, Vec<String>)>)
    ensures
        index_view(r@) == index_of_document(*doc),
{
    match doc {
        JsonValue::Object(entries) => {
            let mut out: Vec<(String, Vec<String>)> = Vec::new();
            let mut i: usize = 0;
            while i < entries.len()
                invariant
                    i <= entries.len(),
                    out.len() == i,
                    *doc == JsonValue::Object(*entries),
                    forall|j: int|
                        0 <= j < i ==> strings_of((#[trigger] entries@[j]).1) == Some(
                            texts(out@[j].1@),
                        ) && out@[j].0@ == entries@[j].0@,
                decreases entries.len() - i,
            {
                match read_strings(&entries[i].1) {
                    Some(symbols) => {
                        out.push((entries[i].0.clone(), symbols));
                    },
                    None => {
                        let empty: Vec<(String, Vec<String>)> = Vec::new();
                        assert(index_view(empty@) =~= Seq::empty());
                        return empty;
                    },
                }
                i += 1;
            }
            assert(index_view(out@) =~= entries@.map_values(
                |e: (String, JsonValue)| (e.0@, strings_of(e.1)->0),
            ));
            out
        },
        _ => {
            let empty: Vec<(String, Vec<String>)> = Vec::new();
            assert(index_view(empty@) =~= Seq::empty());
            empty
        },
    }
}

/// Reads the index that a text holds.
pub fn read_index(content: &str) -> (r: Vec<(String, Vec<String>)>)
    ensures
        index_view(r@) == index_in(content@),
{
    match JsonValue::parse(content) {
        Some(doc) => index_from_document(&doc),
        None => {
            let empty: Vec<(String, Vec<String>)> = Vec::new();
            assert(index_view(empty@) =~= Seq::empty());
            empty
        },
    }
}

/// The lines that report the symbols of an index that hold the query, file
/// by file.
pub open spec fn hits_of(index: Seq<(Seq<char>, Seq<Seq<char>>)>, query: Seq<char>) -> Seq<
    Seq<char>,
>
    decreases index.len(),
{
    if index.len() == 0 {
        Seq::empty()
    } else {
        hits_of(index.drop_last(), query) + hits_in(index.last().0, index.last().1, query)
    }
}

/// The lines that report the symbols of an index that hold the query.
pub fn index_hits(index: &Vec<(String, Vec<String>)>, query: &str) -> (r: Vec<String>)
    ensures
        texts(r@) == hits_of(index_view(index@), query@),
{
    let ghost all = index_view(index@);
    let mut out: Vec<String> = Vec::new();
    let mut i: usize = 0;
    assert(all.take(0) =~= Seq::empty());
    assert(texts(out@) =~= Seq::<Seq<char>>::empty());
    while i < index.len()
        invariant
            i <= index.len(),
            all == index_view(index@),
            texts(out@) == hits_of(all.take(i as int), query@),
        decreases index.len() - i,
    {
        proof {
            let next = all.take(i + 1);
            assert(next.drop_last() =~= all.take(i as int));
            assert(next.last() == (index@[i as int].0@, texts(index@[i as int].1@)));
        }
        let mut hits = file_hits(index[i].0.as_str(), &index[i].1, query);
        let ghost before = out@;
        let ghost added = hits@;
        out.append(&mut hits);
        assert(texts(out@) =~= texts(before) + texts(added));
        i += 1;
    }
    assert(all.take(index.len() as int) =~= all);
    out
}

/// The number of symbols in an index, up to the limit of the counter.
pub open spec fn symbol_count(index: Seq<(Seq<char>, Seq<Seq<char>>)>) -> nat
    decreases index.len(),
{
    if index.len() == 0 {
        0
    } else {
        symbol_count(index.drop_last()) + index.last().1.len()
    }
}

/// The number of symbols in an index; the limit of the counter where there
/// are more.
pub fn count_symbols(index: &Vec<(String, Vec<String>)>) -> (r: usize)
    ensures
        r == if symbol_count(index_view(index@)) <= usize::MAX {
            symbol_count(index_view(index@))
        } else {
            usize::MAX as nat
        },
{
    let ghost all = index_view(index@);
    let mut total: usize = 0;
    let mut i: usize = 0;
    assert(all.take(0) =~= Seq::empty());
    while i < index.len()
        invariant
            i <= index.len(),
            all == index_view(index@),
            total == if symbol_count(all.take(i as int)) <= usize::MAX {
                symbol_count(all.take(i as int))
            } else {
                usize::MAX as nat
            },
        decreases index.len() - i,
    {
        proof {
            let next = all.take(i + 1);
            assert(next.drop_last() =~= all.take(i as int));
            assert(next.last().1.len() == index@[i as int].1@.len());
        }
        total = total.saturating_add(index[i].1.len());
        i += 1;
    }
    assert(all.take(index.len() as int) =~= all);
    total
}


/// Whether a directory is left out of the index: one whose name begins with
/// a full stop is.
pub fn is_hidden(name: &str) -> (r: bool)
    ensures
        r == (name@.len() > 0 && name@[0] == '.'),
{
    let chars = to_chars(name);
    chars.len() > 0 && chars[0] == '.'
}

/// What a file gives to the index: its path with its symbols, or nothing
/// where it has no symbols.
pub open spec fn entry_of_file(
    path: Seq<char>,
    extension: Seq<char>,
    content: Seq<char>,
) -> Option<(Seq<char>, Seq<Seq<char>>)> {
    if symbols_of(extension, content).len() > 0 {
        Some((path, symbols_of(extension, content)))
    } else {
        None
    }
}

/// View of an optional entry of the index.
pub open spec fn opt_entry(e: Option<(String, Vec<String>)>) -> Option<
    (Seq<char>, Seq<Seq<char>>),
> {
    match e {
        Some(entry) => Some((entry.0@, texts(entry.1@))),
        None => None,
    }
}

/// What a file gives to the index.
pub fn index_entry(path: &str, extension: &str, content: &str) -> (r: Option<
    (String, Vec<String>),
>)
    ensures
        opt_entry(r) == entry_of_file(path@, extension@, content@),
{
    let symbols = symbols_in(extension, content);
    assert(texts(symbols@).len() == symbols@.len());
    if symbols.len() > 0 {
        Some((String::from_str(path), symbols))
    } else {
        None
    }
}

} // verus!
