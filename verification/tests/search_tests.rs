use rust_tui_coder::json::JsonValue;
use rust_tui_coder::search::{
    chosen_target, index_entry, index_from_document, is_hidden, is_supported_lowercase,
    marked_target, name_symbol, provider_notice, result_lines, select_hits,
    symbols_from_matches, Naming, clean_link, count_symbols, file_hits, find_text, index_hits, index_missing, index_report,
    index_search_report, is_supported_provider, page_report, provider_unsupported, read_index,
    search_report, search_results, search_url, symbols_in,
};
use rust_tui_coder::text::to_chars;

#[test]
fn search_address_is_percent_encoded() {
    assert_eq!(search_url("rust"), "https://html.duckduckgo.com/html/?q=rust");
    assert_eq!(
        search_url("rust verus & proofs?"),
        "https://html.duckduckgo.com/html/?q=rust%20verus%20%26%20proofs%3F"
    );
    assert_eq!(search_url("a-b_c.d~e/"), "https://html.duckduckgo.com/html/?q=a-b_c.d~e%2F");
    assert_eq!(search_url("caf\u{e9}"), "https://html.duckduckgo.com/html/?q=caf%C3%A9");
    assert_eq!(search_url(""), "https://html.duckduckgo.com/html/?q=");
}

#[test]
fn providers() {
    assert!(is_supported_provider("duckduckgo"));
    assert!(is_supported_provider("DuckDuckGo"));
    assert!(!is_supported_provider(""));
    assert!(!is_supported_provider("google"));
    assert_eq!(
        provider_unsupported("Google"),
        "Provider 'google' not yet implemented. Please use 'duckduckgo'."
    );
}

#[test]
fn links_are_cleaned() {
    assert_eq!(
        clean_link("//duckduckgo.com/l/?kh=-1&uddg=https%3A%2F%2Fwww.rust-lang.org%2Flearn"),
        "https://www.rust-lang.org/learn"
    );
    assert_eq!(clean_link("https://example.com/a%20b"), "https://example.com/a%20b");
    assert_eq!(clean_link("x?uddg="), "");
    assert_eq!(clean_link("x?uddg=%zz"), "%zz");
    assert_eq!(clean_link("x?uddg=%ff"), "x?uddg=%ff");
    assert_eq!(clean_link("a uddg=b uddg=c%21"), "b uddg=c!");
    assert_eq!(find_text(&to_chars("a uddg=b"), &to_chars("uddg=")), Some(2));
    assert_eq!(find_text(&to_chars("abc"), &to_chars("")), Some(0));
    assert_eq!(find_text(&to_chars("abc"), &to_chars("abcd")), None);
    assert_eq!(find_text(&to_chars("aab"), &to_chars("ab")), Some(1));
}

fn result(link: &str, title: &str) -> String {
    format!("<div><a rel=\"nofollow\" class=\"result__a\" href=\"{}\">{}</a></div>\n", link, title)
}

#[test]
fn results_are_found_in_a_page() {
    let mut page = String::from("<html><body>");
    for i in 0..7 {
        page.push_str(&result(&format!("//duckduckgo.com/l/?uddg=https%3A%2F%2Fsite{}.org%2F&rut=x", i), &format!("Site {}", i)));
    }
    page.push_str("</body></html>");
    let lines = search_results(&page);
    assert_eq!(
        lines,
        vec![
            "- [Site 0](https://site0.org/&rut=x)",
            "- [Site 1](https://site1.org/&rut=x)",
            "- [Site 2](https://site2.org/&rut=x)",
            "- [Site 3](https://site3.org/&rut=x)",
            "- [Site 4](https://site4.org/&rut=x)",
        ]
    );
    assert_eq!(
        search_results(&result("https://plain.example/", "Plain")),
        vec!["- [Plain](https://plain.example/)"]
    );
    assert!(search_results("<html>nothing here</html>").is_empty());
    assert!(search_results("").is_empty());
}

#[test]
fn search_is_reported() {
    let lines = vec!["- [A](a)".to_string(), "- [B](b)".to_string()];
    assert_eq!(search_report("q", &lines, "ignored"), "Search results for 'q':\n\n- [A](a)\n- [B](b)");
    assert_eq!(search_report("q", &vec![], "short page"), "Search results for 'q' (raw text):\n\nshort page");
    let long = "\u{e9}".repeat(1500);
    let report = search_report("q", &vec![], &long);
    assert_eq!(report.chars().count(), "Search results for 'q' (raw text):\n\n".chars().count() + 1000);
    assert_eq!(page_report("http://x", "text"), "Content of http://x:\n\ntext");
}

#[test]
fn symbols_of_rust_files() {
    let code = "pub fn alpha() {}\nstruct Beta;\nenum Gamma {}\ntrait Delta { fn   epsilon(&self); }\n";
    assert_eq!(
        symbols_in("rs", code),
        vec!["Function: alpha", "Function: epsilon", "struct: Beta", "enum: Gamma", "trait: Delta"]
    );
    assert!(symbols_in("rs", "let x = 1;").is_empty());
}

#[test]
fn symbols_of_python_files() {
    let code = "class Dog:\n    def bark(self):\n        pass\ndef main():\n    pass\n";
    assert_eq!(symbols_in("py", code), vec!["Function: bark", "Function: main", "Class: Dog"]);
}

#[test]
fn symbols_of_script_files() {
    let code = "function start() {}\nconst stop = function () {}\nclass App {}\nlet count = 0;\nvar x=1\n";
    let expected = vec![
        "Function: start",
        "Function: stop",
        "Class: App",
        "Variable: stop",
        "Variable: count",
        "Variable: x",
    ];
    for ext in ["js", "ts", "jsx", "tsx"] {
        assert_eq!(symbols_in(ext, code), expected, "for {}", ext);
    }
    assert!(symbols_in("txt", code).is_empty());
    assert!(symbols_in("", code).is_empty());
    assert!(symbols_in("RS", "fn a() {}").is_empty());
}

#[test]
fn index_is_read_and_searched() {
    let text = "{\n  \"src/b.rs\": [\"Function: parse\", \"struct: Parser\"],\n  \"src/a.py\": [\"Class: Parsley\", \"Function: main\"]\n}";
    let index = read_index(text);
    assert_eq!(index.len(), 2);
    assert_eq!(count_symbols(&index), 4);
    let hits = index_hits(&index, "PARS");
    let mut sorted = hits.clone();
    sorted.sort();
    assert_eq!(
        sorted,
        vec!["Class: Parsley -> src/a.py", "Function: parse -> src/b.rs", "struct: Parser -> src/b.rs"]
    );
    assert_eq!(
        index_search_report("PARS", hits),
        "Found 3 matches for 'PARS':\nClass: Parsley -> src/a.py\nFunction: parse -> src/b.rs\nstruct: Parser -> src/b.rs"
    );
    assert_eq!(index_search_report("zzz", index_hits(&index, "zzz")), "No symbols found matching 'zzz'");
    assert_eq!(
        file_hits("f.rs", &vec!["Function: Alpha".to_string(), "Function: beta".to_string()], "ALPHA"),
        vec!["Function: Alpha -> f.rs"]
    );
}

#[test]
fn text_that_is_no_index_holds_nothing() {
    assert!(read_index("").is_empty());
    assert!(read_index("[]").is_empty());
    assert!(read_index("{\"a\": \"b\"}").is_empty());
    assert!(read_index("{\"a\": [\"x\"], \"b\": [1]}").is_empty());
    assert!(read_index("{}").is_empty());
    assert_eq!(count_symbols(&vec![]), 0);
    assert_eq!(index_missing(), "Index not found. Please run INDEX_CODEBASE first.");
    assert_eq!(
        index_report(3, 17),
        "Indexed 3 files and found 17 symbols. Index saved to .agent_index.json"
    );
}

fn groups(list: &[Option<&str>]) -> Vec<Option<String>> {
    list.iter().map(|g| g.map(|s| s.to_string())).collect()
}

#[test]
fn result_lines_from_matches() {
    let found = vec![
        groups(&[Some("whole"), Some("x?uddg=a%20b"), Some("Title A")]),
        groups(&[Some("whole"), None, Some("No link")]),
        groups(&[Some("whole"), Some("https://b.example/")]),
        groups(&[Some("whole"), Some("https://c.example/"), Some("Title C")]),
        groups(&[Some("w"), Some("l4"), Some("t4")]),
        groups(&[Some("w"), Some("l5"), Some("t5")]),
        groups(&[Some("w"), Some("l6"), Some("t6")]),
    ];
    assert_eq!(
        result_lines(&found),
        vec!["- [Title A](a b)", "- [Title C](https://c.example/)", "- [t4](l4)"]
    );
    assert!(result_lines(&vec![]).is_empty());
    assert_eq!(marked_target("x?uddg=a%20b"), Some("a%20b".to_string()));
    assert_eq!(marked_target("x?uddg="), Some("".to_string()));
    assert_eq!(marked_target("plain"), None);
    assert_eq!(chosen_target("link", Some("target".to_string())), "target");
    assert_eq!(chosen_target("link", None), "link");
}

#[test]
fn symbols_from_groups() {
    assert_eq!(
        name_symbol(&groups(&[Some("fn a"), Some("a")]), Naming::Labelled, "Function"),
        Some("Function: a".to_string())
    );
    assert_eq!(name_symbol(&groups(&[Some("fn a"), None]), Naming::Labelled, "Function"), None);
    assert_eq!(name_symbol(&groups(&[Some("fn a")]), Naming::Labelled, "Function"), None);
    assert_eq!(
        name_symbol(&groups(&[Some("w"), Some("struct"), Some("S")]), Naming::KindAndName, ""),
        Some("struct: S".to_string())
    );
    assert_eq!(name_symbol(&groups(&[Some("w"), Some("struct"), None]), Naming::KindAndName, ""), None);
    assert_eq!(
        name_symbol(&groups(&[Some("w"), None, Some("b")]), Naming::EitherGroup, "Function"),
        Some("Function: b".to_string())
    );
    assert_eq!(
        name_symbol(&groups(&[Some("w"), Some("a"), Some("b")]), Naming::EitherGroup, "Function"),
        Some("Function: a".to_string())
    );
    assert_eq!(name_symbol(&groups(&[Some("w"), None, None]), Naming::EitherGroup, "F"), None);
    let mut out = vec!["kept".to_string()];
    let found = vec![groups(&[Some("w"), Some("x")]), groups(&[Some("w"), None]), groups(&[Some("w"), Some("y")])];
    symbols_from_matches(&mut out, &found, Naming::Labelled, "Class");
    assert_eq!(out, vec!["kept", "Class: x", "Class: y"]);
}

#[test]
fn index_decisions() {
    assert!(is_hidden(".git"));
    assert!(is_hidden("."));
    assert!(!is_hidden("src"));
    assert!(!is_hidden(""));
    assert!(!is_hidden("a.b"));
    assert_eq!(
        index_entry("src/a.rs", "rs", "fn main() {}"),
        Some(("src/a.rs".to_string(), vec!["Function: main".to_string()]))
    );
    assert_eq!(index_entry("notes.txt", "txt", "fn main() {}"), None);
    assert_eq!(index_entry("src/empty.rs", "rs", "// nothing"), None);
    assert!(is_supported_lowercase("duckduckgo"));
    assert!(!is_supported_lowercase("DuckDuckGo"));
    assert_eq!(provider_notice("bing"), "Provider 'bing' not yet implemented. Please use 'duckduckgo'.");
    let symbols = vec![
        ("Function: Parse".to_string(), "function: parse".to_string()),
        ("Class: X".to_string(), "class: x".to_string()),
    ];
    assert_eq!(select_hits("f.rs", &symbols, "pars"), vec!["Function: Parse -> f.rs"]);
    assert!(select_hits("f.rs", &symbols, "PARS").is_empty());
    let doc = JsonValue::Object(vec![(
        "a.rs".to_string(),
        JsonValue::Array(vec![JsonValue::Text("Function: a".to_string())]),
    )]);
    assert_eq!(
        index_from_document(&doc),
        vec![("a.rs".to_string(), vec!["Function: a".to_string()])]
    );
    assert!(index_from_document(&JsonValue::Null).is_empty());
    let bad = JsonValue::Object(vec![("a.rs".to_string(), JsonValue::Bool(true))]);
    assert!(index_from_document(&bad).is_empty());
}
