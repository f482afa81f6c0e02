use rust_tui_coder::edit::replace_all;
use rust_tui_coder::order::{comes_first, sort_lines};
use rust_tui_coder::text::{
    contains, decimal_chars, eq_ignore_ascii_case, find, format_u64, format_usize, from_chars,
    is_word, join, parse_usize, rfind, same, split, split_words, starts_with, to_chars,
    trim_end_matches, whitespace,
};

const SAMPLES: [&str; 14] = [
    "",
    " ",
    "a",
    "hello world",
    "  two  spaces  ",
    "tabs\tand\nlines\r\n",
    "caf\u{e9} \u{4e16}\u{754c} \u{1f30d}",
    "\u{a0}nbsp\u{2003}em\u{3000}",
    "a,b,,c,",
    ",",
    "\"quoted\" \"parts\"",
    "trailing///",
    "///",
    "MiXeD CaSe 123",
];

#[test]
fn chars_round_trip() {
    for s in SAMPLES.iter() {
        let chars = to_chars(s);
        assert_eq!(chars, s.chars().collect::<Vec<char>>());
        assert_eq!(from_chars(&chars), *s);
    }
}

#[test]
fn whitespace_agrees_with_std() {
    for code in 0u32..0x3100 {
        if let Some(c) = char::from_u32(code) {
            assert_eq!(whitespace(c), c.is_whitespace(), "for U+{:04X}", code);
        }
    }
    assert!(!whitespace('\u{feff}'));
    assert!(!whitespace('\u{1f30d}'));
}

#[test]
fn find_and_rfind_agree_with_std() {
    for s in SAMPLES.iter() {
        let chars = to_chars(s);
        for c in [' ', ',', '/', 'a', '"', '\n'] {
            let first = s.chars().position(|x| x == c);
            let last = s.chars().collect::<Vec<char>>().iter().rposition(|x| *x == c);
            assert_eq!(find(&chars, c), first, "find {:?} in {:?}", c, s);
            assert_eq!(rfind(&chars, c), last, "rfind {:?} in {:?}", c, s);
        }
    }
}

#[test]
fn split_agrees_with_std() {
    for s in SAMPLES.iter() {
        let chars = to_chars(s);
        for c in [' ', ',', '/', '"'] {
            let mine: Vec<String> = split(&chars, c).iter().map(|p| from_chars(p)).collect();
            let theirs: Vec<String> = s.split(c).map(|p| p.to_string()).collect();
            assert_eq!(mine, theirs, "split {:?} at {:?}", s, c);
        }
    }
}

#[test]
fn words_agree_with_std() {
    for s in SAMPLES.iter() {
        let chars = to_chars(s);
        let mine: Vec<String> = split_words(&chars).iter().map(|p| from_chars(p)).collect();
        let theirs: Vec<String> = s.split_whitespace().map(|p| p.to_string()).collect();
        assert_eq!(mine, theirs, "words of {:?}", s);
    }
}

#[test]
fn prefix_and_substring_agree_with_std() {
    let needles = ["", "a", "ll", "world", "  ", "///", "\u{4e16}\u{754c}", "zzz"];
    for s in SAMPLES.iter() {
        let chars = to_chars(s);
        for n in needles.iter() {
            let needle = to_chars(n);
            assert_eq!(starts_with(&chars, &needle), s.starts_with(n), "{:?} starts with {:?}", s, n);
            assert_eq!(contains(&chars, &needle), s.contains(n), "{:?} contains {:?}", s, n);
        }
        assert!(same(&chars, &chars));
        assert!(is_word(&chars, s));
    }
    assert!(!same(&to_chars("ab"), &to_chars("ac")));
    assert!(!same(&to_chars("ab"), &to_chars("abc")));
    assert!(!is_word(&to_chars("ab"), "AB"));
}

#[test]
fn numbers_are_written_in_decimal() {
    for n in [0u64, 1, 9, 10, 11, 99, 100, 101, 12345, 1_000_000, u64::MAX] {
        assert_eq!(format_u64(n), n.to_string());
        assert_eq!(from_chars(&decimal_chars(n)), n.to_string());
    }
    assert_eq!(format_usize(usize::MAX), usize::MAX.to_string());
    assert_eq!(format_usize(42), "42");
}

#[test]
fn numbers_are_read_as_std_reads_them() {
    let max = usize::MAX.to_string();
    let over = format!("{}0", max);
    let cases = [
        "", "0", "7", "007", "+5", "+", "-", "-5", "--5", "+-5", "12a", "a12", " 12", "12 ", "1 2",
        "18446744073709551615", "18446744073709551616", "99999999999999999999999", "\u{661}\u{662}",
        "1_000", "0x10", "+0", max.as_str(), over.as_str(),
    ];
    for s in cases.iter() {
        assert_eq!(parse_usize(&to_chars(s)), s.parse::<usize>().ok(), "for {:?}", s);
    }
}

#[test]
fn case_and_suffixes() {
    let pairs = [
        ("AUTODETECT", "autodetect"),
        ("AutoDetect", "AUTODETECT"),
        ("", ""),
        ("a", "b"),
        ("abc", "ab"),
        ("\u{e9}", "\u{c9}"),
        ("k", "\u{212a}"),
        ("[", "{"),
        ("@", "`"),
    ];
    for (a, b) in pairs.iter() {
        assert_eq!(
            eq_ignore_ascii_case(&to_chars(a), &to_chars(b)),
            a.eq_ignore_ascii_case(b),
            "{:?} vs {:?}",
            a,
            b
        );
    }
    for s in SAMPLES.iter() {
        let chars = to_chars(s);
        assert_eq!(from_chars(trim_end_matches(&chars, '/')), s.trim_end_matches('/'));
        assert_eq!(from_chars(trim_end_matches(&chars, ' ')), s.trim_end_matches(' '));
    }
}

#[test]
fn joining_agrees_with_std() {
    let lists: Vec<Vec<String>> = vec![
        vec![],
        vec!["a".to_string()],
        vec!["a".to_string(), "b".to_string()],
        vec!["".to_string(), "".to_string(), "x".to_string()],
    ];
    for list in lists.iter() {
        assert_eq!(join(list, "\n"), list.join("\n"));
        assert_eq!(join(list, ", "), list.join(", "));
        assert_eq!(join(list, ""), list.join(""));
    }
}

#[test]
fn replacing_agrees_with_std() {
    let cases = [
        ("foo bar foo baz foo", "foo", "FOO"),
        ("Hello World! World is great.", "World", "Rust"),
        ("aaaa", "aa", "b"),
        ("aaa", "aa", "b"),
        ("abc", "", "-"),
        ("", "", "-"),
        ("", "a", "b"),
        ("abc", "abcd", "x"),
        ("Price: $100.00", "$100.00", "$150.00"),
        ("- [ ] Step 1: a - [ ] b", "- [ ]", "- [x]"),
        ("xyz", "y", ""),
        ("\u{4e16}\u{754c}\u{4e16}", "\u{4e16}", "w"),
    ];
    for (s, from, to) in cases.iter() {
        let got = replace_all(&to_chars(s), &to_chars(from), &to_chars(to));
        assert_eq!(from_chars(&got), s.replace(from, to), "replace {:?} in {:?}", from, s);
    }
}

#[test]
fn sorting_agrees_with_std() {
    let lists: Vec<Vec<&str>> = vec![
        vec![],
        vec!["b", "a"],
        vec!["[FILE] b.txt", "[DIR] z", "[FILE] a.txt", "[DIR] a"],
        vec!["same", "same", "Same", "sam", "samee", ""],
        vec!["\u{e9}", "e", "z", "\u{1f30d}", "\u{4e16}"],
    ];
    for list in lists.iter() {
        let owned: Vec<String> = list.iter().map(|s| s.to_string()).collect();
        let mut expected = owned.clone();
        expected.sort();
        assert_eq!(sort_lines(owned), expected);
    }
    assert!(comes_first(&to_chars("a"), &to_chars("ab")));
    assert!(!comes_first(&to_chars("ab"), &to_chars("a")));
    assert!(comes_first(&to_chars("x"), &to_chars("x")));
    assert!(comes_first(&to_chars(""), &to_chars("")));
}
