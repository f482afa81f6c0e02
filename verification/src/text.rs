//! Character-sequence toolkit.
//!
//! Text is modelled as `Seq<char>`. The executable functions work on `&[char]`
//! so that scanning is linear; `to_chars` and `from_chars` move between
//! strings and character slices.

use vstd::prelude::*;

verus! {

/// `String::push` of the standard library: appends one character to the end
/// of the string and changes nothing else.
pub assume_specification[ String::push ](s: &mut String, c: char)
    ensures
        final(s)@ == old(s)@.push(c),
;

// ---------------------------------------------------------------------------
// Conversions
// ---------------------------------------------------------------------------

/// The characters of `s`, in order.
pub fn to_chars(s: &str) -> (r: Vec<char>)
    ensures
        r@ == s@,
{
    let mut out: Vec<char> = Vec::new();
    for c in it: s.chars()
        invariant
            out@ == it.seq().take(it.index() as int),
            it.seq() == s@,
    {
        out.push(c);
    }
    out
}

/// The string made of the characters of `s`, in order.
pub fn from_chars(s: &[char]) -> (r: String)
    ensures
        r@ == s@,
{
    let mut out = String::new();
    let mut i: usize = 0;
    while i < s.len()
        invariant
            i <= s.len(),
            out@ == s@.take(i as int),
        decreases s.len() - i,
    {
        out.push(s[i]);
        i += 1;
    }
    assert(s@.take(s.len() as int) == s@);
    out
}

/// Views of a sequence of strings.
pub open spec fn texts(v: Seq<String>) -> Seq<Seq<char>> {
    v.map_values(|s: String| s@)
}

/// View of an optional string.
pub open spec fn opt_text(o: Option<String>) -> Option<Seq<char>> {
    match o {
        Some(s) => Some(s@),
        None => None,
    }
}

/// Views of a sequence of character slices.
pub open spec fn slices(v: Seq<&[char]>) -> Seq<Seq<char>> {
    v.map_values(|s: &[char]| s@)
}

/// Whether two character slices hold the same text.
pub fn same(a: &[char], b: &[char]) -> (r: bool)
    ensures
        r == (a@ == b@),
{
    if a.len() != b.len() {
        return false;
    }
    let mut i: usize = 0;
    while i < a.len()
        invariant
            i <= a.len(),
            a.len() == b.len(),
            forall|j: int| 0 <= j < i ==> a@[j] == b@[j],
        decreases a.len() - i,
    {
        if a[i] != b[i] {
            return false;
        }
        i += 1;
    }
    assert(a@ =~= b@);
    true
}

/// Whether the slice holds exactly the text of `word`.
pub fn is_word(a: &[char], word: &str) -> (r: bool)
    ensures
        r == (a@ == word@),
{
    let w = to_chars(word);
    same(a, w.as_slice())
}

// ---------------------------------------------------------------------------
// Whitespace and trimming
// ---------------------------------------------------------------------------

/// The characters with the Unicode property `White_Space`.
pub open spec fn is_whitespace(c: char) -> bool {
    let n = c as u32;
    ||| 0x09 <= n <= 0x0d
    ||| n == 0x20
    ||| n == 0x85
    ||| n == 0xa0
    ||| n == 0x1680
    ||| 0x2000 <= n <= 0x200a
    ||| n == 0x2028
    ||| n == 0x2029
    ||| n == 0x202f
    ||| n == 0x205f
    ||| n == 0x3000
}

/// Whether `c` has the Unicode property `White_Space`.
pub fn whitespace(c: char) -> (r: bool)
    ensures
        r == is_whitespace(c),
{
    let n: u32 = c as u32;
    (0x09 <= n && n <= 0x0d) || n == 0x20 || n == 0x85 || n == 0xa0 || n == 0x1680 || (0x2000 <= n
        && n <= 0x200a) || n == 0x2028 || n == 0x2029 || n == 0x202f || n == 0x205f || n == 0x3000
}

/// Number of whitespace characters at the front of `s`.
pub open spec fn leading_whitespace(s: Seq<char>) -> nat
    decreases s.len(),
{
    if s.len() > 0 && is_whitespace(s[0]) {
        1 + leading_whitespace(s.drop_first())
    } else {
        0
    }
}

/// Number of whitespace characters at the back of `s`.
pub open spec fn trailing_whitespace(s: Seq<char>) -> nat
    decreases s.len(),
{
    if s.len() > 0 && is_whitespace(s.last()) {
        1 + trailing_whitespace(s.drop_last())
    } else {
        0
    }
}

/// `s` without the whitespace at its front.
pub open spec fn trim_start(s: Seq<char>) -> Seq<char> {
    s.skip(leading_whitespace(s) as int)
}

/// `s` without the whitespace at its back.
pub open spec fn trim_end(s: Seq<char>) -> Seq<char> {
    s.take(s.len() - trailing_whitespace(s))
}

/// `s` without the whitespace at its two ends.
pub open spec fn trimmed(s: Seq<char>) -> Seq<char> {
    trim_end(trim_start(s))
}

/// Whether `s` is empty or holds whitespace only.
pub open spec fn is_blank(s: Seq<char>) -> bool {
    trimmed(s).len() == 0
}

/// A run of whitespace at the front that ends at `n` has length `n`.
pub proof fn lemma_leading_whitespace(s: Seq<char>, n: int)
    requires
        0 <= n <= s.len(),
        forall|j: int| 0 <= j < n ==> is_whitespace(#[trigger] s[j]),
        n < s.len() ==> !is_whitespace(s[n]),
    ensures
        leading_whitespace(s) == n,
    decreases n,
{
    if n > 0 {
        let t = s.drop_first();
        assert forall|j: int| 0 <= j < n - 1 implies is_whitespace(#[trigger] t[j]) by {
            assert(t[j] == s[j + 1]);
        }
        lemma_leading_whitespace(t, n - 1);
    }
}

/// A run of whitespace at the back that begins `n` from the end has length
/// `n`.
pub proof fn lemma_trailing_whitespace(s: Seq<char>, n: int)
    requires
        0 <= n <= s.len(),
        forall|j: int| s.len() - n <= j < s.len() ==> is_whitespace(#[trigger] s[j]),
        n < s.len() ==> !is_whitespace(s[s.len() - n - 1]),
    ensures
        trailing_whitespace(s) == n,
    decreases n,
{
    if n > 0 {
        let t = s.drop_last();
        assert forall|j: int| t.len() - (n - 1) <= j < t.len() implies is_whitespace(
            #[trigger] t[j],
        ) by {
            assert(t[j] == s[j]);
        }
        lemma_trailing_whitespace(t, n - 1);
    }
}

/// What the two counts say of the characters of `s`.
pub proof fn lemma_whitespace_counts(s: Seq<char>)
    ensures
        leading_whitespace(s) <= s.len(),
        trailing_whitespace(s) <= s.len(),
        forall|j: int| 0 <= j < leading_whitespace(s) ==> is_whitespace(#[trigger] s[j]),
        leading_whitespace(s) < s.len() ==> !is_whitespace(s[leading_whitespace(s) as int]),
        forall|j: int|
            s.len() - trailing_whitespace(s) <= j < s.len() ==> is_whitespace(#[trigger] s[j]),
        trailing_whitespace(s) < s.len() ==> !is_whitespace(
            s[s.len() - trailing_whitespace(s) - 1],
        ),
    decreases s.len(),
{
    if s.len() > 0 {
        if is_whitespace(s[0]) {
            let t = s.drop_first();
            lemma_whitespace_counts(t);
            assert forall|j: int| 0 <= j < leading_whitespace(s) implies is_whitespace(
                #[trigger] s[j],
            ) by {
                if j > 0 {
                    assert(s[j] == t[j - 1]);
                }
            }
            if leading_whitespace(s) < s.len() {
                assert(s[leading_whitespace(s) as int] == t[leading_whitespace(t) as int]);
            }
        }
        if is_whitespace(s.last()) {
            let t = s.drop_last();
            lemma_whitespace_counts(t);
            assert forall|j: int|
                s.len() - trailing_whitespace(s) <= j < s.len() implies is_whitespace(
                #[trigger] s[j],
            ) by {
                if j < s.len() - 1 {
                    assert(s[j] == t[j]);
                }
            }
            if trailing_whitespace(s) < s.len() {
                assert(s[s.len() - trailing_whitespace(s) - 1] == t[t.len() - trailing_whitespace(
                    t,
                ) - 1]);
            }
        }
    }
}

/// A text that neither begins nor ends with whitespace is its own trimmed
/// form.
pub proof fn lemma_trimmed_fixed(s: Seq<char>)
    requires
        s.len() > 0 ==> !is_whitespace(s[0]) && !is_whitespace(s.last()),
    ensures
        trimmed(s) == s,
{
    lemma_leading_whitespace(s, 0);
    assert(trim_start(s) =~= s);
    lemma_trailing_whitespace(s, 0);
    assert(trim_end(s) =~= s);
}

/// The slice without the whitespace at its two ends.
pub fn trim(s: &[char]) -> (r: &[char])
    ensures
        r@ == trimmed(s@),
{
    let mut a: usize = 0;
    while a < s.len() && whitespace(s[a])
        invariant
            a <= s.len(),
            forall|j: int| 0 <= j < a ==> is_whitespace(#[trigger] s@[j]),
        decreases s.len() - a,
    {
        a += 1;
    }
    proof {
        lemma_leading_whitespace(s@, a as int);
    }
    let mut b: usize = s.len();
    while b > a && whitespace(s[b - 1])
        invariant
            a <= b <= s.len(),
            forall|j: int| b <= j < s.len() ==> is_whitespace(#[trigger] s@[j]),
        decreases b,
    {
        b -= 1;
    }
    proof {
        let t = trim_start(s@);
        assert(t == s@.skip(a as int));
        assert forall|j: int| t.len() - (s.len() - b) <= j < t.len() implies is_whitespace(
            #[trigger] t[j],
        ) by {
            assert(t[j] == s@[j + a]);
        }
        if s.len() - b < t.len() {
            assert(t[t.len() - (s.len() - b) - 1] == s@[b - 1]);
        }
        lemma_trailing_whitespace(t, s.len() - b);
        assert(s@.subrange(a as int, b as int) =~= trim_end(t));
    }
    &s[a..b]
}

// ---------------------------------------------------------------------------
// Searching
// ---------------------------------------------------------------------------

/// Index of the first `c` in `s`; `s.len()` where there is none.
pub open spec fn position(s: Seq<char>, c: char) -> nat
    decreases s.len(),
{
    if s.len() == 0 || s[0] == c {
        0
    } else {
        1 + position(s.drop_first(), c)
    }
}

/// Number of characters behind the last `c` in `s`; `s.len()` where there is
/// none.
pub open spec fn tail_after_last(s: Seq<char>, c: char) -> nat
    decreases s.len(),
{
    if s.len() == 0 || s.last() == c {
        0
    } else {
        1 + tail_after_last(s.drop_last(), c)
    }
}

/// Where no `c` stands before index `n`, and one stands there or the text
/// ends there, the first `c` is at `n`.
pub proof fn lemma_position(s: Seq<char>, c: char, n: int)
    requires
        0 <= n <= s.len(),
        forall|j: int| 0 <= j < n ==> #[trigger] s[j] != c,
        n < s.len() ==> s[n] == c,
    ensures
        position(s, c) == n,
    decreases n,
{
    if n > 0 {
        let t = s.drop_first();
        assert forall|j: int| 0 <= j < n - 1 implies #[trigger] t[j] != c by {
            assert(t[j] == s[j + 1]);
        }
        lemma_position(t, c, n - 1);
    }
}

/// Where no `c` stands among the last `n` characters, and one stands before
/// them or the text begins there, `n` characters stand behind the last `c`.
pub proof fn lemma_tail_after_last(s: Seq<char>, c: char, n: int)
    requires
        0 <= n <= s.len(),
        forall|j: int| s.len() - n <= j < s.len() ==> #[trigger] s[j] != c,
        n < s.len() ==> s[s.len() - n - 1] == c,
    ensures
        tail_after_last(s, c) == n,
    decreases n,
{
    if n > 0 {
        let t = s.drop_last();
        assert forall|j: int| t.len() - (n - 1) <= j < t.len() implies #[trigger] t[j] != c by {
            assert(t[j] == s[j]);
        }
        lemma_tail_after_last(t, c, n - 1);
    }
}

/// What the position of the first `c` says of the characters of `s`.
pub proof fn lemma_position_bounds(s: Seq<char>, c: char)
    ensures
        position(s, c) <= s.len(),
        forall|j: int| 0 <= j < position(s, c) ==> #[trigger] s[j] != c,
        position(s, c) < s.len() ==> s[position(s, c) as int] == c,
    decreases s.len(),
{
    if s.len() > 0 && s[0] != c {
        let t = s.drop_first();
        lemma_position_bounds(t, c);
        assert forall|j: int| 0 <= j < position(s, c) implies #[trigger] s[j] != c by {
            if j > 0 {
                assert(s[j] == t[j - 1]);
            }
        }
        if position(s, c) < s.len() {
            assert(s[position(s, c) as int] == t[position(t, c) as int]);
        }
    }
}

/// What the number of characters behind the last `c` says of the characters
/// of `s`.
pub proof fn lemma_tail_after_last_bounds(s: Seq<char>, c: char)
    ensures
        tail_after_last(s, c) <= s.len(),
        forall|j: int| s.len() - tail_after_last(s, c) <= j < s.len() ==> #[trigger] s[j] != c,
        tail_after_last(s, c) < s.len() ==> s[s.len() - tail_after_last(s, c) - 1] == c,
    decreases s.len(),
{
    if s.len() > 0 && s.last() != c {
        let t = s.drop_last();
        lemma_tail_after_last_bounds(t, c);
        assert forall|j: int|
            s.len() - tail_after_last(s, c) <= j < s.len() implies #[trigger] s[j] != c by {
            if j < s.len() - 1 {
                assert(s[j] == t[j]);
            }
        }
        if tail_after_last(s, c) < s.len() {
            assert(s[s.len() - tail_after_last(s, c) - 1] == t[t.len() - tail_after_last(t, c)
                - 1]);
        }
    }
}

/// Index of the first `c` in the slice.
pub fn find(s: &[char], c: char) -> (r: Option<usize>)
    ensures
        match r {
            Some(i) => i < s@.len() && i == position(s@, c),
            None => position(s@, c) == s@.len(),
        },
{
    let mut i: usize = 0;
    while i < s.len()
        invariant
            i <= s.len(),
            forall|j: int| 0 <= j < i ==> #[trigger] s@[j] != c,
        decreases s.len() - i,
    {
        if s[i] == c {
            proof {
                lemma_position(s@, c, i as int);
            }
            return Some(i);
        }
        i += 1;
    }
    proof {
        lemma_position(s@, c, i as int);
    }
    None
}

/// Index of the last `c` in the slice.
pub fn rfind(s: &[char], c: char) -> (r: Option<usize>)
    ensures
        match r {
            Some(i) => i < s@.len() && i == s@.len() - tail_after_last(s@, c) - 1,
            None => tail_after_last(s@, c) == s@.len(),
        },
{
    let mut i: usize = s.len();
    while i > 0
        invariant
            i <= s.len(),
            forall|j: int| i <= j < s.len() ==> #[trigger] s@[j] != c,
        decreases i,
    {
        if s[i - 1] == c {
            proof {
                lemma_tail_after_last(s@, c, s.len() - i);
            }
            return Some(i - 1);
        }
        i -= 1;
    }
    proof {
        lemma_tail_after_last(s@, c, s.len() as int);
    }
    None
}

/// Whether `s` begins with `prefix`.
pub open spec fn has_prefix(s: Seq<char>, prefix: Seq<char>) -> bool {
    prefix.len() <= s.len() && s.take(prefix.len() as int) == prefix
}

/// Whether the slice begins with `prefix`.
pub fn starts_with(s: &[char], prefix: &[char]) -> (r: bool)
    ensures
        r == has_prefix(s@, prefix@),
{
    if prefix.len() > s.len() {
        return false;
    }
    same(&s[0..prefix.len()], prefix)
}

/// Whether `needle` stands in `s` at index `i`.
pub open spec fn occurs_at(s: Seq<char>, needle: Seq<char>, i: int) -> bool {
    0 <= i && i + needle.len() <= s.len() && s.subrange(i, i + needle.len()) == needle
}

/// Whether `needle` stands somewhere in `s`.
pub open spec fn occurs_in(s: Seq<char>, needle: Seq<char>) -> bool {
    exists|i: int| occurs_at(s, needle, i)
}

/// Whether `needle` stands somewhere in the slice.
pub fn contains(s: &[char], needle: &[char]) -> (r: bool)
    ensures
        r == occurs_in(s@, needle@),
{
    if needle.len() > s.len() {
        assert(forall|i: int| !occurs_at(s@, needle@, i));
        return false;
    }
    let last: usize = s.len() - needle.len();
    let mut i: usize = 0;
    loop
        invariant
            i <= last,
            last == s.len() - needle.len(),
            forall|j: int| 0 <= j < i ==> !occurs_at(s@, needle@, j),
        decreases last - i,
    {
        if same(&s[i..i + needle.len()], needle) {
            assert(occurs_at(s@, needle@, i as int));
            return true;
        }
        if i == last {
            assert(forall|j: int| !occurs_at(s@, needle@, j));
            return false;
        }
        i += 1;
    }
}

// ---------------------------------------------------------------------------
// Lines
// ---------------------------------------------------------------------------

/// `l` without one carriage return at its end.
pub open spec fn without_cr(l: Seq<char>) -> Seq<char> {
    if l.len() > 0 && l.last() == '\r' {
        l.drop_last()
    } else {
        l
    }
}

/// The lines of `s`: the pieces between line feeds, each without the carriage
/// return that stood before its line feed. A last piece that no line feed
/// ends is a line of its own, unless it is empty.
pub open spec fn lines_of(s: Seq<char>) -> Seq<Seq<char>>
    decreases s.len(),
{
    if s.len() == 0 {
        Seq::empty()
    } else {
        let n = position(s, '\n');
        if n < s.len() {
            seq![without_cr(s.take(n as int))] + lines_of(s.skip(n + 1 as int))
        } else {
            seq![s]
        }
    }
}

/// The lines of the slice.
pub fn split_lines(s: &[char]) -> (r: Vec<&[char]>)
    ensures
        slices(r@) == lines_of(s@),
{
    let mut out: Vec<&[char]> = Vec::new();
    let mut start: usize = 0;
    assert(slices(out@) =~= Seq::<Seq<char>>::empty());
    assert(s@.skip(0) =~= s@);
    while start < s.len()
        invariant
            start <= s.len(),
            slices(out@) + lines_of(s@.skip(start as int)) == lines_of(s@),
        decreases s.len() - start,
    {
        let rest = &s[start..s.len()];
        assert(rest@ == s@.skip(start as int));
        let ghost before = out@;
        match find(rest, '\n') {
            Some(n) => {
                let end: usize = if n > 0 && rest[n - 1] == '\r' {
                    n - 1
                } else {
                    n
                };
                let line = &rest[0..end];
                out.push(line);
                proof {
                    assert(line@ =~= without_cr(rest@.take(n as int)));
                    assert(rest@.skip(n + 1) =~= s@.skip(start + n + 1));
                    assert(slices(out@) =~= slices(before) + seq![line@]);
                    assert(slices(before) + lines_of(rest@) =~= slices(out@) + lines_of(
                        s@.skip(start + n + 1),
                    ));
                }
                start = start + n + 1;
            },
            None => {
                out.push(rest);
                proof {
                    assert(slices(out@) =~= slices(before) + seq![rest@]);
                    assert(lines_of(s@.skip(s.len() as int)) =~= Seq::<Seq<char>>::empty());
                }
                start = s.len();
            },
        }
    }
    proof {
        assert(lines_of(s@.skip(start as int)) =~= Seq::<Seq<char>>::empty());
        assert(slices(out@) + Seq::<Seq<char>>::empty() =~= slices(out@));
    }
    out
}


/// The pieces of `s` between the occurrences of `c`. There is always at
/// least one piece; a `c` at the very end leaves an empty last piece.
pub open spec fn pieces(s: Seq<char>, c: char) -> Seq<Seq<char>>
    decreases s.len(),
{
    let n = position(s, c);
    if n < s.len() {
        seq![s.take(n as int)] + pieces(s.skip(n + 1 as int), c)
    } else {
        seq![s]
    }
}

/// The pieces of the slice between the occurrences of `c`.
pub fn split(s: &[char], c: char) -> (r: Vec<&[char]>)
    ensures
        slices(r@) == pieces(s@, c),
{
    let mut out: Vec<&[char]> = Vec::new();
    let mut start: usize = 0;
    assert(slices(out@) =~= Seq::<Seq<char>>::empty());
    assert(s@.skip(0) =~= s@);
    loop
        invariant
            start <= s.len(),
            slices(out@) + pieces(s@.skip(start as int), c) == pieces(s@, c),
        decreases s.len() - start,
    {
        let rest = &s[start..s.len()];
        assert(rest@ == s@.skip(start as int));
        let ghost before = out@;
        match find(rest, c) {
            Some(n) => {
                let piece = &rest[0..n];
                out.push(piece);
                proof {
                    assert(piece@ =~= rest@.take(n as int));
                    assert(rest@.skip(n + 1) =~= s@.skip(start + n + 1));
                    assert(slices(out@) =~= slices(before) + seq![piece@]);
                    assert(slices(before) + pieces(rest@, c) =~= slices(out@) + pieces(
                        s@.skip(start + n + 1),
                        c,
                    ));
                }
                start = start + n + 1;
            },
            None => {
                out.push(rest);
                proof {
                    assert(slices(out@) =~= slices(before) + seq![rest@]);
                }
                return out;
            },
        }
    }
}

// ---------------------------------------------------------------------------
// Numbers
// ---------------------------------------------------------------------------

/// The decimal digit for `d`, for `d` below ten.
pub open spec fn digit_char(d: int) -> char {
    if d == 0 {
        '0'
    } else if d == 1 {
        '1'
    } else if d == 2 {
        '2'
    } else if d == 3 {
        '3'
    } else if d == 4 {
        '4'
    } else if d == 5 {
        '5'
    } else if d == 6 {
        '6'
    } else if d == 7 {
        '7'
    } else if d == 8 {
        '8'
    } else {
        '9'
    }
}

/// `n` in decimal, without leading zeros.
pub open spec fn decimal(n: nat) -> Seq<char>
    decreases n,
{
    if n < 10 {
        seq![digit_char(n as int)]
    } else {
        decimal(n / 10).push(digit_char((n % 10) as int))
    }
}

fn digit(d: u64) -> (r: char)
    requires
        d < 10,
    ensures
        r == digit_char(d as int),
{
    if d == 0 {
        '0'
    } else if d == 1 {
        '1'
    } else if d == 2 {
        '2'
    } else if d == 3 {
        '3'
    } else if d == 4 {
        '4'
    } else if d == 5 {
        '5'
    } else if d == 6 {
        '6'
    } else if d == 7 {
        '7'
    } else if d == 8 {
        '8'
    } else {
        '9'
    }
}

/// The decimal digits of `n`, as `Display` prints an unsigned integer.
pub fn decimal_chars(n: u64) -> (r: Vec<char>)
    ensures
        r@ == decimal(n as nat),
{
    let mut rev: Vec<char> = Vec::new();
    rev.push(digit(n % 10));
    let mut m: u64 = n / 10;
    assert(rev@.reverse() =~= seq![digit_char((n % 10) as int)]);
    while m > 0
        invariant
            rev.len() > 0,
            m > 0 ==> decimal(n as nat) == decimal(m as nat) + rev@.reverse(),
            m == 0 ==> decimal(n as nat) == rev@.reverse(),
        decreases m,
    {
        let ghost before = rev@;
        rev.push(digit(m % 10));
        proof {
            let d = digit_char((m % 10) as int);
            assert(rev@.reverse() =~= seq![d] + before.reverse());
            if m >= 10 {
                assert(decimal(m as nat) + before.reverse() =~= decimal((m / 10) as nat)
                    + rev@.reverse());
            } else {
                assert(decimal(m as nat) + before.reverse() =~= rev@.reverse());
            }
        }
        m = m / 10;
    }
    let mut out: Vec<char> = Vec::new();
    let mut i: usize = rev.len();
    while i > 0
        invariant
            i <= rev.len(),
            out.len() == rev.len() - i,
            forall|j: int| 0 <= j < out.len() ==> out@[j] == rev@[rev.len() - 1 - j],
        decreases i,
    {
        i -= 1;
        out.push(rev[i]);
    }
    assert(out@ =~= rev@.reverse());
    out
}

/// `n` in decimal.
pub fn format_u64(n: u64) -> (r: String)
    ensures
        r@ == decimal(n as nat),
{
    let digits = decimal_chars(n);
    from_chars(digits.as_slice())
}

/// `n` in decimal.
pub fn format_usize(n: usize) -> (r: String)
    ensures
        r@ == decimal(n as nat),
{
    format_u64(n as u64)
}

/// Whether `c` is one of the ten decimal digits.
pub open spec fn is_digit(c: char) -> bool {
    48 <= c as u32 <= 57
}

/// Value of a decimal digit; zero for any other character.
pub open spec fn digit_value(c: char) -> nat {
    if is_digit(c) {
        (c as u32 - 48) as nat
    } else {
        0
    }
}

/// Value of a run of decimal digits, most significant first.
pub open spec fn digits_value(s: Seq<char>) -> nat
    decreases s.len(),
{
    if s.len() == 0 {
        0
    } else {
        digits_value(s.drop_last()) * 10 + digit_value(s.last())
    }
}

/// Whether `s` holds decimal digits only.
pub open spec fn all_digits(s: Seq<char>) -> bool {
    forall|i: int| 0 <= i < s.len() ==> is_digit(#[trigger] s[i])
}

/// The number that `s` writes: decimal digits, at least one, with at most
/// one `+` in front.
pub open spec fn unsigned_literal(s: Seq<char>) -> Option<nat> {
    let d = if s.len() > 0 && s[0] == '+' {
        s.drop_first()
    } else {
        s
    };
    if d.len() > 0 && all_digits(d) {
        Some(digits_value(d))
    } else {
        None
    }
}

/// The `usize` that `s` writes, where it writes one that fits.
pub open spec fn parsed_usize(s: Seq<char>) -> Option<usize> {
    match unsigned_literal(s) {
        Some(v) => if v <= usize::MAX {
            Some(v as usize)
        } else {
            None
        },
        None => None,
    }
}

/// A run of digits is worth at least as much as any of its prefixes.
pub proof fn lemma_digits_value_prefix(s: Seq<char>, k: int)
    requires
        0 <= k <= s.len(),
    ensures
        digits_value(s.take(k)) <= digits_value(s),
    decreases s.len() - k,
{
    if k == s.len() {
        assert(s.take(k) =~= s);
    } else {
        let t = s.drop_last();
        assert(t.take(k) =~= s.take(k));
        lemma_digits_value_prefix(t, k);
    }
}

/// Reads the `usize` that the slice writes.
pub fn parse_usize(s: &[char]) -> (r: Option<usize>)
    ensures
        r == parsed_usize(s@),
{
    let start: usize = if s.len() > 0 && s[0] == '+' {
        1
    } else {
        0
    };
    let d = &s[start..s.len()];
    assert(d@ =~= if s@.len() > 0 && s@[0] == '+' {
        s@.drop_first()
    } else {
        s@
    });
    if d.len() == 0 {
        return None;
    }
    let mut acc: usize = 0;
    let mut i: usize = 0;
    assert(d@.take(0) =~= Seq::<char>::empty());
    while i < d.len()
        invariant
            i <= d.len(),
            d@.len() > 0,
            all_digits(d@.take(i as int)),
            acc == digits_value(d@.take(i as int)),
            parsed_usize(s@) == match (if d@.len() > 0 && all_digits(d@) {
                Some(digits_value(d@))
            } else {
                None
            }) {
                Some(v) => if v <= usize::MAX {
                    Some(v as usize)
                } else {
                    None
                },
                None => None,
            },
        decreases d.len() - i,
    {
        let c = d[i];
        let n: u32 = c as u32;
        if n < 48 || n > 57 {
            assert(!is_digit(d@[i as int]));
            return None;
        }
        let v: usize = (n - 48) as usize;
        proof {
            let p = d@.take(i + 1);
            assert(p.drop_last() =~= d@.take(i as int));
            assert(p.last() == c);
            assert(digits_value(p) == acc * 10 + v);
            lemma_digits_value_prefix(d@, i + 1);
            assert forall|j: int| 0 <= j < p.len() implies is_digit(#[trigger] p[j]) by {
                if j < i {
                    assert(p[j] == d@.take(i as int)[j]);
                }
            }
        }
        let shifted = match acc.checked_mul(10) {
            Some(x) => x,
            None => {
                return None;
            },
        };
        acc = match shifted.checked_add(v) {
            Some(x) => x,
            None => {
                return None;
            },
        };
        i += 1;
    }
    assert(d@.take(d.len() as int) =~= d@);
    Some(acc)
}



// ---------------------------------------------------------------------------
// Case, suffixes, words, joining
// ---------------------------------------------------------------------------

/// The code of `c`, with the ASCII capitals mapped to their small letters.
pub open spec fn folded(c: char) -> u32 {
    let n = c as u32;
    if 65 <= n <= 90 {
        (n + 32) as u32
    } else {
        n
    }
}

/// Whether two texts are equal once the ASCII letters are taken without
/// their case.
pub open spec fn same_ignoring_ascii_case(a: Seq<char>, b: Seq<char>) -> bool {
    a.len() == b.len() && forall|i: int|
        0 <= i < a.len() ==> folded(#[trigger] a[i]) == folded(b[i])
}

fn fold(c: char) -> (r: u32)
    ensures
        r == folded(c),
{
    let n: u32 = c as u32;
    if 65 <= n && n <= 90 {
        n + 32
    } else {
        n
    }
}

/// Whether two slices are equal once the ASCII letters are taken without
/// their case.
pub fn eq_ignore_ascii_case(a: &[char], b: &[char]) -> (r: bool)
    ensures
        r == same_ignoring_ascii_case(a@, b@),
{
    if a.len() != b.len() {
        return false;
    }
    let mut i: usize = 0;
    while i < a.len()
        invariant
            i <= a.len(),
            a.len() == b.len(),
            forall|j: int| 0 <= j < i ==> folded(#[trigger] a@[j]) == folded(b@[j]),
        decreases a.len() - i,
    {
        if fold(a[i]) != fold(b[i]) {
            return false;
        }
        i += 1;
    }
    true
}

/// Number of characters `c` at the back of `s`.
pub open spec fn trailing_run(s: Seq<char>, c: char) -> nat
    decreases s.len(),
{
    if s.len() > 0 && s.last() == c {
        1 + trailing_run(s.drop_last(), c)
    } else {
        0
    }
}

/// `s` without the characters `c` at its end.
pub open spec fn without_trailing(s: Seq<char>, c: char) -> Seq<char> {
    s.take(s.len() - trailing_run(s, c))
}

/// A run of `c` at the back that begins `n` from the end has length `n`.
pub proof fn lemma_trailing_run(s: Seq<char>, c: char, n: int)
    requires
        0 <= n <= s.len(),
        forall|j: int| s.len() - n <= j < s.len() ==> #[trigger] s[j] == c,
        n < s.len() ==> s[s.len() - n - 1] != c,
    ensures
        trailing_run(s, c) == n,
    decreases n,
{
    if n > 0 {
        let t = s.drop_last();
        assert forall|j: int| t.len() - (n - 1) <= j < t.len() implies #[trigger] t[j] == c by {
            assert(t[j] == s[j]);
        }
        lemma_trailing_run(t, c, n - 1);
    }
}

/// The slice without the characters `c` at its end.
pub fn trim_end_matches(s: &[char], c: char) -> (r: &[char])
    ensures
        r@ == without_trailing(s@, c),
{
    let mut b: usize = s.len();
    while b > 0 && s[b - 1] == c
        invariant
            b <= s.len(),
            forall|j: int| b <= j < s.len() ==> #[trigger] s@[j] == c,
        decreases b,
    {
        b -= 1;
    }
    proof {
        lemma_trailing_run(s@, c, s.len() - b);
    }
    &s[0..b]
}

/// Number of characters at the front of `s` that are no whitespace.
pub open spec fn leading_word(s: Seq<char>) -> nat
    decreases s.len(),
{
    if s.len() > 0 && !is_whitespace(s[0]) {
        1 + leading_word(s.drop_first())
    } else {
        0
    }
}

/// A run without whitespace at the front that ends at `n` has length `n`.
pub proof fn lemma_leading_word(s: Seq<char>, n: int)
    requires
        0 <= n <= s.len(),
        forall|j: int| 0 <= j < n ==> !is_whitespace(#[trigger] s[j]),
        n < s.len() ==> is_whitespace(s[n]),
    ensures
        leading_word(s) == n,
    decreases n,
{
    if n > 0 {
        let t = s.drop_first();
        assert forall|j: int| 0 <= j < n - 1 implies !is_whitespace(#[trigger] t[j]) by {
            assert(t[j] == s[j + 1]);
        }
        lemma_leading_word(t, n - 1);
    }
}

/// The words of `s`: the longest runs of characters that are no whitespace,
/// in order.
pub open spec fn words_of(s: Seq<char>) -> Seq<Seq<char>>
    decreases s.len(),
{
    if s.len() == 0 {
        Seq::empty()
    } else if is_whitespace(s[0]) {
        words_of(s.drop_first())
    } else {
        let n = leading_word(s);
        if 0 < n <= s.len() {
            seq![s.take(n as int)] + words_of(s.skip(n as int))
        } else {
            Seq::empty()
        }
    }
}

/// The words of the slice.
pub fn split_words(s: &[char]) -> (r: Vec<&[char]>)
    ensures
        slices(r@) == words_of(s@),
{
    let mut out: Vec<&[char]> = Vec::new();
    let mut i: usize = 0;
    assert(slices(out@) =~= Seq::<Seq<char>>::empty());
    assert(s@.skip(0) =~= s@);
    while i < s.len()
        invariant
            i <= s.len(),
            slices(out@) + words_of(s@.skip(i as int)) == words_of(s@),
        decreases s.len() - i,
    {
        let ghost rest = s@.skip(i as int);
        assert(rest[0] == s@[i as int]);
        if whitespace(s[i]) {
            assert(rest.drop_first() =~= s@.skip(i + 1));
            i += 1;
        } else {
            let mut j: usize = i + 1;
            while j < s.len() && !whitespace(s[j])
                invariant
                    i < j <= s.len(),
                    forall|k: int| i <= k < j ==> !is_whitespace(#[trigger] s@[k]),
                decreases s.len() - j,
            {
                j += 1;
            }
            let word = &s[i..j];
            let ghost before = out@;
            out.push(word);
            proof {
                assert forall|k: int| 0 <= k < j - i implies !is_whitespace(#[trigger] rest[k]) by {
                    assert(rest[k] == s@[i + k]);
                }
                if j - i < rest.len() {
                    assert(rest[j - i] == s@[j as int]);
                }
                lemma_leading_word(rest, j - i);
                assert(word@ =~= rest.take(j - i));
                assert(rest.skip(j - i) =~= s@.skip(j as int));
                assert(slices(out@) =~= slices(before) + seq![word@]);
                assert(slices(before) + words_of(rest) =~= slices(out@) + words_of(
                    s@.skip(j as int),
                ));
            }
            i = j;
        }
    }
    proof {
        assert(words_of(s@.skip(i as int)) =~= Seq::<Seq<char>>::empty());
        assert(slices(out@) + Seq::<Seq<char>>::empty() =~= slices(out@));
    }
    out
}

/// The texts of `parts` in order, with `sep` between each two.
pub open spec fn joined(parts: Seq<Seq<char>>, sep: Seq<char>) -> Seq<char>
    decreases parts.len(),
{
    if parts.len() == 0 {
        Seq::empty()
    } else if parts.len() == 1 {
        parts[0]
    } else {
        joined(parts.drop_last(), sep) + sep + parts.last()
    }
}

/// The texts of `parts` in order, with `sep` between each two.
pub fn join(parts: &Vec<String>, sep: &str) -> (r: String)
    ensures
        r@ == joined(texts(parts@), sep@),
{
    let mut out = String::new();
    let mut i: usize = 0;
    let ghost all = texts(parts@);
    assert(all.take(0) =~= Seq::<Seq<char>>::empty());
    while i < parts.len()
        invariant
            i <= parts.len(),
            all == texts(parts@),
            out@ == joined(all.take(i as int), sep@),
        decreases parts.len() - i,
    {
        proof {
            let next = all.take(i + 1);
            assert(next.drop_last() =~= all.take(i as int));
            assert(next.last() == parts@[i as int]@);
        }
        if i > 0 {
            out.append(sep);
        }
        out.append(parts[i].as_str());
        proof {
            if i == 0 {
                assert(out@ =~= parts@[0]@);
            }
        }
        i += 1;
    }
    assert(all.take(parts.len() as int) =~= all);
    out
}

} // verus!
