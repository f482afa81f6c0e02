//! What the renderer computes before it draws: how text is wrapped to the
//! width of a pane, and where a pane is scrolled to.

use crate::edit::push_all;
use crate::text::{
    from_chars, has_prefix, is_blank, is_whitespace, leading_whitespace, leading_word,
    lemma_whitespace_counts, lines_of, slices, split_lines, split_words, starts_with, texts,
    to_chars, trim, trim_start, trimmed, words_of,
};
use vstd::prelude::*;

verus! {

// ---------------------------------------------------------------------------
// Wrapping
// ---------------------------------------------------------------------------

/// A word that is wider than the pane, cut into pieces of the pane's width;
/// the last piece may be shorter.
pub open spec fn chunks(word: Seq<char>, width: nat) -> Seq<Seq<char>>
    decreases word.len(),
{
    if width == 0 || word.len() == 0 {
        Seq::empty()
    } else if word.len() <= width {
        seq![word]
    } else {
        seq![word.take(width as int)] + chunks(word.skip(width as int), width)
    }
}

/// The lines with the line under construction added, where it holds
/// anything.
pub open spec fn flushed(lines: Seq<Seq<char>>, current: Seq<char>) -> Seq<Seq<char>> {
    if current.len() > 0 {
        lines.push(current)
    } else {
        lines
    }
}

/// Places one word. A word wider than the pane ends the line under
/// construction and is cut into pieces. Any other word joins the line under
/// construction, behind one space, where it fits; else it begins a new line.
pub open spec fn placed(
    lines: Seq<Seq<char>>,
    current: Seq<char>,
    word: Seq<char>,
    width: nat,
) -> (Seq<Seq<char>>, Seq<char>) {
    if word.len() > width {
        (flushed(lines, current) + chunks(word, width), Seq::empty())
    } else if current.len() == 0 {
        (lines, word)
    } else if current.len() + 1 + word.len() <= width {
        (lines, current + seq![' '] + word)
    } else {
        (lines.push(current), word)
    }
}

/// The finished lines and the line under construction after `words` have
/// been placed one after another.
pub open spec fn laid_out(words: Seq<Seq<char>>, width: nat) -> (Seq<Seq<char>>, Seq<char>)
    decreases words.len(),
{
    if words.len() == 0 {
        (Seq::empty(), Seq::empty())
    } else {
        let before = laid_out(words.drop_last(), width);
        placed(before.0, before.1, words.last(), width)
    }
}

/// One line of text, wrapped: a blank line stays one empty line; any other
/// line is laid out word by word.
pub open spec fn wrapped_line(line: Seq<char>, width: nat) -> Seq<Seq<char>> {
    if is_blank(line) {
        seq![Seq::empty()]
    } else {
        let end = laid_out(words_of(line), width);
        flushed(end.0, end.1)
    }
}

/// The given lines, each wrapped, one after another.
pub open spec fn wrapped_lines(lines: Seq<Seq<char>>, width: nat) -> Seq<Seq<char>>
    decreases lines.len(),
{
    if lines.len() == 0 {
        Seq::empty()
    } else {
        wrapped_lines(lines.drop_last(), width) + wrapped_line(lines.last(), width)
    }
}

/// `text` wrapped to `width` characters. Widths are counted in characters.
/// With a width of zero, and for a blank text, the text is returned as it
/// is, in one piece.
pub open spec fn wrapped(text: Seq<char>, width: nat) -> Seq<Seq<char>> {
    if width == 0 || is_blank(text) {
        seq![text]
    } else {
        let all = wrapped_lines(lines_of(text), width);
        if all.len() == 0 {
            seq![text]
        } else {
            all
        }
    }
}

/// Whether every line is at most `width` characters long.
pub open spec fn all_fit(lines: Seq<Seq<char>>, width: nat) -> bool {
    forall|i: int| 0 <= i < lines.len() ==> (#[trigger] lines[i]).len() <= width
}

/// The pieces of a word that was cut fit the width.
pub proof fn lemma_chunks_fit(word: Seq<char>, width: nat)
    requires
        width > 0,
    ensures
        all_fit(chunks(word, width), width),
    decreases word.len(),
{
    if word.len() > width {
        lemma_chunks_fit(word.skip(width as int), width);
    }
}

/// Words that are laid out give lines that fit the width.
pub proof fn lemma_laid_out_fits(words: Seq<Seq<char>>, width: nat)
    requires
        width > 0,
    ensures
        all_fit(laid_out(words, width).0, width),
        laid_out(words, width).1.len() <= width,
    decreases words.len(),
{
    if words.len() > 0 {
        lemma_laid_out_fits(words.drop_last(), width);
        lemma_chunks_fit(words.last(), width);
    }
}

/// Lines that are wrapped give lines that fit the width.
pub proof fn lemma_wrapped_lines_fit(lines: Seq<Seq<char>>, width: nat)
    requires
        width > 0,
    ensures
        all_fit(wrapped_lines(lines, width), width),
    decreases lines.len(),
{
    if lines.len() > 0 {
        lemma_wrapped_lines_fit(lines.drop_last(), width);
        lemma_laid_out_fits(words_of(lines.last()), width);
    }
}

/// The words of a text are not empty.
pub proof fn lemma_words_not_empty(s: Seq<char>)
    ensures
        forall|i: int| 0 <= i < words_of(s).len() ==> (#[trigger] words_of(s)[i]).len() > 0,
    decreases s.len(),
{
    if s.len() > 0 {
        if is_whitespace(s[0]) {
            lemma_words_not_empty(s.drop_first());
            assert(words_of(s) == words_of(s.drop_first()));
        } else {
            let n = leading_word(s);
            if 0 < n <= s.len() {
                lemma_words_not_empty(s.skip(n as int));
                let rest = words_of(s.skip(n as int));
                let all = words_of(s);
                assert(all == seq![s.take(n as int)] + rest);
                assert forall|i: int| 0 <= i < all.len() implies (#[trigger] all[i]).len()
                    > 0 by {
                    if i > 0 {
                        assert(all[i] == rest[i - 1]);
                    } else {
                        assert(all[0] == s.take(n as int));
                    }
                }
            } else {
                assert(words_of(s).len() == 0);
            }
        }
    }
}

/// The first word is no longer than the text.
pub proof fn lemma_leading_word_bound(s: Seq<char>)
    ensures
        leading_word(s) <= s.len(),
    decreases s.len(),
{
    if s.len() > 0 && !is_whitespace(s[0]) {
        lemma_leading_word_bound(s.drop_first());
    }
}

/// A text that holds a character that is no whitespace has a word.
pub proof fn lemma_has_words(s: Seq<char>, k: int)
    requires
        0 <= k < s.len(),
        !is_whitespace(s[k]),
    ensures
        words_of(s).len() > 0,
    decreases s.len(),
{
    if is_whitespace(s[0]) {
        assert(s.drop_first()[k - 1] == s[k]);
        lemma_has_words(s.drop_first(), k - 1);
    } else {
        lemma_leading_word_bound(s);
    }
}

/// Words that are laid out leave at least one line.
pub proof fn lemma_laid_out_not_empty(words: Seq<Seq<char>>, width: nat)
    requires
        width > 0,
        words.len() > 0,
        forall|i: int| 0 <= i < words.len() ==> (#[trigger] words[i]).len() > 0,
    ensures
        flushed(laid_out(words, width).0, laid_out(words, width).1).len() > 0,
{
    let word = words.last();
    assert(word.len() > 0);
    if word.len() > width {
        assert(chunks(word, width).len() > 0);
    }
}

/// Every line of text wraps to at least one line.
pub proof fn lemma_wrapped_line_not_empty(line: Seq<char>, width: nat)
    requires
        width > 0,
    ensures
        wrapped_line(line, width).len() > 0,
{
    if !is_blank(line) {
        lemma_whitespace_counts(line);
        let k = leading_whitespace(line) as int;
        if k >= line.len() {
            assert(trim_start(line).len() == 0);
            lemma_whitespace_counts(trim_start(line));
            assert(trimmed(line).len() == 0);
        }
        lemma_has_words(line, k);
        lemma_words_not_empty(line);
        lemma_laid_out_not_empty(words_of(line), width);
    }
}

/// Wrapping keeps to the width: no line of the wrapped text is longer than
/// the width asked for.
pub proof fn lemma_wrapped_fits(text: Seq<char>, width: nat)
    requires
        width > 0,
        !is_blank(text),
    ensures
        all_fit(wrapped(text, width), width),
        wrapped(text, width) == wrapped_lines(lines_of(text), width),
{
    lemma_wrapped_lines_fit(lines_of(text), width);
    lemma_whitespace_counts(text);
    lemma_whitespace_counts(trim_start(text));
    assert(text.len() > 0);
    let lines = lines_of(text);
    assert(lines.len() > 0);
    lemma_wrapped_line_not_empty(lines.last(), width);
}

fn push_chunks(word: &[char], width: usize, out: &mut Vec<String>)
    requires
        width > 0,
    ensures
        texts(final(out)@) == texts(old(out)@) + chunks(word@, width as nat),
{
    let mut p: usize = 0;
    assert(word@.skip(0) =~= word@);
    assert(texts(out@) + chunks(word@, width as nat) =~= texts(old(out)@) + chunks(
        word@,
        width as nat,
    ));
    while p < word.len()
        invariant
            p <= word.len(),
            width > 0,
            texts(out@) + chunks(word@.skip(p as int), width as nat) == texts(old(out)@) + chunks(
                word@,
                width as nat,
            ),
        decreases word.len() - p,
    {
        let end: usize = if word.len() - p <= width {
            word.len()
        } else {
            p + width
        };
        let ghost rest = word@.skip(p as int);
        let ghost before = out@;
        let piece = from_chars(&word[p..end]);
        out.push(piece);
        proof {
            assert(texts(out@) =~= texts(before).push(piece@));
            if word.len() - p <= width {
                assert(piece@ =~= rest);
                assert(word@.skip(end as int).len() == 0);
                assert(chunks(word@.skip(end as int), width as nat) =~= Seq::<Seq<char>>::empty());
                assert(texts(before) + chunks(rest, width as nat) =~= texts(out@) + chunks(
                    word@.skip(end as int),
                    width as nat,
                ));
            } else {
                assert(piece@ =~= rest.take(width as int));
                assert(rest.skip(width as int) =~= word@.skip(end as int));
                assert(texts(before) + chunks(rest, width as nat) =~= texts(out@) + chunks(
                    word@.skip(end as int),
                    width as nat,
                ));
            }
        }
        p = end;
    }
    proof {
        assert(chunks(word@.skip(p as int), width as nat) =~= Seq::<Seq<char>>::empty());
        assert(texts(out@) + Seq::<Seq<char>>::empty() =~= texts(out@));
    }
}

fn wrap_line(line: &[char], width: usize, out: &mut Vec<String>)
    requires
        width > 0,
    ensures
        texts(final(out)@) == texts(old(out)@) + wrapped_line(line@, width as nat),
{
    let ghost base = texts(out@);
    if trim(line).len() == 0 {
        out.push(String::new());
        assert(texts(out@) =~= base + seq![Seq::<char>::empty()]);
        return ;
    }
    let words = split_words(line);
    let ghost all = slices(words@);
    let mut current: Vec<char> = Vec::new();
    let mut k: usize = 0;
    assert(all.take(0) =~= Seq::<Seq<char>>::empty());
    assert(texts(out@) =~= base + laid_out(all.take(0), width as nat).0);
    while k < words.len()
        invariant
            k <= words.len(),
            width > 0,
            all == slices(words@),
            texts(out@) == base + laid_out(all.take(k as int), width as nat).0,
            current@ == laid_out(all.take(k as int), width as nat).1,
            current.len() <= width,
        decreases words.len() - k,
    {
        let word = words[k];
        let ghost before = laid_out(all.take(k as int), width as nat);
        let ghost lines_before = texts(out@);
        proof {
            let next = all.take(k + 1);
            assert(next.drop_last() =~= all.take(k as int));
            assert(next.last() == word@);
        }
        if word.len() > width {
            if current.len() > 0 {
                let ghost held = out@;
                out.push(from_chars(current.as_slice()));
                assert(texts(out@) =~= texts(held).push(current@));
                current = Vec::new();
            }
            assert(texts(out@) =~= base + flushed(before.0, before.1));
            push_chunks(word, width, out);
            assert(texts(out@) =~= base + (flushed(before.0, before.1) + chunks(
                word@,
                width as nat,
            )));
            current = Vec::new();
        } else if current.len() == 0 {
            push_all(&mut current, word);
            assert(current@ =~= word@);
        } else if current.len() < width && word.len() <= width - current.len() - 1 {
            current.push(' ');
            push_all(&mut current, word);
            assert(current@ =~= before.1 + seq![' '] + word@);
        } else {
            let ghost held = out@;
            out.push(from_chars(current.as_slice()));
            assert(texts(out@) =~= texts(held).push(current@));
            assert(texts(out@) =~= base + before.0.push(before.1));
            current = Vec::new();
            push_all(&mut current, word);
            assert(current@ =~= word@);
        }
        k += 1;
    }
    assert(all.take(words.len() as int) =~= all);
    if current.len() > 0 {
        let ghost held = out@;
        out.push(from_chars(current.as_slice()));
        assert(texts(out@) =~= texts(held).push(current@));
        assert(texts(out@) =~= base + laid_out(all, width as nat).0.push(current@));
    }
}

/// Wraps `text` to lines of at most `max_width` characters. With a width
/// above zero, no line of a text that is not blank comes out longer than the
/// width.
pub fn wrap_text(text: &str, max_width: usize) -> (r: Vec<String>)
    ensures
        texts(r@) == wrapped(text@, max_width as nat),
        max_width > 0 && !is_blank(text@) ==> all_fit(texts(r@), max_width as nat),
{
    proof {
        if max_width > 0 && !is_blank(text@) {
            lemma_wrapped_fits(text@, max_width as nat);
        }
    }
    let chars = to_chars(text);
    if max_width == 0 || trim(chars.as_slice()).len() == 0 {
        let mut out: Vec<String> = Vec::new();
        out.push(String::from_str(text));
        assert(texts(out@) =~= seq![text@]);
        return out;
    }
    let lines = split_lines(chars.as_slice());
    let ghost all = slices(lines@);
    let mut out: Vec<String> = Vec::new();
    let mut i: usize = 0;
    assert(all.take(0) =~= Seq::<Seq<char>>::empty());
    assert(texts(out@) =~= Seq::<Seq<char>>::empty());
    while i < lines.len()
        invariant
            i <= lines.len(),
            max_width > 0,
            all == slices(lines@),
            texts(out@) == wrapped_lines(all.take(i as int), max_width as nat),
        decreases lines.len() - i,
    {
        proof {
            let next = all.take(i + 1);
            assert(next.drop_last() =~= all.take(i as int));
            assert(next.last() == lines@[i as int]@);
        }
        wrap_line(lines[i], max_width, &mut out);
        i += 1;
    }
    assert(all.take(lines.len() as int) =~= all);
    if out.len() == 0 {
        out.push(String::from_str(text));
        assert(texts(out@) =~= seq![text@]);
    }
    out
}

// ---------------------------------------------------------------------------
// Scrolling
// ---------------------------------------------------------------------------

/// The farthest that a pane of `visible` lines can be scrolled over `total`
/// lines of content.
pub open spec fn farthest_scroll(total: nat, visible: nat) -> nat {
    if total > visible {
        (total - visible) as nat
    } else {
        0
    }
}

/// The farthest that a pane can be scrolled.
pub fn max_scroll(total_lines: usize, visible_height: usize) -> (r: usize)
    ensures
        r == farthest_scroll(total_lines as nat, visible_height as nat),
{
    if total_lines > visible_height {
        total_lines - visible_height
    } else {
        0
    }
}

/// The line at which the conversation is shown: the position asked for,
/// held within the content. The position `usize::MAX` asks for the bottom.
pub open spec fn shown_position(position: usize, farthest: usize) -> usize {
    if position == usize::MAX || position > farthest {
        farthest
    } else {
        position
    }
}

/// The line at which the conversation is shown.
pub fn conversation_scroll(position: usize, farthest: usize) -> (r: usize)
    ensures
        r == shown_position(position, farthest),
        r <= farthest,
{
    if position == usize::MAX {
        farthest
    } else if position < farthest {
        position
    } else {
        farthest
    }
}

/// The line at which the tool log is shown: the position asked for, held
/// within the content.
pub fn tool_log_scroll(position: usize, farthest: usize) -> (r: usize)
    ensures
        r == if position < farthest {
            position
        } else {
            farthest
        },
{
    if position < farthest {
        position
    } else {
        farthest
    }
}


// ---------------------------------------------------------------------------
// Who speaks
// ---------------------------------------------------------------------------

/// Who a line of the transcript comes from, by the prefix it carries.
#[derive(Clone, Copy, Debug, PartialEq, Eq, Structural)]
pub enum Speaker {
    User,
    Agent,
    Other,
}

/// The speaker of a transcript line and what was said: the line without the
/// prefix of the speaker. A line without such a prefix is of no speaker and
/// is taken whole.
pub open spec fn entry_of(message: Seq<char>) -> (Speaker, Seq<char>) {
    if has_prefix(message, "User: "@) {
        (Speaker::User, message.skip("User: "@.len() as int))
    } else if has_prefix(message, "Agent: "@) {
        (Speaker::Agent, message.skip("Agent: "@.len() as int))
    } else {
        (Speaker::Other, message)
    }
}

/// The speaker of a transcript line and what was said.
pub fn classify_entry(message: &str) -> (r: (Speaker, String))
    ensures
        (r.0, r.1@) == entry_of(message@),
{
    let chars = to_chars(message);
    let user = to_chars("User: ");
    let agent = to_chars("Agent: ");
    let s = chars.as_slice();
    if starts_with(s, user.as_slice()) {
        (Speaker::User, from_chars(&s[user.len()..s.len()]))
    } else if starts_with(s, agent.as_slice()) {
        (Speaker::Agent, from_chars(&s[agent.len()..s.len()]))
    } else {
        (Speaker::Other, String::from_str(message))
    }
}

// ---------------------------------------------------------------------------
// Code blocks
// ---------------------------------------------------------------------------

/// A piece of a message, as the renderer treats it.
#[derive(Debug)]
pub enum Segment {
    /// One line of ordinary text.
    Text(String),
    /// A fenced block of code, with the language named on its opening
    /// fence.
    Code { language: String, lines: Vec<String> },
    /// The lines of a block whose closing fence never came.
    Unclosed(Vec<String>),
}

/// The mathematical value of a `Segment`.
pub ghost enum SegmentView {
    Text(Seq<char>),
    Code { language: Seq<char>, lines: Seq<Seq<char>> },
    Unclosed(Seq<Seq<char>>),
}

impl View for Segment {
    type V = SegmentView;

    open spec fn view(&self) -> SegmentView {
        match self {
            Segment::Text(s) => SegmentView::Text(s@),
            Segment::Code { language, lines } => SegmentView::Code {
                language: language@,
                lines: texts(lines@),
            },
            Segment::Unclosed(lines) => SegmentView::Unclosed(texts(lines@)),
        }
    }
}

/// Views of a sequence of segments.
pub open spec fn segments(v: Seq<Segment>) -> Seq<SegmentView> {
    v.map_values(|s: Segment| s@)
}

/// The fence that opens and closes a block of code.
pub open spec fn fence() -> Seq<char> {
    seq!['`', '`', '`']
}

/// `s` without the fences at its front.
pub open spec fn without_fences(s: Seq<char>) -> Seq<char>
    decreases s.len(),
{
    if has_prefix(s, fence()) {
        without_fences(s.skip(3))
    } else {
        s
    }
}

/// The language that an opening fence names: what follows the fences,
/// trimmed; `txt` where nothing follows.
pub open spec fn fence_language(line: Seq<char>) -> Seq<char> {
    let named = trimmed(without_fences(line));
    if named.len() == 0 {
        "txt"@
    } else {
        named
    }
}

/// Where the reading of a message stands: the segments that are complete,
/// and the block that is open, with its language and the lines read so far.
pub ghost struct Reading {
    pub done: Seq<SegmentView>,
    pub open: Option<(Seq<char>, Seq<Seq<char>>)>,
}

/// Reads one line. A line that begins with a fence closes the open block,
/// or opens one; any other line joins the open block, or is a line of text.
pub open spec fn read_line(r: Reading, line: Seq<char>) -> Reading {
    if has_prefix(line, fence()) {
        match r.open {
            Some((language, lines)) => Reading {
                done: r.done.push(SegmentView::Code { language, lines }),
                open: None,
            },
            None => Reading { done: r.done, open: Some((fence_language(line), Seq::empty())) },
        }
    } else {
        match r.open {
            Some((language, lines)) => Reading {
                done: r.done,
                open: Some((language, lines.push(line))),
            },
            None => Reading { done: r.done.push(SegmentView::Text(line)), open: None },
        }
    }
}

/// Where the reading stands after the given lines.
pub open spec fn read_lines(lines: Seq<Seq<char>>) -> Reading
    decreases lines.len(),
{
    if lines.len() == 0 {
        Reading { done: Seq::empty(), open: None }
    } else {
        read_line(read_lines(lines.drop_last()), lines.last())
    }
}

/// The segments of a message. A block that is still open at the end is
/// given as unclosed, unless it holds no line.
pub open spec fn segments_of(text: Seq<char>) -> Seq<SegmentView> {
    let end = read_lines(lines_of(text));
    match end.open {
        Some((_, lines)) => if lines.len() > 0 {
            end.done.push(SegmentView::Unclosed(lines))
        } else {
            end.done
        },
        None => end.done,
    }
}

fn language_of_fence(line: &[char]) -> (r: String)
    ensures
        r@ == fence_language(line@),
{
    let mut start: usize = 0;
    assert(line@.skip(0) =~= line@);
    while line.len() - start >= 3 && line[start] == '`' && line[start + 1] == '`' && line[start
        + 2] == '`'
        invariant
            start <= line.len(),
            without_fences(line@) == without_fences(line@.skip(start as int)),
        decreases line.len() - start,
    {
        proof {
            let rest = line@.skip(start as int);
            assert(rest.take(3) =~= fence());
            assert(rest.skip(3) =~= line@.skip(start + 3));
        }
        start += 3;
    }
    proof {
        let rest = line@.skip(start as int);
        if rest.len() >= 3 {
            assert(rest.take(3)[0] == rest[0] && rest.take(3)[1] == rest[1] && rest.take(3)[2]
                == rest[2]);
            assert(rest[0] == line@[start as int] && rest[1] == line@[start + 1] && rest[2]
                == line@[start + 2]);
        }
        assert(!has_prefix(rest, fence()));
    }
    let named = trim(&line[start..line.len()]);
    if named.len() == 0 {
        String::from_str("txt")
    } else {
        from_chars(named)
    }
}

/// Cuts a message into lines of text and blocks of code.
pub fn segment_message(text: &str) -> (r: Vec<Segment>)
    ensures
        segments(r@) == segments_of(text@),
{
    let chars = to_chars(text);
    let lines = split_lines(chars.as_slice());
    let ghost all = slices(lines@);
    let mut done: Vec<Segment> = Vec::new();
    let mut in_block: bool = false;
    let mut language = String::new();
    let mut buffer: Vec<String> = Vec::new();
    let mut i: usize = 0;
    assert(all.take(0) =~= Seq::<Seq<char>>::empty());
    assert(segments(done@) =~= Seq::<SegmentView>::empty());
    while i < lines.len()
        invariant
            i <= lines.len(),
            all == slices(lines@),
            segments(done@) == read_lines(all.take(i as int)).done,
            in_block <==> read_lines(all.take(i as int)).open is Some,
            in_block ==> read_lines(all.take(i as int)).open == Some((language@, texts(buffer@))),
        decreases lines.len() - i,
    {
        let line = lines[i];
        let ghost before = read_lines(all.take(i as int));
        let ghost held = done@;
        proof {
            let next = all.take(i + 1);
            assert(next.drop_last() =~= all.take(i as int));
            assert(next.last() == line@);
        }
        let fenced = line.len() >= 3 && line[0] == '`' && line[1] == '`' && line[2] == '`';
        proof {
            if fenced {
                assert(line@.take(3) =~= fence());
            } else if line.len() >= 3 {
                assert(line@.take(3)[0] == line@[0] && line@.take(3)[1] == line@[1]
                    && line@.take(3)[2] == line@[2]);
            }
        }
        if fenced {
            if in_block {
                let mut block: Vec<String> = Vec::new();
                core::mem::swap(&mut buffer, &mut block);
                let mut name = String::new();
                core::mem::swap(&mut language, &mut name);
                let segment = Segment::Code { language: name, lines: block };
                done.push(segment);
                proof {
                    let opened = before.open->0;
                    assert(segments(done@) =~= segments(held).push(
                        SegmentView::Code { language: opened.0, lines: opened.1 },
                    ));
                }
                in_block = false;
            } else {
                language = language_of_fence(line);
                buffer = Vec::new();
                assert(texts(buffer@) =~= Seq::<Seq<char>>::empty());
                in_block = true;
            }
        } else if in_block {
            let ghost lines_before = buffer@;
            buffer.push(from_chars(line));
            assert(texts(buffer@) =~= texts(lines_before).push(line@));
        } else {
            done.push(Segment::Text(from_chars(line)));
            assert(segments(done@) =~= segments(held).push(SegmentView::Text(line@)));
        }
        i += 1;
    }
    assert(all.take(lines.len() as int) =~= all);
    if in_block && buffer.len() > 0 {
        let ghost held = done@;
        let ghost rest = texts(buffer@);
        done.push(Segment::Unclosed(buffer));
        assert(segments(done@) =~= segments(held).push(SegmentView::Unclosed(rest)));
    }
    done
}

} // verus!
