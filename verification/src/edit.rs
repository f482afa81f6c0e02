//! Replacing text within text.

use crate::text::{has_prefix, starts_with};
use vstd::prelude::*;

verus! {

/// `to`, then each character of `s` followed by `to`: what replacing the
/// empty pattern gives.
pub open spec fn interleaved(s: Seq<char>, to: Seq<char>) -> Seq<char>
    decreases s.len(),
{
    if s.len() == 0 {
        to
    } else {
        interleaved(s.drop_last(), to).push(s.last()) + to
    }
}

/// `s` with the occurrences of a pattern `from` that is not empty replaced
/// by `to`. Occurrences are found from the left and do not overlap: behind
/// an occurrence, the search goes on at the first character after it.
pub open spec fn replaced_from_left(s: Seq<char>, from: Seq<char>, to: Seq<char>) -> Seq<char>
    decreases s.len(),
{
    if from.len() == 0 || s.len() < from.len() {
        s
    } else if has_prefix(s, from) {
        to + replaced_from_left(s.skip(from.len() as int), from, to)
    } else {
        seq![s[0]] + replaced_from_left(s.drop_first(), from, to)
    }
}

/// `s` with every occurrence of `from` replaced by `to`.
pub open spec fn replaced(s: Seq<char>, from: Seq<char>, to: Seq<char>) -> Seq<char> {
    if from.len() == 0 {
        interleaved(s, to)
    } else {
        replaced_from_left(s, from, to)
    }
}

/// Puts the characters of `s` behind those of `out`.
pub fn push_all(out: &mut Vec<char>, s: &[char])
    ensures
        final(out)@ == old(out)@ + s@,
{
    let mut i: usize = 0;
    assert(out@ =~= old(out)@ + s@.take(0));
    while i < s.len()
        invariant
            i <= s.len(),
            out@ == old(out)@ + s@.take(i as int),
        decreases s.len() - i,
    {
        out.push(s[i]);
        assert(out@ =~= old(out)@ + s@.take(i + 1));
        i += 1;
    }
    assert(s@.take(s.len() as int) =~= s@);
}

/// Replaces every occurrence of `from` in `s` by `to`.
pub fn replace_all(s: &[char], from: &[char], to: &[char]) -> (r: Vec<char>)
    ensures
        r@ == replaced(s@, from@, to@),
{
    let mut out: Vec<char> = Vec::new();
    if from.len() == 0 {
        push_all(&mut out, to);
        let mut i: usize = 0;
        assert(s@.take(0) =~= Seq::<char>::empty());
        while i < s.len()
            invariant
                i <= s.len(),
                out@ == interleaved(s@.take(i as int), to@),
            decreases s.len() - i,
        {
            proof {
                let next = s@.take(i + 1);
                assert(next.drop_last() =~= s@.take(i as int));
                assert(next.last() == s@[i as int]);
            }
            out.push(s[i]);
            push_all(&mut out, to);
            i += 1;
        }
        assert(s@.take(s.len() as int) =~= s@);
        return out;
    }
    let mut i: usize = 0;
    assert(s@.skip(0) =~= s@);
    assert(out@ + replaced_from_left(s@, from@, to@) =~= replaced_from_left(s@, from@, to@));
    while i < s.len()
        invariant
            i <= s.len(),
            from@.len() > 0,
            out@ + replaced_from_left(s@.skip(i as int), from@, to@) == replaced_from_left(
                s@,
                from@,
                to@,
            ),
        decreases s.len() - i,
    {
        let rest = &s[i..s.len()];
        let ghost before = out@;
        assert(rest@ == s@.skip(i as int));
        if rest.len() < from.len() {
            push_all(&mut out, rest);
            proof {
                assert(s@.skip(s.len() as int).len() == 0);
                assert(replaced_from_left(s@.skip(s.len() as int), from@, to@)
                    =~= Seq::<char>::empty());
                assert(out@ + Seq::<char>::empty() =~= before + rest@);
            }
            i = s.len();
        } else if starts_with(rest, from) {
            push_all(&mut out, to);
            proof {
                assert(rest@.skip(from.len() as int) =~= s@.skip(i + from.len()));
                assert(before + (to@ + replaced_from_left(
                    rest@.skip(from.len() as int),
                    from@,
                    to@,
                )) =~= out@ + replaced_from_left(s@.skip(i + from.len()), from@, to@));
            }
            i = i + from.len();
        } else {
            out.push(s[i]);
            proof {
                assert(rest@.drop_first() =~= s@.skip(i + 1));
                assert(rest@[0] == s@[i as int]);
                assert(before + (seq![rest@[0]] + replaced_from_left(
                    rest@.drop_first(),
                    from@,
                    to@,
                )) =~= out@ + replaced_from_left(s@.skip(i + 1), from@, to@));
            }
            i += 1;
        }
    }
    proof {
        assert(s@.skip(i as int).len() == 0);
        assert(replaced_from_left(s@.skip(i as int), from@, to@) =~= Seq::<char>::empty());
        assert(out@ + Seq::<char>::empty() =~= out@);
    }
    out
}

} // verus!
