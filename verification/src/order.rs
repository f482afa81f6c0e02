//! Putting lines in order.

use crate::text::{texts, to_chars};
use vstd::prelude::*;

verus! {

/// Whether `a` stands before `b`, or is equal to it, in the order of a
/// dictionary: texts are compared character by character, by the code of the
/// characters, and a text stands before every text that it begins.
pub open spec fn precedes(a: Seq<char>, b: Seq<char>) -> bool
    decreases a.len(),
{
    if a.len() == 0 {
        true
    } else if b.len() == 0 {
        false
    } else if a[0] as u32 != b[0] as u32 {
        (a[0] as u32) < (b[0] as u32)
    } else {
        precedes(a.drop_first(), b.drop_first())
    }
}

/// Whether each line stands before, or is equal to, every line behind it.
pub open spec fn ordered(lines: Seq<Seq<char>>) -> bool {
    forall|i: int, j: int| 0 <= i < j < lines.len() ==> precedes(lines[i], lines[j])
}

/// Of two texts, one precedes the other.
pub proof fn lemma_precedes_total(a: Seq<char>, b: Seq<char>)
    ensures
        precedes(a, b) || precedes(b, a),
    decreases a.len(),
{
    if a.len() > 0 && b.len() > 0 && a[0] as u32 == b[0] as u32 {
        lemma_precedes_total(a.drop_first(), b.drop_first());
    }
}

/// What precedes a text precedes all that the text precedes.
pub proof fn lemma_precedes_transitive(a: Seq<char>, b: Seq<char>, c: Seq<char>)
    requires
        precedes(a, b),
        precedes(b, c),
    ensures
        precedes(a, c),
    decreases a.len(),
{
    if a.len() > 0 && b.len() > 0 && c.len() > 0 {
        if a[0] as u32 == b[0] as u32 && b[0] as u32 == c[0] as u32 {
            lemma_precedes_transitive(a.drop_first(), b.drop_first(), c.drop_first());
        }
    }
}

/// Whether `a` stands before `b` or is equal to it.
pub fn comes_first(a: &[char], b: &[char]) -> (r: bool)
    ensures
        r == precedes(a@, b@),
{
    let mut i: usize = 0;
    assert(a@.skip(0) =~= a@);
    assert(b@.skip(0) =~= b@);
    loop
        invariant
            i <= a.len(),
            i <= b.len(),
            precedes(a@, b@) == precedes(a@.skip(i as int), b@.skip(i as int)),
        decreases a.len() - i,
    {
        if i == a.len() {
            return true;
        }
        if i == b.len() {
            return false;
        }
        let ghost x = a@.skip(i as int);
        let ghost y = b@.skip(i as int);
        assert(x[0] == a@[i as int] && y[0] == b@[i as int]);
        if a[i] as u32 != b[i] as u32 {
            return (a[i] as u32) < (b[i] as u32);
        }
        assert(x.drop_first() =~= a@.skip(i + 1));
        assert(y.drop_first() =~= b@.skip(i + 1));
        i += 1;
    }
}

fn stands_before(a: &String, b: &[char]) -> (r: bool)
    ensures
        r == precedes(a@, b@),
{
    let chars = to_chars(a.as_str());
    comes_first(chars.as_slice(), b)
}

/// The lines in the order of a dictionary. The result holds the same lines,
/// each as often as before, and is ordered.
pub fn sort_lines(lines: Vec<String>) -> (r: Vec<String>)
    ensures
        texts(r@).to_multiset() == texts(lines@).to_multiset(),
        ordered(texts(r@)),
{
    broadcast use vstd::seq_lib::group_to_multiset_ensures;

    let mut out: Vec<String> = Vec::new();
    let mut rest = lines;
    let ghost all = texts(lines@);
    assert(texts(out@) =~= Seq::<Seq<char>>::empty());
    assert(texts(out@).to_multiset().add(texts(rest@).to_multiset()) =~= all.to_multiset());
    while rest.len() > 0
        invariant
            texts(out@).to_multiset().add(texts(rest@).to_multiset()) == all.to_multiset(),
            ordered(texts(out@)),
        decreases rest.len(),
    {
        let ghost rest_before = texts(rest@);
        let ghost out_before = texts(out@);
        let line = rest.remove(0);
        assert(texts(rest@) =~= rest_before.remove(0));
        assert(rest_before[0] == line@);
        let chars = to_chars(line.as_str());
        let mut p: usize = 0;
        while p < out.len() && stands_before(&out[p], chars.as_slice())
            invariant
                p <= out.len(),
                chars@ == line@,
                out_before == texts(out@),
                forall|k: int| 0 <= k < p ==> precedes(#[trigger] out_before[k], line@),
            decreases out.len() - p,
        {
            assert(out_before[p as int] == out@[p as int]@);
            p += 1;
        }
        proof {
            if p < out.len() {
                assert(out_before[p as int] == out@[p as int]@);
                lemma_precedes_total(out_before[p as int], line@);
            }
        }
        out.insert(p, line);
        proof {
            let now = texts(out@);
            assert(now =~= out_before.insert(p as int, line@));
            assert forall|i: int, j: int| 0 <= i < j < now.len() implies precedes(
                now[i],
                now[j],
            ) by {
                if j == p {
                } else if i == p {
                    assert(now[j] == out_before[j - 1]);
                    if j - 1 > p {
                        lemma_precedes_transitive(line@, out_before[p as int], out_before[j - 1]);
                    }
                } else {
                    let x = if i < p {
                        i
                    } else {
                        i - 1
                    };
                    let y = if j < p {
                        j
                    } else {
                        j - 1
                    };
                    assert(now[i] == out_before[x] && now[j] == out_before[y]);
                }
            }
            vstd::seq_lib::to_multiset_insert(out_before, p as int, line@);
            vstd::seq_lib::to_multiset_remove(rest_before, 0);
            assert(rest_before.contains(line@));
            vstd::seq_lib::to_multiset_contains(rest_before, line@);
            assert(now.to_multiset().add(texts(rest@).to_multiset())
                =~= out_before.to_multiset().add(
                rest_before.to_multiset(),
            ));
        }
    }
    assert(texts(rest@) =~= Seq::<Seq<char>>::empty());
    assert(texts(out@).to_multiset().add(texts(rest@).to_multiset()) =~= texts(
        out@,
    ).to_multiset());
    out
}

} // verus!
