//! Levenshtein edit distance between character sequences.
use vstd::prelude::*;

verus! {

pub open spec fn min3(x: nat, y: nat, z: nat) -> nat {
    if x <= y && x <= z {
        x
    } else if y <= z {
        y
    } else {
        z
    }
}

/// The least number of single-character insertions, deletions and
/// substitutions that turn `a` into `b`.
pub open spec fn edit_distance(a: Seq<char>, b: Seq<char>) -> nat
    decreases a.len() + b.len(),
{
    if a.len() == 0 {
        b.len()
    } else if b.len() == 0 {
        a.len()
    } else {
        let cost: nat = if a.last() == b.last() { 0 } else { 1 };
        min3(
            edit_distance(a.drop_last(), b) + 1,
            edit_distance(a, b.drop_last()) + 1,
            edit_distance(a.drop_last(), b.drop_last()) + cost,
        )
    }
}

/// The distance between the first `i` characters of `a` and the first `j` of `b`.
pub open spec fn prefix_distance(a: Seq<char>, b: Seq<char>, i: int, j: int) -> nat {
    edit_distance(a.subrange(0, i), b.subrange(0, j))
}

/// The distance never exceeds the length of the longer sequence.
pub proof fn lemma_edit_distance_bound(a: Seq<char>, b: Seq<char>)
    ensures
        edit_distance(a, b) <= if a.len() >= b.len() { a.len() } else { b.len() },
    decreases a.len() + b.len(),
{
    if a.len() > 0 && b.len() > 0 {
        lemma_edit_distance_bound(a.drop_last(), b.drop_last());
    }
}

/// Computes `edit_distance(a@, b@)` row by row.
pub fn edit_distance_of(a: &Vec<char>, b: &Vec<char>) -> (r: usize)
    ensures
        r == edit_distance(a@, b@),
{
    let n = a.len();
    let m = b.len();
    let mut prev: Vec<usize> = Vec::new();
    prev.push(0);
    for j in 0..m
        invariant
            m == b@.len(),
            prev@.len() == j + 1,
            forall|k: int| 0 <= k <= j ==> #[trigger] prev@[k] == prefix_distance(a@, b@, 0, k),
    {
        prev.push(j + 1);
    }
    for i in 0..n
        invariant
            n == a@.len(),
            m == b@.len(),
            prev@.len() == m + 1,
            forall|k: int| 0 <= k <= m ==> #[trigger] prev@[k] == prefix_distance(a@, b@, i as int, k),
    {
        let mut cur: Vec<usize> = Vec::new();
        cur.push(i + 1);
        for j in 0..m
            invariant
                n == a@.len(),
                m == b@.len(),
                i < n,
                prev@.len() == m + 1,
                forall|k: int|
                    0 <= k <= m ==> #[trigger] prev@[k] == prefix_distance(a@, b@, i as int, k),
                cur@.len() == j + 1,
                forall|k: int|
                    0 <= k <= j ==> #[trigger] cur@[k] == prefix_distance(a@, b@, i + 1, k),
        {
            let ghost sa = a@.subrange(0, i + 1);
            let ghost sb = b@.subrange(0, j + 1);
            proof {
                assert(sa.drop_last() =~= a@.subrange(0, i as int));
                assert(sb.drop_last() =~= b@.subrange(0, j as int));
                lemma_edit_distance_bound(sa, sb);
            }
            let del = prev[j + 1].saturating_add(1);
            let ins = cur[j].saturating_add(1);
            let sub = if a[i] == b[j] {
                prev[j]
            } else {
                prev[j].saturating_add(1)
            };
            let v = if del <= ins && del <= sub {
                del
            } else if ins <= sub {
                ins
            } else {
                sub
            };
            cur.push(v);
        }
        prev = cur;
    }
    proof {
        assert(a@.subrange(0, n as int) =~= a@);
        assert(b@.subrange(0, m as int) =~= b@);
    }
    prev[m]
}

} // verus!
