//! Character-level text helpers: views of strings as character sequences,
//! substring containment, and lowercasing.
use vstd::prelude::*;

verus! {

/// The lowercase form of a character sequence, as computed by
/// `str::to_lowercase` (full Unicode case mapping).
pub uninterp spec fn lower_of(s: Seq<char>) -> Seq<char>;

/// Relies on `str::to_lowercase`: the result is a function of the characters
/// alone, and the lowercase form of the empty string is empty.
#[verifier::external_body]
pub(crate) fn lowercase(s: &str) -> (r: String)
    ensures
        r@ == lower_of(s@),
        s@.len() == 0 ==> r@.len() == 0,
{
    s.to_lowercase()
}

/// `k` occurs in `t` as a contiguous run of characters.
pub open spec fn contains_seq(t: Seq<char>, k: Seq<char>) -> bool {
    exists|i: int| 0 <= i && i + k.len() <= t.len() && #[trigger] t.subrange(i, i + k.len()) == k
}

/// The characters of `s`, in order.
pub(crate) fn chars_of(s: &str) -> (r: Vec<char>)
    ensures
        r@ == s@,
{
    let n = s.unicode_len();
    let mut r: Vec<char> = Vec::new();
    let mut i: usize = 0;
    while i < n
        invariant
            n == s@.len(),
            i <= n,
            r@ == s@.subrange(0, i as int),
        decreases n - i,
    {
        let c = s.get_char(i);
        r.push(c);
        i = i + 1;
        assert(r@ =~= s@.subrange(0, i as int));
    }
    assert(r@ =~= s@);
    r
}

/// Whether `k[..]` equals `t[start..start + k.len()]`.
fn matches_at(t: &Vec<char>, k: &Vec<char>, start: usize) -> (r: bool)
    requires
        start + k@.len() <= t@.len(),
    ensures
        r == (t@.subrange(start as int, start + k@.len()) == k@),
{
    let tl = t.len();
    let mut j: usize = 0;
    while j < k.len()
        invariant
            tl == t@.len(),
            start + k@.len() <= t@.len(),
            j <= k@.len(),
            forall|m: int| 0 <= m < j ==> t@[start + m] == k@[m],
        decreases k@.len() - j,
    {
        if t[start + j] != k[j] {
            assert(t@.subrange(start as int, start + k@.len())[j as int] != k@[j as int]);
            return false;
        }
        j = j + 1;
    }
    assert(t@.subrange(start as int, start + k@.len()) =~= k@);
    true
}

/// Whether `k` occurs in `t` as a contiguous substring.
pub fn contains(t: &Vec<char>, k: &Vec<char>) -> (r: bool)
    ensures
        r == contains_seq(t@, k@),
{
    if k.len() > t.len() {
        return false;
    }
    let last = t.len() - k.len();
    let mut i: usize = 0;
    loop
        invariant
            i <= last,
            last == t@.len() - k@.len(),
            forall|p: int| 0 <= p < i ==> #[trigger] t@.subrange(p, p + k@.len()) != k@,
        decreases last - i,
    {
        if matches_at(t, k, i) {
            return true;
        }
        if i == last {
            assert forall|p: int|
                0 <= p && p + k@.len() <= t@.len() implies #[trigger] t@.subrange(p, p + k@.len())
                != k@ by {
                if p == i {
                } else {
                }
            }
            return false;
        }
        i = i + 1;
    }
}

} // verus!
