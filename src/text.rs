//! Character-level matching on text: a piece at a position, a piece
//! anywhere, and equality that ignores ASCII case.
use vstd::prelude::*;

verus! {

/// Whether `piece` stands in `t` at position `i`.
pub open spec fn occurs_at(t: Seq<char>, i: int, piece: Seq<char>) -> bool {
    0 <= i && i + piece.len() <= t.len() && t.subrange(i, i + piece.len()) == piece
}

/// Whether `piece` stands anywhere in `t`.
pub open spec fn contains_text(t: Seq<char>, piece: Seq<char>) -> bool {
    exists|i: int| occurs_at(t, i, piece)
}

/// Whether `c` is the character `lower` or, for an ASCII letter, its
/// capital.
pub open spec fn same_letter(c: char, lower: char) -> bool {
    c == lower || ('A' <= c && c <= 'Z' && c as u32 + 32 == lower as u32)
}

/// Whether `s`, lowered to ASCII small letters, is `lower`.
pub open spec fn lowers_to(s: Seq<char>, lower: Seq<char>) -> bool {
    s.len() == lower.len() && forall|i: int| 0 <= i < s.len() ==> same_letter(s[i], lower[i])
}

/// Whether `piece` stands in `t` at character position `i`; `n` is the
/// length of `t` in characters.
pub fn matches_at(t: &str, n: usize, i: usize, piece: &str) -> (r: bool)
    requires
        n == t@.len(),
        i <= n,
    ensures
        r == occurs_at(t@, i as int, piece@),
{
    let m = piece.unicode_len();
    if m > n - i {
        return false;
    }
    let mut j: usize = 0;
    while j < m
        invariant
            m == piece@.len(),
            n == t@.len(),
            i + m <= n,
            j <= m,
            t@.subrange(i as int, i + j) == piece@.subrange(0, j as int),
        decreases m - j,
    {
        if t.get_char(i + j) != piece.get_char(j) {
            assert(t@.subrange(i as int, i + m)[j as int] != piece@[j as int]);
            return false;
        }
        assert(t@.subrange(i as int, i + j + 1) =~= t@.subrange(i as int, i + j).push(
            t@[i + j],
        ));
        assert(piece@.subrange(0, j + 1) =~= piece@.subrange(0, j as int).push(piece@[j as int]));
        j = j + 1;
    }
    assert(piece@.subrange(0, m as int) =~= piece@);
    true
}

/// Whether `piece` stands anywhere in `t`, as `str::contains` answers.
pub fn contains(t: &str, piece: &str) -> (r: bool)
    ensures
        r == contains_text(t@, piece@),
{
    let n = t.unicode_len();
    let m = piece.unicode_len();
    if m > n {
        assert forall|i: int| !occurs_at(t@, i, piece@) by {}
        return false;
    }
    let last = n - m;
    let mut i: usize = 0;
    loop
        invariant
            n == t@.len(),
            m == piece@.len(),
            last == n - m,
            i <= last,
            forall|k: int| 0 <= k < i ==> !occurs_at(t@, k, piece@),
        ensures
            forall|k: int| 0 <= k <= last ==> !occurs_at(t@, k, piece@),
        decreases last - i,
    {
        if matches_at(t, n, i, piece) {
            return true;
        }
        if i == last {
            break;
        }
        i = i + 1;
    }
    false
}

/// Whether `s`, lowered to ASCII small letters, is `lower`.
pub fn lowers_to_text(s: &str, lower: &str) -> (r: bool)
    ensures
        r == lowers_to(s@, lower@),
{
    let n = s.unicode_len();
    if n != lower.unicode_len() {
        return false;
    }
    let mut i: usize = 0;
    while i < n
        invariant
            n == s@.len(),
            n == lower@.len(),
            i <= n,
            forall|k: int| 0 <= k < i ==> same_letter(s@[k], lower@[k]),
        decreases n - i,
    {
        let c = s.get_char(i);
        let l = lower.get_char(i);
        let same = c == l || ('A' <= c && c <= 'Z' && (c as u32) + 32 == (l as u32));
        if !same {
            return false;
        }
        i = i + 1;
    }
    true
}

} // verus!
