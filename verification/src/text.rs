//! Character-level text utilities: trimming, prefix and substring tests.
//!
//! The transcription tool's captured output is judged line by line; these
//! primitives carry exact specifications over the character sequences so the
//! line filter's contract can pin its result down completely.

use vstd::prelude::*;

verus! {

/// The whitespace characters removed by trimming: the ASCII ones that the
/// tool's output can actually carry.
pub open spec fn is_space_char(c: char) -> bool {
    c == ' ' || c == '\t' || c == '\n' || c == '\r' || c == '\u{b}' || c == '\u{c}'
}

/// `s` with leading whitespace removed.
pub open spec fn trim_front(s: Seq<char>) -> Seq<char>
    decreases s.len(),
{
    if s.len() > 0 && is_space_char(s[0]) {
        trim_front(s.drop_first())
    } else {
        s
    }
}

/// `s` with trailing whitespace removed.
pub open spec fn trim_back(s: Seq<char>) -> Seq<char>
    decreases s.len(),
{
    if s.len() > 0 && is_space_char(s.last()) {
        trim_back(s.drop_last())
    } else {
        s
    }
}

/// `s` with whitespace removed at both ends.
pub open spec fn trim_of(s: Seq<char>) -> Seq<char> {
    trim_back(trim_front(s))
}

/// `p` stands at the start of `s`.
pub open spec fn starts_with(s: Seq<char>, p: Seq<char>) -> bool {
    p.len() <= s.len() && (forall|k: int| 0 <= k < p.len() ==> s[k] == p[k])
}

/// `p` stands in `s` at position `k`.
pub open spec fn matches_at(s: Seq<char>, p: Seq<char>, k: int) -> bool {
    0 <= k && k + p.len() <= s.len() && (forall|j: int| 0 <= j < p.len() ==> s[k + j] == p[j])
}

/// `p` stands somewhere in `s`.
pub open spec fn contains_seq(s: Seq<char>, p: Seq<char>) -> bool {
    exists|k: int| matches_at(s, p, k)
}

/// Whether one character is whitespace.
fn is_space(c: char) -> (r: bool)
    ensures
        r == is_space_char(c),
{
    c == ' ' || c == '\t' || c == '\n' || c == '\r' || c == '\u{b}' || c == '\u{c}'
}

/// Dropping one leading whitespace character does not change the
/// front-trimmed suffix.
proof fn lemma_trim_front_step(s: Seq<char>, i: int)
    requires
        0 <= i < s.len(),
        is_space_char(s[i]),
    ensures
        trim_front(s.subrange(i, s.len() as int)) == trim_front(
            s.subrange(i + 1, s.len() as int),
        ),
{
    let tail = s.subrange(i, s.len() as int);
    assert(tail.len() > 0 && is_space_char(tail[0]));
    assert(tail.drop_first() =~= s.subrange(i + 1, s.len() as int));
}

/// Dropping one trailing whitespace character does not change the
/// back-trimmed part.
proof fn lemma_trim_back_step(s: Seq<char>, i: int, j: int)
    requires
        0 <= i < j <= s.len(),
        is_space_char(s[j - 1]),
    ensures
        trim_back(s.subrange(i, j)) == trim_back(s.subrange(i, j - 1)),
{
    let part = s.subrange(i, j);
    assert(part.len() > 0 && is_space_char(part.last()));
    assert(part.drop_last() =~= s.subrange(i, j - 1));
}

/// Trims whitespace from both ends of `s`.
pub fn trim_str(s: &str) -> (r: String)
    ensures
        r@ == trim_of(s@),
{
    let n = s.unicode_len();
    proof {
        assert(s@.subrange(0, n as int) =~= s@);
    }
    let mut i: usize = 0;
    while i < n && is_space(s.get_char(i))
        invariant
            0 <= i <= n,
            n == s@.len(),
            trim_front(s@) == trim_front(s@.subrange(i as int, n as int)),
        decreases n - i,
    {
        proof {
            lemma_trim_front_step(s@, i as int);
        }
        i = i + 1;
    }
    proof {
        let rest = s@.subrange(i as int, n as int);
        if i < n {
            assert(!is_space_char(rest[0]));
        }
        assert(trim_front(rest) == rest);
        assert(trim_of(s@) == trim_back(s@.subrange(i as int, n as int)));
    }
    let mut j: usize = n;
    while j > i && is_space(s.get_char(j - 1))
        invariant
            0 <= i <= j <= n,
            n == s@.len(),
            trim_of(s@) == trim_back(s@.subrange(i as int, j as int)),
        decreases j,
    {
        proof {
            lemma_trim_back_step(s@, i as int, j as int);
        }
        j = j - 1;
    }
    proof {
        let part = s@.subrange(i as int, j as int);
        if j > i {
            assert(!is_space_char(part.last()));
        }
        assert(trim_back(part) == part);
    }
    let piece = s.substring_char(i, j);
    String::from_str(piece)
}

/// Whether `p` stands at the start of `s`.
pub fn starts_with_str(s: &str, p: &str) -> (r: bool)
    ensures
        r == starts_with(s@, p@),
{
    let sn = s.unicode_len();
    let pn = p.unicode_len();
    if pn > sn {
        return false;
    }
    let mut k: usize = 0;
    while k < pn
        invariant
            0 <= k <= pn <= sn,
            sn == s@.len(),
            pn == p@.len(),
            forall|m: int| 0 <= m < k ==> s@[m] == p@[m],
        decreases pn - k,
    {
        if s.get_char(k) != p.get_char(k) {
            return false;
        }
        k = k + 1;
    }
    true
}

/// Whether `p` stands somewhere in `s`.
pub fn contains_str(s: &str, p: &str) -> (r: bool)
    ensures
        r == contains_seq(s@, p@),
{
    let sn = s.unicode_len();
    let pn = p.unicode_len();
    if pn > sn {
        proof {
            assert(forall|k: int| !matches_at(s@, p@, k));
        }
        return false;
    }
    let mut k: usize = 0;
    while k <= sn - pn
        invariant
            0 <= k <= sn - pn + 1,
            pn <= sn,
            sn == s@.len(),
            pn == p@.len(),
            forall|m: int| 0 <= m < k ==> !matches_at(s@, p@, m),
        decreases sn - pn + 1 - k,
    {
        let mut j: usize = 0;
        let mut hit = true;
        while j < pn
            invariant
                0 <= j <= pn,
                0 <= k <= sn - pn,
                pn <= sn,
                sn == s@.len(),
                pn == p@.len(),
                hit ==> (forall|m: int| 0 <= m < j ==> s@[k + m] == p@[m]),
                !hit ==> !matches_at(s@, p@, k as int),
            decreases pn - j,
        {
            if s.get_char(k + j) != p.get_char(j) {
                proof {
                    assert(!matches_at(s@, p@, k as int));
                }
                hit = false;
                j = pn;
            } else {
                j = j + 1;
            }
        }
        if hit {
            proof {
                assert(matches_at(s@, p@, k as int));
            }
            return true;
        }
        k = k + 1;
    }
    proof {
        assert(forall|m: int| matches_at(s@, p@, m) ==> 0 <= m <= sn - pn);
    }
    false
}

/// Whether two string slices hold the same characters.
pub fn str_eq(s: &str, t: &str) -> (r: bool)
    ensures
        r == (s@ == t@),
{
    let sn = s.unicode_len();
    let tn = t.unicode_len();
    if sn != tn {
        return false;
    }
    let mut k: usize = 0;
    while k < sn
        invariant
            0 <= k <= sn,
            sn == s@.len(),
            sn == t@.len(),
            forall|m: int| 0 <= m < k ==> s@[m] == t@[m],
        decreases sn - k,
    {
        if s.get_char(k) != t.get_char(k) {
            return false;
        }
        k = k + 1;
    }
    proof {
        assert(s@ =~= t@);
    }
    true
}

} // verus!
