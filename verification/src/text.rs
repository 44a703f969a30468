//! Character-level text utilities.
//!
//! The engine stores and parses plain text, so the few primitive scans it
//! needs (equality, first occurrence of a character or of a substring,
//! lexicographic order, prefixes) are implemented here against `Seq<char>`
//! models.

use vstd::prelude::*;

verus! {

/// First index `i >= from` with `s[i] == c`, if any.
pub open spec fn find_from(s: Seq<char>, c: char, from: int) -> Option<int>
    decreases s.len() - from,
{
    if from < 0 || from >= s.len() {
        None
    } else if s[from] == c {
        Some(from)
    } else {
        find_from(s, c, from + 1)
    }
}

proof fn lemma_find_from_step(s: Seq<char>, c: char, from: int)
    requires
        0 <= from < s.len(),
        s[from] != c,
    ensures
        find_from(s, c, from) == find_from(s, c, from + 1),
{
}

/// First index of `c` in `s`, scanning from `from`.
pub fn find_char_from(s: &str, c: char, from: usize) -> (r: Option<usize>)
    requires
        from <= s@.len(),
    ensures
        r matches Some(i) ==> from <= i < s@.len() && s@[i as int] == c && find_from(
            s@,
            c,
            from as int,
        ) == Some(i as int),
        r is None ==> find_from(s@, c, from as int) is None,
{
    let n: usize = s.unicode_len();
    let mut i: usize = from;
    while i < n
        invariant
            from <= i <= n,
            n == s@.len(),
            find_from(s@, c, from as int) == find_from(s@, c, i as int),
        decreases n - i,
    {
        if s.get_char(i) == c {
            return Some(i);
        }
        proof {
            lemma_find_from_step(s@, c, i as int);
        }
        i = i + 1;
    }
    None
}

/// First index of `c` in `s`.
pub fn find_char(s: &str, c: char) -> (r: Option<usize>)
    ensures
        r matches Some(i) ==> i < s@.len() && s@[i as int] == c && find_from(s@, c, 0) == Some(
            i as int,
        ),
        r is None ==> find_from(s@, c, 0) is None,
{
    find_char_from(s, c, 0)
}

/// Character-for-character equality of two string slices.
pub fn str_eq(a: &str, b: &str) -> (r: bool)
    ensures
        r == (a@ == b@),
{
    let n: usize = a.unicode_len();
    let m: usize = b.unicode_len();
    if n != m {
        assert(a@ != b@) by {
            assert(a@.len() != b@.len());
        }
        return false;
    }
    let mut i: usize = 0;
    while i < n
        invariant
            0 <= i <= n,
            n == a@.len(),
            n == b@.len(),
            forall|j: int| 0 <= j < i ==> a@[j] == b@[j],
        decreases n - i,
    {
        if s_get(a, i) != s_get(b, i) {
            return false;
        }
        i = i + 1;
    }
    proof {
        assert(a@ =~= b@);
    }
    true
}

/// `get_char`, named so calls read naturally beside the spec index.
fn s_get(s: &str, i: usize) -> (c: char)
    requires
        i < s@.len(),
    ensures
        c == s@[i as int],
{
    s.get_char(i)
}

/// `p` occurs in `s` starting at index `i`.
pub open spec fn matches_at(s: Seq<char>, p: Seq<char>, i: int) -> bool {
    0 <= i && i + p.len() <= s.len() && s.subrange(i, i + p.len() as int) == p
}

/// First index `i >= from` where `p` occurs in `s`, if any.
pub open spec fn find_sub_from(s: Seq<char>, p: Seq<char>, from: int) -> Option<int>
    decreases s.len() - from,
{
    if from < 0 || from + p.len() > s.len() {
        None
    } else if p.len() == 0 {
        Some(from)
    } else if matches_at(s, p, from) {
        Some(from)
    } else {
        find_sub_from(s, p, from + 1)
    }
}

proof fn lemma_find_sub_from_step(s: Seq<char>, p: Seq<char>, from: int)
    requires
        0 <= from,
        0 < p.len(),
        from + p.len() <= s.len(),
        !matches_at(s, p, from),
    ensures
        find_sub_from(s, p, from) == find_sub_from(s, p, from + 1),
{
}

/// First index where `p` occurs in `s`.
pub fn find_sub(s: &str, p: &str) -> (r: Option<usize>)
    ensures
        r matches Some(i) ==> i + p@.len() <= s@.len() && matches_at(s@, p@, i as int)
            && find_sub_from(s@, p@, 0) == Some(i as int),
        r is None ==> find_sub_from(s@, p@, 0) is None,
{
    let n: usize = s.unicode_len();
    let m: usize = p.unicode_len();
    if m > n {
        return None;
    }
    if m == 0 {
        assert(s@.subrange(0, 0) =~= p@);
        return Some(0);
    }
    let mut i: usize = 0;
    while i <= n - m
        invariant
            0 <= i <= n - m + 1,
            0 < m <= n,
            n == s@.len(),
            m == p@.len(),
            find_sub_from(s@, p@, 0) == find_sub_from(s@, p@, i as int),
        decreases n - i,
    {
        let window: &str = s.substring_char(i, i + m);
        if str_eq(window, p) {
            assert(matches_at(s@, p@, i as int));
            return Some(i);
        }
        proof {
            lemma_find_sub_from_step(s@, p@, i as int);
        }
        i = i + 1;
    }
    None
}

/// `s` begins with `p`.
pub open spec fn starts_with_spec(s: Seq<char>, p: Seq<char>) -> bool {
    p.len() <= s.len() && s.subrange(0, p.len() as int) == p
}

/// Prefix test.
pub fn starts_with(s: &str, p: &str) -> (r: bool)
    ensures
        r == starts_with_spec(s@, p@),
{
    let n: usize = s.unicode_len();
    let m: usize = p.unicode_len();
    if m > n {
        return false;
    }
    let head: &str = s.substring_char(0, m);
    str_eq(head, p)
}

/// Lexicographic order on character sequences, by code point, with a proper
/// prefix ordered before its extensions.  Plain-string version comparison
/// uses this order; it is not a semantic version order (for example it puts
/// `"0.10.0"` before `"0.9.0"`), which mirrors how stored schema versions
/// are compared.
pub open spec fn lex_lt(a: Seq<char>, b: Seq<char>) -> bool
    decreases a.len(),
{
    if b.len() == 0 {
        false
    } else if a.len() == 0 {
        true
    } else if a[0] == b[0] {
        lex_lt(a.drop_first(), b.drop_first())
    } else {
        (a[0] as u32) < (b[0] as u32)
    }
}

proof fn lemma_lex_lt_unfold(a: Seq<char>, b: Seq<char>, i: int)
    requires
        0 <= i <= a.len(),
        0 <= i <= b.len(),
        forall|j: int| 0 <= j < i ==> a[j] == b[j],
    ensures
        lex_lt(a, b) == lex_lt(a.skip(i), b.skip(i)),
    decreases i,
{
    if i > 0 {
        assert(a.skip(i - 1).drop_first() =~= a.skip(i));
        assert(b.skip(i - 1).drop_first() =~= b.skip(i));
        lemma_lex_lt_unfold(a, b, i - 1);
        assert(a.skip(i - 1).len() > 0);
        assert(b.skip(i - 1).len() > 0);
        assert(a.skip(i - 1)[0] == a[i - 1]);
        assert(b.skip(i - 1)[0] == b[i - 1]);
        assert(lex_lt(a.skip(i - 1), b.skip(i - 1)) == lex_lt(a.skip(i), b.skip(i)));
    } else {
        assert(a.skip(0) =~= a);
        assert(b.skip(0) =~= b);
    }
}

/// Lexicographic comparison of two string slices.
pub fn str_lt(a: &str, b: &str) -> (r: bool)
    ensures
        r == lex_lt(a@, b@),
{
    let n: usize = a.unicode_len();
    let m: usize = b.unicode_len();
    let mut i: usize = 0;
    loop
        invariant
            0 <= i,
            i <= n,
            i <= m,
            n == a@.len(),
            m == b@.len(),
            forall|j: int| 0 <= j < i ==> a@[j] == b@[j],
        decreases n - i,
    {
        proof {
            lemma_lex_lt_unfold(a@, b@, i as int);
        }
        if i >= m {
            assert(b@.skip(i as int).len() == 0);
            return false;
        }
        if i >= n {
            assert(a@.skip(i as int).len() == 0);
            assert(b@.skip(i as int).len() > 0);
            return true;
        }
        let ca: char = s_get(a, i);
        let cb: char = s_get(b, i);
        if ca != cb {
            assert(a@.skip(i as int)[0] == a@[i as int]);
            assert(b@.skip(i as int)[0] == b@[i as int]);
            return (ca as u32) < (cb as u32);
        }
        i = i + 1;
    }
}

} // verus!
