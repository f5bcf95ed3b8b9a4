//! Verified string utilities: lexicographic comparison of character
//! sequences (the order the article sort uses), substring search (the basis
//! of source classification), and file-name stem extraction.

use vstd::prelude::*;

verus! {

/// Lexicographic "strictly less" on the suffixes of `a` and `b` that start
/// at position `i`, comparing characters by code point.
pub open spec fn lex_lt_from(a: Seq<char>, b: Seq<char>, i: int) -> bool
    decreases a.len() - i,
{
    if i >= b.len() {
        false
    } else if i >= a.len() {
        true
    } else if a[i] != b[i] {
        (a[i] as int) < (b[i] as int)
    } else {
        lex_lt_from(a, b, i + 1)
    }
}

/// Lexicographic "strictly less" on character sequences.
pub open spec fn lex_lt(a: Seq<char>, b: Seq<char>) -> bool {
    lex_lt_from(a, b, 0)
}

/// `lex_lt` is irreflexive.
pub proof fn lemma_lex_irrefl(a: Seq<char>, i: int)
    ensures
        !lex_lt_from(a, a, i),
    decreases a.len() - i,
{
    if i < a.len() {
        lemma_lex_irrefl(a, i + 1);
    }
}

/// At most one of `a < b` and `b < a` holds.
pub proof fn lemma_lex_asym(a: Seq<char>, b: Seq<char>, i: int)
    ensures
        !(lex_lt_from(a, b, i) && lex_lt_from(b, a, i)),
    decreases a.len() - i,
{
    if i < a.len() && i < b.len() && a[i] == b[i] {
        lemma_lex_asym(a, b, i + 1);
    }
}

/// If neither `a < b` nor `b < a` holds from position `i` on, the suffixes
/// agree character for character.
pub proof fn lemma_lex_connex(a: Seq<char>, b: Seq<char>, i: int)
    requires
        0 <= i <= a.len(),
        0 <= i <= b.len(),
        !lex_lt_from(a, b, i),
        !lex_lt_from(b, a, i),
    ensures
        a.len() == b.len(),
        forall|j: int| i <= j < a.len() ==> a[j] == b[j],
    decreases a.len() - i,
{
    if i < a.len() && i < b.len() {
        lemma_lex_connex(a, b, i + 1);
    }
}

/// Transitivity of lexicographic "strictly less".
pub proof fn lemma_lex_trans(a: Seq<char>, b: Seq<char>, c: Seq<char>, i: int)
    requires
        lex_lt_from(a, b, i),
        lex_lt_from(b, c, i),
    ensures
        lex_lt_from(a, c, i),
    decreases b.len() - i,
{
    if i < a.len() && i < b.len() && i < c.len() && a[i] == b[i] && b[i] == c[i] {
        lemma_lex_trans(a, b, c, i + 1);
    }
}

/// Where the first `i` characters agree, the comparison is decided by the
/// suffixes from position `i` on.
pub proof fn lemma_lex_common_prefix(a: Seq<char>, b: Seq<char>, i: int)
    requires
        0 <= i <= a.len(),
        i <= b.len(),
        forall|j: int| 0 <= j < i ==> a[j] == b[j],
    ensures
        lex_lt_from(a, b, 0) == lex_lt_from(a, b, i),
    decreases i,
{
    if i > 0 {
        lemma_lex_common_prefix(a, b, i - 1);
    }
}

/// Executable lexicographic comparison, by code point.
pub fn str_lex_lt(a: &str, b: &str) -> (r: bool)
    ensures
        r == lex_lt(a@, b@),
{
    let alen = a.unicode_len();
    let blen = b.unicode_len();
    let mut i: usize = 0;
    loop
        invariant
            0 <= i <= alen,
            0 <= i <= blen,
            alen == a@.len(),
            blen == b@.len(),
            lex_lt(a@, b@) == lex_lt_from(a@, b@, i as int),
        decreases alen - i,
    {
        if i >= blen {
            return false;
        }
        if i >= alen {
            return true;
        }
        let ca = a.get_char(i);
        let cb = b.get_char(i);
        if ca != cb {
            return (ca as u32) < (cb as u32);
        }
        i = i + 1;
    }
}

/// `pat` occurs in `s` starting at position `i`.
pub open spec fn matches_at(s: Seq<char>, pat: Seq<char>, i: int) -> bool {
    &&& 0 <= i
    &&& i + pat.len() <= s.len()
    &&& forall|j: int| 0 <= j < pat.len() ==> s[i + j] == pat[j]
}

/// `pat` occurs somewhere in `s`.
pub open spec fn has_substring(s: Seq<char>, pat: Seq<char>) -> bool {
    exists|i: int| matches_at(s, pat, i)
}

/// Executable substring search.
pub fn str_contains(s: &str, pat: &str) -> (r: bool)
    ensures
        r == has_substring(s@, pat@),
{
    let slen = s.unicode_len();
    let plen = pat.unicode_len();
    if plen > slen {
        assert(forall|i: int| !matches_at(s@, pat@, i));
        return false;
    }
    let mut i: usize = 0;
    loop
        invariant
            0 <= i <= slen - plen + 1,
            slen == s@.len(),
            plen == pat@.len(),
            plen <= slen,
            forall|k: int| 0 <= k < i ==> !matches_at(s@, pat@, k),
        decreases slen - i,
    {
        if i > slen - plen {
            assert(forall|k: int| !matches_at(s@, pat@, k));
            return false;
        }
        let mut j: usize = 0;
        let mut mismatch = false;
        while j < plen
            invariant
                0 <= j <= plen,
                i + plen <= slen,
                slen == s@.len(),
                plen == pat@.len(),
                !mismatch ==> forall|q: int| 0 <= q < j ==> s@[i + q] == pat@[q],
                mismatch ==> !matches_at(s@, pat@, i as int),
            decreases plen - j,
        {
            if !mismatch {
                let cs = s.get_char(i + j);
                let cp = pat.get_char(j);
                if cs != cp {
                    mismatch = true;
                }
            }
            j = j + 1;
        }
        if !mismatch {
            assert(matches_at(s@, pat@, i as int));
            return true;
        }
        i = i + 1;
    }
}

/// Index of the first `.` in `s` from position `i` on, or the length of `s`
/// if there is none.
pub open spec fn first_dot_from(s: Seq<char>, i: int) -> int
    decreases s.len() - i,
{
    if i >= s.len() {
        s.len() as int
    } else if s[i] == '.' {
        i
    } else {
        first_dot_from(s, i + 1)
    }
}

/// The stem of a file name: everything before the first `.`, or the whole
/// name if it has none.
pub open spec fn spec_stem(s: Seq<char>) -> Seq<char> {
    s.take(first_dot_from(s, 0))
}

/// Executable stem extraction.
pub fn file_stem(name: &str) -> (r: String)
    ensures
        r@ == spec_stem(name@),
{
    let len = name.unicode_len();
    let mut i: usize = 0;
    loop
        invariant
            0 <= i <= len,
            len == name@.len(),
            first_dot_from(name@, 0) == first_dot_from(name@, i as int),
        ensures
            0 <= i <= len,
            first_dot_from(name@, 0) == i as int,
        decreases len - i,
    {
        if i >= len {
            assert(first_dot_from(name@, i as int) == len);
            break;
        }
        if name.get_char(i) == '.' {
            assert(first_dot_from(name@, i as int) == i);
            break;
        }
        i = i + 1;
    }
    let part = name.substring_char(0, i);
    assert(part@ =~= spec_stem(name@));
    part.to_owned()
}

} // verus!
