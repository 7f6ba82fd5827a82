//! Character-level helpers on strings: prefix tests and substring replacement.

use vstd::prelude::*;
use vstd::string::*;

verus! {

/// The result of replacing, from left to right, every non-overlapping
/// occurrence of `pat` in `s` by `rep`. An empty pattern replaces nothing.
pub open spec fn replaced(s: Seq<char>, pat: Seq<char>, rep: Seq<char>) -> Seq<char>
    decreases s.len(),
{
    if pat.len() == 0 || s.len() < pat.len() {
        s
    } else if pat.is_prefix_of(s) {
        rep + replaced(s.subrange(pat.len() as int, s.len() as int), pat, rep)
    } else {
        seq![s[0]] + replaced(s.subrange(1, s.len() as int), pat, rep)
    }
}

/// Whether `pat` occurs in `s` at position `at`.
pub open spec fn occurs_at(s: Seq<char>, pat: Seq<char>, at: int) -> bool {
    0 <= at && at + pat.len() <= s.len() && s.subrange(at, at + pat.len()) == pat
}

/// Whether `pat` occurs somewhere in `s`.
pub open spec fn has_occurrence(s: Seq<char>, pat: Seq<char>) -> bool {
    exists|at: int| occurs_at(s, pat, at)
}

/// Whether `a` comes before `b`, or equals it, in the lexicographic order of
/// their characters' code points.
pub open spec fn lex_le(a: Seq<char>, b: Seq<char>) -> bool
    decreases a.len(),
{
    if a.len() == 0 {
        true
    } else if b.len() == 0 {
        false
    } else if a[0] != b[0] {
        (a[0] as u32) < (b[0] as u32)
    } else {
        lex_le(a.subrange(1, a.len() as int), b.subrange(1, b.len() as int))
    }
}

/// Whether two strings hold the same characters.
pub fn same_text(a: &str, b: &str) -> (r: bool)
    ensures
        r == (a@ == b@),
{
    let n: usize = a.unicode_len();
    if b.unicode_len() != n {
        return false;
    }
    let mut i: usize = 0;
    while i < n
        invariant
            i <= n,
            n == a@.len(),
            n == b@.len(),
            forall|k: int| 0 <= k < i ==> a@[k] == b@[k],
        decreases n - i,
    {
        if a.get_char(i) != b.get_char(i) {
            return false;
        }
        i = i + 1;
    }
    assert(a@ =~= b@);
    true
}

/// Whether `s` begins with `prefix`.
pub fn starts_with(s: &str, prefix: &str) -> (r: bool)
    ensures
        r == prefix@.is_prefix_of(s@),
{
    let n: usize = s.unicode_len();
    let m: usize = prefix.unicode_len();
    if m > n {
        return false;
    }
    same_text(s.substring_char(0, m), prefix)
}

/// Replaces every non-overlapping occurrence of `pat` in `s` by `rep`,
/// scanning from the left.
pub fn replace_all(s: &str, pat: &str, rep: &str) -> (out: String)
    ensures
        out@ == replaced(s@, pat@, rep@),
{
    let n: usize = s.unicode_len();
    let m: usize = pat.unicode_len();
    if m == 0 {
        return String::from_str(s);
    }
    let mut out = String::new();
    let mut i: usize = 0;
    assert(s@.subrange(0, n as int) =~= s@);
    while i < n
        invariant
            i <= n,
            n == s@.len(),
            m == pat@.len(),
            m > 0,
            replaced(s@, pat@, rep@) == out@ + replaced(s@.subrange(i as int, n as int), pat@, rep@),
        decreases n - i,
    {
        let ghost rest = s@.subrange(i as int, n as int);
        if m <= n - i && same_text(s.substring_char(i, i + m), pat) {
            proof {
                assert(rest.subrange(0, m as int) =~= s@.subrange(i as int, i + m));
                assert(rest.subrange(m as int, rest.len() as int) =~= s@.subrange(i + m, n as int));
            }
            out.append(rep);
            i = i + m;
        } else {
            proof {
                if m <= n - i {
                    assert(rest.subrange(0, m as int) =~= s@.subrange(i as int, i + m));
                }
                assert(rest.subrange(1, rest.len() as int) =~= s@.subrange(i + 1, n as int));
                assert(seq![rest[0]] =~= s@.subrange(i as int, i + 1));
            }
            out.append(s.substring_char(i, i + 1));
            i = i + 1;
        }
    }
    out
}

/// Whether `pat` occurs somewhere in `s`.
pub fn contains(s: &str, pat: &str) -> (r: bool)
    ensures
        r == has_occurrence(s@, pat@),
{
    let n: usize = s.unicode_len();
    let m: usize = pat.unicode_len();
    if m > n {
        return false;
    }
    let last: usize = n - m;
    let mut i: usize = 0;
    while i < last
        invariant
            i <= last,
            last == n - m,
            m <= n,
            n == s@.len(),
            m == pat@.len(),
            forall|at: int| 0 <= at < i ==> !occurs_at(s@, pat@, at),
        decreases last - i,
    {
        if same_text(s.substring_char(i, i + m), pat) {
            assert(occurs_at(s@, pat@, i as int));
            return true;
        }
        i = i + 1;
    }
    let found = same_text(s.substring_char(last, n), pat);
    assert(found == occurs_at(s@, pat@, last as int));
    found
}

/// Whether the character `c` occurs in `s`.
pub fn contains_char(s: &str, c: char) -> (r: bool)
    ensures
        r == s@.contains(c),
{
    let n: usize = s.unicode_len();
    let mut i: usize = 0;
    while i < n
        invariant
            i <= n,
            n == s@.len(),
            forall|k: int| 0 <= k < i ==> s@[k] != c,
        decreases n - i,
    {
        if s.get_char(i) == c {
            return true;
        }
        i = i + 1;
    }
    false
}

/// Whether `a` sorts before `b`, or equals it.
pub fn sorts_first(a: &str, b: &str) -> (r: bool)
    ensures
        r == lex_le(a@, b@),
{
    let n: usize = a.unicode_len();
    let m: usize = b.unicode_len();
    let mut i: usize = 0;
    assert(a@.subrange(0, n as int) =~= a@);
    assert(b@.subrange(0, m as int) =~= b@);
    while i < n && i < m
        invariant
            i <= n,
            i <= m,
            n == a@.len(),
            m == b@.len(),
            lex_le(a@, b@) == lex_le(a@.subrange(i as int, n as int), b@.subrange(i as int, m as int)),
        decreases n - i,
    {
        let ghost ra = a@.subrange(i as int, n as int);
        let ghost rb = b@.subrange(i as int, m as int);
        let ca = a.get_char(i);
        let cb = b.get_char(i);
        assert(ra[0] == ca && rb[0] == cb);
        if ca != cb {
            return (ca as u32) < (cb as u32);
        }
        assert(ra.subrange(1, ra.len() as int) =~= a@.subrange(i + 1, n as int));
        assert(rb.subrange(1, rb.len() as int) =~= b@.subrange(i + 1, m as int));
        i = i + 1;
    }
    i == n
}

/// Where the pattern occurs nowhere, replacing changes nothing.
pub proof fn lemma_replaced_without_occurrence(s: Seq<char>, pat: Seq<char>, rep: Seq<char>)
    requires
        forall|at: int| !occurs_at(s, pat, at),
    ensures
        replaced(s, pat, rep) == s,
    decreases s.len(),
{
    if pat.len() > 0 && s.len() >= pat.len() {
        assert(!occurs_at(s, pat, 0));
        let tail = s.subrange(1, s.len() as int);
        assert forall|at: int| !occurs_at(tail, pat, at) by {
            if occurs_at(tail, pat, at) {
                assert(s.subrange(at + 1, at + 1 + pat.len()) =~= tail.subrange(
                    at,
                    at + pat.len(),
                ));
                assert(occurs_at(s, pat, at + 1));
            }
        }
        lemma_replaced_without_occurrence(tail, pat, rep);
        assert(seq![s[0]] + tail =~= s);
    }
}

/// Where the pattern's first occurrence in `before + pat + after` is the one
/// behind `before`, replacing keeps `before`, puts `rep` for that occurrence
/// and goes on in `after`.
pub proof fn lemma_replaced_at_first_occurrence(
    before: Seq<char>,
    pat: Seq<char>,
    rep: Seq<char>,
    after: Seq<char>,
)
    requires
        pat.len() > 0,
        forall|at: int| 0 <= at < before.len() ==> !occurs_at(before + pat + after, pat, at),
    ensures
        replaced(before + pat + after, pat, rep) == before + rep + replaced(after, pat, rep),
    decreases before.len(),
{
    let s = before + pat + after;
    if before.len() == 0 {
        assert(s.subrange(0, pat.len() as int) =~= pat);
        assert(s.subrange(pat.len() as int, s.len() as int) =~= after);
        assert(before + rep + replaced(after, pat, rep) =~= rep + replaced(after, pat, rep));
    } else {
        assert(!occurs_at(s, pat, 0));
        let shorter = before.subrange(1, before.len() as int);
        let tail = s.subrange(1, s.len() as int);
        assert(tail =~= shorter + pat + after);
        assert forall|at: int| 0 <= at < shorter.len() implies !occurs_at(
            shorter + pat + after,
            pat,
            at,
        ) by {
            if occurs_at(tail, pat, at) {
                assert(s.subrange(at + 1, at + 1 + pat.len()) =~= tail.subrange(
                    at,
                    at + pat.len(),
                ));
                assert(occurs_at(s, pat, at + 1));
            }
        }
        lemma_replaced_at_first_occurrence(shorter, pat, rep, after);
        assert(seq![s[0]] + (shorter + rep + replaced(after, pat, rep)) =~= before + rep
            + replaced(after, pat, rep));
    }
}

} // verus!
