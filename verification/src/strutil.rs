//! Verified string predicates used throughout the library: substring
//! containment (for target and exclude filters), prefix tests (for subtree
//! membership), equality, and trimming of blank characters.

use vstd::prelude::*;

verus! {

/// `needle` occurs in `hay` starting exactly at index `i`.
pub open spec fn matches_at(hay: Seq<char>, needle: Seq<char>, i: int) -> bool {
    0 <= i && i + needle.len() <= hay.len() && hay.subrange(i, i + needle.len() as int)
        == needle
}

/// `needle` occurs somewhere in `hay`.
pub open spec fn contains_seq(hay: Seq<char>, needle: Seq<char>) -> bool {
    exists|i: int| matches_at(hay, needle, i)
}

/// `p` is a prefix of `q`.
pub open spec fn seq_is_prefix(p: Seq<char>, q: Seq<char>) -> bool {
    p.len() <= q.len() && q.subrange(0, p.len() as int) == p
}

/// Whether `needle` occurs in `hay` at position `i`.
fn matches_at_exec(hay: &str, needle: &str, i: usize, n: usize) -> (r: bool)
    requires
        n == needle@.len(),
        i + n <= hay@.len(),
        i + n <= usize::MAX,
    ensures
        r == matches_at(hay@, needle@, i as int),
{
    let mut k: usize = 0;
    while k < n
        invariant
            n == needle@.len(),
            i + n <= hay@.len(),
            i + n <= usize::MAX,
            k <= n,
            forall|j: int| 0 <= j < k ==> hay@[i + j] == needle@[j],
        decreases n - k,
    {
        if hay.get_char(i + k) != needle.get_char(k) {
            proof {
                assert(!matches_at(hay@, needle@, i as int)) by {
                    if matches_at(hay@, needle@, i as int) {
                        assert(hay@.subrange(i as int, i + n)[k as int] == needle@[k as int]);
                    }
                }
            }
            return false;
        }
        k += 1;
    }
    proof {
        assert(hay@.subrange(i as int, i + n) =~= needle@);
    }
    true
}

/// Whether `needle` occurs anywhere in `hay` (the substring test behind the
/// target and exclude filters).
pub fn contains_substr(hay: &str, needle: &str) -> (r: bool)
    ensures
        r == contains_seq(hay@, needle@),
{
    let h = hay.unicode_len();
    let n = needle.unicode_len();
    if n > h {
        proof {
            assert(!contains_seq(hay@, needle@)) by {
                if contains_seq(hay@, needle@) {
                    let i = choose|i: int| matches_at(hay@, needle@, i);
                }
            }
        }
        return false;
    }
    if n == 0 {
        proof {
            assert(hay@.subrange(0, 0) =~= needle@);
            assert(matches_at(hay@, needle@, 0));
        }
        return true;
    }
    let mut i: usize = 0;
    while i <= h - n
        invariant
            h == hay@.len(),
            n == needle@.len(),
            1 <= n <= h,
            i <= h - n + 1,
            forall|j: int| 0 <= j < i ==> !matches_at(hay@, needle@, j),
        decreases h - i,
    {
        if matches_at_exec(hay, needle, i, n) {
            return true;
        }
        i += 1;
    }
    proof {
        assert(!contains_seq(hay@, needle@)) by {
            if contains_seq(hay@, needle@) {
                let j = choose|j: int| matches_at(hay@, needle@, j);
                assert(j < i);
            }
        }
    }
    false
}

/// Whether `p` is a prefix of `q` (subtree membership test on paths).
pub fn is_prefix_exec(p: &str, q: &str) -> (r: bool)
    ensures
        r == seq_is_prefix(p@, q@),
{
    let pl = p.unicode_len();
    let ql = q.unicode_len();
    if pl > ql {
        return false;
    }
    let mut k: usize = 0;
    while k < pl
        invariant
            pl == p@.len(),
            ql == q@.len(),
            pl <= ql,
            k <= pl,
            forall|j: int| 0 <= j < k ==> q@[j] == p@[j],
        decreases pl - k,
    {
        if q.get_char(k) != p.get_char(k) {
            proof {
                assert(!seq_is_prefix(p@, q@)) by {
                    if seq_is_prefix(p@, q@) {
                        assert(q@.subrange(0, pl as int)[k as int] == p@[k as int]);
                    }
                }
            }
            return false;
        }
        k += 1;
    }
    proof {
        assert(q@.subrange(0, pl as int) =~= p@);
    }
    true
}

/// Character-for-character string equality.
pub fn str_eq(a: &str, b: &str) -> (r: bool)
    ensures
        r == (a@ == b@),
{
    let al = a.unicode_len();
    let bl = b.unicode_len();
    if al != bl {
        return false;
    }
    let mut k: usize = 0;
    while k < al
        invariant
            al == a@.len(),
            bl == b@.len(),
            al == bl,
            k <= al,
            forall|j: int| 0 <= j < k ==> a@[j] == b@[j],
        decreases al - k,
    {
        if a.get_char(k) != b.get_char(k) {
            return false;
        }
        k += 1;
    }
    proof {
        assert(a@ =~= b@);
    }
    true
}

/// Blank characters stripped when reading an operator's reply: the ASCII
/// whitespace a terminal line can carry.
pub open spec fn is_blank(c: char) -> bool {
    c == ' ' || c == '\t' || c == '\n' || c == '\r'
}

/// The string with leading and trailing blanks removed.
pub open spec fn trim_spec(s: Seq<char>) -> Seq<char>
    decreases s.len(),
{
    if s.len() == 0 {
        s
    } else if is_blank(s.first()) {
        trim_spec(s.drop_first())
    } else if is_blank(s.last()) {
        trim_spec(s.drop_last())
    } else {
        s
    }
}

/// A string of blanks trims to nothing.
proof fn lemma_trim_all_blank(s: Seq<char>)
    requires
        forall|j: int| 0 <= j < s.len() ==> is_blank(s[j]),
    ensures
        trim_spec(s) == Seq::<char>::empty(),
    decreases s.len(),
{
    if s.len() == 0 {
        assert(s =~= Seq::<char>::empty());
    } else {
        lemma_trim_all_blank(s.drop_first());
    }
}

/// A window of `s` that has shed only blanks on both sides, and is itself
/// blank-free at its edges, is exactly the trimmed string.
proof fn lemma_trim_window(s: Seq<char>, lo: int, hi: int)
    requires
        0 <= lo <= hi <= s.len(),
        forall|j: int| 0 <= j < lo ==> is_blank(s[j]),
        forall|j: int| hi <= j < s.len() ==> is_blank(s[j]),
        lo < hi ==> !is_blank(s[lo]) && !is_blank(s[hi - 1]),
    ensures
        trim_spec(s) == s.subrange(lo, hi),
    decreases s.len(),
{
    if lo == hi {
        lemma_trim_all_blank(s);
        assert(s.subrange(lo, hi) =~= Seq::<char>::empty());
    } else if is_blank(s.first()) {
        assert(lo > 0);
        lemma_trim_window(s.drop_first(), lo - 1, hi - 1);
        assert(s.drop_first().subrange(lo - 1, hi - 1) =~= s.subrange(lo, hi));
    } else if is_blank(s.last()) {
        assert(hi < s.len());
        lemma_trim_window(s.drop_last(), lo, hi);
        assert(s.drop_last().subrange(lo, hi) =~= s.subrange(lo, hi));
    } else {
        assert(lo == 0);
        assert(hi == s.len());
        assert(s.subrange(lo, hi) =~= s);
    }
}

/// Strips leading and trailing blanks.
pub fn trim_blank(s: &str) -> (r: &str)
    ensures
        r@ == trim_spec(s@),
{
    let len = s.unicode_len();
    let mut lo: usize = 0;
    while lo < len && is_blank_exec(s.get_char(lo))
        invariant
            len == s@.len(),
            lo <= len,
            forall|j: int| 0 <= j < lo ==> is_blank(s@[j]),
        decreases len - lo,
    {
        lo += 1;
    }
    let mut hi: usize = len;
    while hi > lo && is_blank_exec(s.get_char(hi - 1))
        invariant
            len == s@.len(),
            lo <= hi <= len,
            forall|j: int| 0 <= j < lo ==> is_blank(s@[j]),
            forall|j: int| hi <= j < len ==> is_blank(s@[j]),
        decreases hi,
    {
        hi -= 1;
    }
    proof {
        if lo < hi {
            assert(!is_blank(s@[lo as int]));
            assert(!is_blank(s@[hi - 1]));
        }
        lemma_trim_window(s@, lo as int, hi as int);
    }
    s.substring_char(lo, hi)
}

fn is_blank_exec(c: char) -> (r: bool)
    ensures
        r == is_blank(c),
{
    c == ' ' || c == '\t' || c == '\n' || c == '\r'
}

/// A substring of a path is a substring of every path it prefixes: exclusion
/// carries down from a directory to all of its descendants.
pub proof fn lemma_contains_of_prefix(p: Seq<char>, q: Seq<char>, needle: Seq<char>)
    requires
        seq_is_prefix(p, q),
        contains_seq(p, needle),
    ensures
        contains_seq(q, needle),
{
    let i = choose|i: int| matches_at(p, needle, i);
    assert(forall|j: int| 0 <= j < p.len() ==> p[j] == #[trigger] q[j]) by {
        assert(forall|j: int|
            0 <= j < p.len() ==> p[j] == #[trigger] q.subrange(0, p.len() as int)[j]);
    }
    assert(q.subrange(i, i + needle.len() as int) =~= needle);
    assert(matches_at(q, needle, i));
}

/// The middle part of a three-way concatenation is recoverable, so two equal
/// concatenations with equal-length outer parts have equal middles.
pub proof fn lemma_concat_middle(a: Seq<char>, x: Seq<char>, b: Seq<char>)
    ensures
        (a + x + b).subrange(a.len() as int, a.len() + x.len() as int) == x,
{
    assert((a + x + b).subrange(a.len() as int, a.len() + x.len() as int) =~= x);
}

} // verus!
