//! Character-level string helpers shared by the endpoint and rate-limit logic.

use vstd::prelude::*;

verus! {

/// Whether `s` ends with `suffix`.
pub open spec fn ends_with(s: Seq<char>, suffix: Seq<char>) -> bool {
    suffix.len() <= s.len() && s.subrange(s.len() - suffix.len(), s.len() as int) == suffix
}

/// `s` with every trailing `c` removed.
pub open spec fn trim_end(s: Seq<char>, c: char) -> Seq<char>
    decreases s.len(),
{
    if s.len() > 0 && s.last() == c {
        trim_end(s.drop_last(), c)
    } else {
        s
    }
}

/// Trimming a prefix of `s` that is followed only by `c` gives the trimmed `s`.
proof fn lemma_trim_end_prefix(s: Seq<char>, c: char, k: int)
    requires
        0 <= k <= s.len(),
        forall|i: int| k <= i < s.len() ==> s[i] == c,
    ensures
        trim_end(s.take(k), c) == trim_end(s, c),
    decreases s.len() - k,
{
    if k < s.len() {
        lemma_trim_end_prefix(s, c, k + 1);
        assert(s.take(k + 1).drop_last() =~= s.take(k));
    } else {
        assert(s.take(k) =~= s);
    }
}

/// Trimming removes exactly the trailing run of `c`: what remains is a prefix of `s`,
/// every removed character is `c`, and what remains does not end with `c`.
pub proof fn lemma_trim_end_removes_trailing_run(s: Seq<char>, c: char)
    ensures
        trim_end(s, c).len() <= s.len(),
        s.take(trim_end(s, c).len() as int) == trim_end(s, c),
        forall|i: int| trim_end(s, c).len() <= i < s.len() ==> s[i] == c,
        trim_end(s, c).len() > 0 ==> trim_end(s, c).last() != c,
    decreases s.len(),
{
    if s.len() > 0 && s.last() == c {
        let rest = s.drop_last();
        lemma_trim_end_removes_trailing_run(rest, c);
        let t = trim_end(s, c);
        assert(t == trim_end(rest, c));
        assert(s.take(t.len() as int) =~= rest.take(t.len() as int));
        assert forall|i: int| t.len() <= i < s.len() implies s[i] == c by {
            if i < rest.len() {
                assert(s[i] == rest[i]);
            }
        }
    } else {
        assert(s.take(s.len() as int) =~= s);
    }
}

/// The characters of `s`, in order.
pub fn chars_of(s: &str) -> (out: Vec<char>)
    ensures
        out@ == s@,
{
    let mut out: Vec<char> = Vec::new();
    for c in it: s.chars()
        invariant
            out@ == it.seq().take(it.index() as int),
            it.seq() == s@,
    {
        out.push(c);
    }
    out
}

/// Whether two strings hold the same characters.
pub fn str_equal(a: &str, b: &str) -> (equal: bool)
    ensures
        equal == (a@ == b@),
{
    let left = chars_of(a);
    let right = chars_of(b);
    if left.len() != right.len() {
        return false;
    }
    let mut i: usize = 0;
    while i < left.len()
        invariant
            left@ == a@,
            right@ == b@,
            left.len() == right.len(),
            i <= left.len(),
            forall|j: int| 0 <= j < i ==> left@[j] == right@[j],
        decreases left.len() - i,
    {
        if left[i] != right[i] {
            return false;
        }
        i = i + 1;
    }
    assert(a@ =~= b@);
    true
}

/// Whether `s` ends with `suffix`.
pub fn str_ends_with(s: &str, suffix: &str) -> (res: bool)
    ensures
        res == ends_with(s@, suffix@),
{
    let whole = chars_of(s);
    let tail = chars_of(suffix);
    if tail.len() > whole.len() {
        return false;
    }
    let offset = whole.len() - tail.len();
    let mut i: usize = 0;
    while i < tail.len()
        invariant
            whole@ == s@,
            tail@ == suffix@,
            offset + tail.len() == whole.len(),
            i <= tail.len(),
            forall|j: int| 0 <= j < i ==> whole@[offset + j] == tail@[j],
        decreases tail.len() - i,
    {
        if whole[offset + i] != tail[i] {
            assert(s@.subrange(offset as int, s@.len() as int)[i as int] != suffix@[i as int]);
            return false;
        }
        i = i + 1;
    }
    assert(s@.subrange(offset as int, s@.len() as int) =~= suffix@);
    true
}

/// `s` with every trailing `c` removed.
pub fn str_trim_end<'a>(s: &'a str, c: char) -> (res: &'a str)
    ensures
        res@ == trim_end(s@, c),
{
    let chars = chars_of(s);
    let mut k: usize = chars.len();
    while k > 0 && chars[k - 1] == c
        invariant
            chars@ == s@,
            k <= chars.len(),
            forall|i: int| k <= i < chars.len() ==> chars@[i] == c,
        decreases k,
    {
        k = k - 1;
    }
    proof {
        lemma_trim_end_prefix(s@, c, k as int);
        assert(trim_end(s@.take(k as int), c) == s@.take(k as int));
    }
    s.substring_char(0, k)
}

} // verus!
