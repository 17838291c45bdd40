//! Character-level helpers shared by the other modules.

use vstd::prelude::*;
use vstd::std_specs::iter::IteratorSpec;

verus! {

/// Collects the characters of `s` into a vector, in order.
pub fn chars_of(s: &str) -> (v: Vec<char>)
    ensures
        v@ == s@,
{
    let mut v: Vec<char> = Vec::new();
    for c in it: s.chars()
        invariant
            it.seq() == s@,
            v@ == s@.take(it.index() as int),
    {
        v.push(c);
        assert(s@.take(it.index() + 1) == s@.take(it.index() as int).push(s@[it.index() as int]));
    }
    assert(s@.take(s@.len() as int) == s@);
    v
}

/// Tests whether two texts hold the same characters.
pub fn same_text(a: &str, b: &str) -> (same: bool)
    ensures
        same == (a@ == b@),
{
    let left = a.to_owned();
    let right = b.to_owned();
    left == right
}

/// The characters of a text that may be missing.
pub open spec fn text_of(value: Option<String>) -> Option<Seq<char>> {
    match value {
        Some(s) => Some(s@),
        None => None,
    }
}

/// Whether `needle` stands in `hay` starting at position `i`.
pub open spec fn occurs_at(hay: Seq<char>, needle: Seq<char>, i: int) -> bool {
    0 <= i && i + needle.len() <= hay.len() && hay.subrange(i, i + needle.len()) == needle
}

/// Whether `needle` stands somewhere in `hay` as a contiguous run.
pub open spec fn contains_text(hay: Seq<char>, needle: Seq<char>) -> bool {
    exists|i: int| occurs_at(hay, needle, i)
}

/// Whether `s` ends in `suffix`.
pub open spec fn ends_with(s: Seq<char>, suffix: Seq<char>) -> bool {
    occurs_at(s, suffix, s.len() - suffix.len())
}

/// `s` with every trailing repetition of `suffix` removed. An empty suffix
/// removes nothing.
pub open spec fn trim_end(s: Seq<char>, suffix: Seq<char>) -> Seq<char>
    decreases s.len(),
{
    if suffix.len() > 0 && ends_with(s, suffix) {
        trim_end(s.take(s.len() - suffix.len()), suffix)
    } else {
        s
    }
}

/// What is left after trimming is the start of the text, and no longer ends
/// in the suffix.
pub proof fn lemma_trim_end_is_prefix(s: Seq<char>, suffix: Seq<char>)
    ensures
        trim_end(s, suffix).len() <= s.len(),
        trim_end(s, suffix) == s.take(trim_end(s, suffix).len() as int),
        suffix.len() > 0 ==> !ends_with(trim_end(s, suffix), suffix),
    decreases s.len(),
{
    if suffix.len() > 0 && ends_with(s, suffix) {
        let shorter = s.take(s.len() - suffix.len());
        lemma_trim_end_is_prefix(shorter, suffix);
        let kept = trim_end(shorter, suffix).len() as int;
        assert(shorter.take(kept) == s.take(kept));
    } else {
        assert(s.take(s.len() as int) == s);
    }
}

/// Tests whether `needle` stands in `hay` at position `i`.
pub fn matches_at(hay: &Vec<char>, needle: &Vec<char>, i: usize) -> (r: bool)
    ensures
        r == occurs_at(hay@, needle@, i as int),
{
    let m = needle.len();
    if m > hay.len() || i > hay.len() - m {
        return false;
    }
    let mut j: usize = 0;
    while j < m
        invariant
            j <= m,
            m == needle@.len(),
            i + m <= hay@.len() <= usize::MAX,
            forall|k: int| 0 <= k < j ==> hay@[i + k] == needle@[k],
        decreases m - j,
    {
        if hay[i + j] != needle[j] {
            assert(hay@.subrange(i as int, i + m)[j as int] != needle@[j as int]);
            return false;
        }
        j = j + 1;
    }
    assert(hay@.subrange(i as int, i + m) =~= needle@);
    true
}

/// Tests whether `needle` stands somewhere in `hay`.
pub fn contains(hay: &str, needle: &str) -> (r: bool)
    ensures
        r == contains_text(hay@, needle@),
{
    let h = chars_of(hay);
    let n = chars_of(needle);
    if n.len() > h.len() {
        return false;
    }
    let last: usize = h.len() - n.len();
    let mut i: usize = 0;
    loop
        invariant
            i <= last,
            last == h@.len() - n@.len(),
            h@ == hay@,
            n@ == needle@,
            forall|k: int| 0 <= k < i ==> !occurs_at(hay@, needle@, k),
        decreases last - i,
    {
        if matches_at(&h, &n, i) {
            return true;
        }
        if i == last {
            return false;
        }
        i = i + 1;
    }
}

/// Removes every trailing repetition of `suffix` from `s`.
pub fn trim_end_matches(s: &str, suffix: &str) -> (r: String)
    ensures
        r@ == trim_end(s@, suffix@),
{
    let text = chars_of(s);
    let pat = chars_of(suffix);
    let m = pat.len();
    let mut end: usize = text.len();
    assert(s@.take(end as int) == s@);
    if m > 0 {
        while end >= m && matches_at_end(&text, &pat, end)
            invariant
                m == pat@.len(),
                m > 0,
                end <= text@.len(),
                text@ == s@,
                pat@ == suffix@,
                trim_end(s@, suffix@) == trim_end(s@.take(end as int), suffix@),
            decreases end,
        {
            assert(s@.take(end as int).take(end - m) == s@.take(end - m));
            end = end - m;
        }
    }
    assert(s@.take(end as int) == s@.subrange(0, end as int));
    s.substring_char(0, end).to_owned()
}

fn matches_at_end(text: &Vec<char>, pat: &Vec<char>, end: usize) -> (r: bool)
    requires
        pat@.len() <= end <= text@.len(),
    ensures
        r == ends_with(text@.take(end as int), pat@),
{
    let r = matches_at(text, pat, end - pat.len());
    assert(text@.take(end as int).subrange(end - pat@.len(), end as int) == text@.subrange(
        end - pat@.len(),
        end as int,
    ));
    r
}

} // verus!
