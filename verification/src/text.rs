//! Small helpers on text that the other modules share.
use vstd::prelude::*;

verus! {

/// `needle` occurs in `haystack`, as a run of adjacent characters.
pub open spec fn contains_text(haystack: Seq<char>, needle: Seq<char>) -> bool {
    exists|i: int| #[trigger] occurs_at(haystack, needle, i)
}

/// `needle` occurs in `haystack` from position `i` on.
pub open spec fn occurs_at(haystack: Seq<char>, needle: Seq<char>, i: int) -> bool {
    &&& 0 <= i <= haystack.len() - needle.len()
    &&& haystack.subrange(i, i + needle.len()) =~= needle
}

/// A text is found wherever it stands, whatever is before it and behind it.
pub proof fn lemma_text_is_found(before: Seq<char>, needle: Seq<char>, behind: Seq<char>)
    ensures
        contains_text(before + needle + behind, needle),
{
    let haystack = before + needle + behind;
    let i: int = before.len() as int;
    assert(haystack.subrange(i, i + needle.len()) =~= needle);
    assert(occurs_at(haystack, needle, i));
}

/// A text that is found does stand there, between something before it and
/// something behind it.
pub proof fn lemma_found_text_is_there(haystack: Seq<char>, needle: Seq<char>)
    requires
        contains_text(haystack, needle),
    ensures
        exists|before: Seq<char>, behind: Seq<char>|
            haystack == #[trigger] (before + needle + behind),
{
    let i = choose|i: int| #[trigger] occurs_at(haystack, needle, i);
    let before = haystack.take(i);
    let behind = haystack.skip(i + needle.len());
    assert forall|k: int| 0 <= k < needle.len() implies #[trigger] haystack[i + k] == needle[k] by {
        assert(haystack.subrange(i, i + needle.len())[k] == needle[k]);
    }
    assert forall|k: int| 0 <= k < haystack.len() implies haystack[k] == (before + needle
        + behind)[k] by {
        if i <= k < i + needle.len() {
            assert(haystack[i + (k - i)] == needle[k - i]);
        }
    }
    assert(haystack =~= before + needle + behind);
}

/// A text that contains another contains every prefix of it too.
pub proof fn lemma_contains_prefix(haystack: Seq<char>, needle: Seq<char>, prefix: Seq<char>)
    requires
        contains_text(haystack, needle),
        prefix.len() <= needle.len(),
        prefix =~= needle.take(prefix.len() as int),
    ensures
        contains_text(haystack, prefix),
{
    let i = choose|i: int| #[trigger] occurs_at(haystack, needle, i);
    assert forall|k: int| 0 <= k < prefix.len() implies #[trigger] haystack[i + k] == prefix[k] by {
        assert(haystack.subrange(i, i + needle.len())[k] == needle[k]);
    }
    assert(haystack.subrange(i, i + prefix.len()) =~= prefix);
    assert(occurs_at(haystack, prefix, i));
}

/// Whether two texts hold the same characters.
pub fn same_text(a: &str, b: &str) -> (same: bool)
    ensures
        same == (a@ == b@),
{
    a.to_owned() == b.to_owned()
}

/// The characters of a text, one by one.
pub fn chars_of(s: &str) -> (chars: Vec<char>)
    ensures
        chars@ == s@,
{
    let mut chars: Vec<char> = Vec::new();
    for c in it: s.chars()
        invariant
            chars@ == it.seq().take(it.index() as int),
            it.seq() == s@,
    {
        chars.push(c);
        assert(it.seq().take(it.index() + 1) =~= it.seq().take(it.index() as int).push(c));
    }
    assert(chars@ =~= s@);
    chars
}

/// Whether `needle` occurs in `haystack` from position `i` on.
fn occurs_here(haystack: &Vec<char>, needle: &Vec<char>, i: usize) -> (here: bool)
    requires
        i + needle@.len() <= haystack@.len(),
    ensures
        here == occurs_at(haystack@, needle@, i as int),
{
    let mut k: usize = 0;
    assert(haystack.len() <= usize::MAX);
    while k < needle.len()
        invariant
            i + needle@.len() <= haystack@.len() <= usize::MAX,
            k <= needle@.len(),
            forall|j: int| 0 <= j < k ==> haystack@[i + j] == #[trigger] needle@[j],
        decreases needle@.len() - k,
    {
        if haystack[i + k] != needle[k] {
            assert(haystack@.subrange(i as int, i + needle@.len())[k as int] != needle@[k as int]);
            return false;
        }
        k += 1;
    }
    true
}

/// Whether `needle` occurs anywhere in `haystack`.
pub fn has_text(haystack: &str, needle: &str) -> (found: bool)
    ensures
        found == contains_text(haystack@, needle@),
{
    let hay: Vec<char> = chars_of(haystack);
    let pin: Vec<char> = chars_of(needle);
    if pin.len() > hay.len() {
        return false;
    }
    let last: usize = hay.len() - pin.len();
    let mut i: usize = 0;
    while i < last
        invariant
            hay@ == haystack@,
            pin@ == needle@,
            last == hay@.len() - pin@.len(),
            i <= last,
            forall|j: int| 0 <= j < i ==> !#[trigger] occurs_at(hay@, pin@, j),
        decreases last - i,
    {
        if occurs_here(&hay, &pin, i) {
            return true;
        }
        i += 1;
    }
    occurs_here(&hay, &pin, last)
}

} // verus!
