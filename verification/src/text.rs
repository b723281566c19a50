//! Helpers on text, stated over sequences of characters.

use vstd::prelude::*;

verus! {

/// The characters of a text that may be absent.
pub open spec fn optional_text(text: Option<String>) -> Option<Seq<char>> {
    match text {
        Some(text) => Some(text@),
        None => None,
    }
}

/// The characters of a borrowed text that may be absent.
pub open spec fn optional_str(text: Option<&str>) -> Option<Seq<char>> {
    match text {
        Some(text) => Some(text@),
        None => None,
    }
}

/// The index of the first `needle` in `s`, or the length of `s` when there is none.
pub open spec fn first_index_of(s: Seq<char>, needle: char) -> int
    decreases s.len(),
{
    if s.len() == 0 || s[0] == needle {
        0
    } else {
        1 + first_index_of(s.drop_first(), needle)
    }
}

/// `first_index_of` is the least index that holds `needle`.
pub proof fn lemma_first_index_of(s: Seq<char>, needle: char)
    ensures
        0 <= first_index_of(s, needle) <= s.len(),
        first_index_of(s, needle) < s.len() ==> s[first_index_of(s, needle)] == needle,
        forall|j: int| 0 <= j < first_index_of(s, needle) ==> s[j] != needle,
    decreases s.len(),
{
    if s.len() > 0 && s[0] != needle {
        let rest = s.drop_first();
        lemma_first_index_of(rest, needle);
        assert forall|j: int| 0 <= j < first_index_of(s, needle) implies s[j] != needle by {
            if j > 0 {
                assert(s[j] == rest[j - 1]);
            }
        }
    }
}

/// An index that holds `needle` and has no `needle` before it is the first one.
pub proof fn lemma_first_index_of_is(s: Seq<char>, needle: char, i: int)
    requires
        0 <= i <= s.len(),
        i < s.len() ==> s[i] == needle,
        forall|j: int| 0 <= j < i ==> s[j] != needle,
    ensures
        first_index_of(s, needle) == i,
{
    lemma_first_index_of(s, needle);
}

/// The characters of `s`, for access by index.
pub fn chars_of(s: &str) -> (chars: Vec<char>)
    ensures
        chars@ == s@,
{
    broadcast use vstd::string::group_string_axioms;

    let mut chars: Vec<char> = Vec::new();
    for c in it: s.chars()
        invariant
            it.seq() == s@,
            chars@ == s@.subrange(0, it.index() as int),
    {
        chars.push(c);
    }
    chars
}

/// Whether two texts hold the same characters.
pub fn text_eq(a: &str, b: &str) -> (same: bool)
    ensures
        same == (a@ == b@),
{
    let x = chars_of(a);
    let y = chars_of(b);
    if x.len() != y.len() {
        return false;
    }
    let mut i: usize = 0;
    while i < x.len()
        invariant
            x@ == a@,
            y@ == b@,
            x.len() == y.len(),
            i <= x.len(),
            forall|j: int| 0 <= j < i ==> x@[j] == y@[j],
        decreases x.len() - i,
    {
        if x[i] != y[i] {
            return false;
        }
        i += 1;
    }
    assert(x@ =~= y@);
    true
}

/// Whether `s` begins with `prefix`.
pub fn starts_with(s: &str, prefix: &str) -> (found: bool)
    ensures
        found == prefix@.is_prefix_of(s@),
{
    let x = chars_of(s);
    let p = chars_of(prefix);
    if p.len() > x.len() {
        return false;
    }
    let mut i: usize = 0;
    while i < p.len()
        invariant
            x@ == s@,
            p@ == prefix@,
            p.len() <= x.len(),
            i <= p.len(),
            forall|j: int| 0 <= j < i ==> x@[j] == p@[j],
        decreases p.len() - i,
    {
        if x[i] != p[i] {
            return false;
        }
        i += 1;
    }
    true
}

/// Whether `s` begins with the scheme of an HTTP address, `http://` or `https://`.
pub open spec fn has_http_scheme(s: Seq<char>) -> bool {
    "http://"@.is_prefix_of(s) || "https://"@.is_prefix_of(s)
}

/// Whether `s` begins with the scheme of an HTTP address.
pub fn begins_with_http_scheme(s: &str) -> (found: bool)
    ensures
        found == has_http_scheme(s@),
{
    starts_with(s, "http://") || starts_with(s, "https://")
}

/// The index of the first `needle` among `chars`, or their number when there is none.
pub fn find_char(chars: &Vec<char>, needle: char) -> (index: usize)
    ensures
        index == first_index_of(chars@, needle),
        index <= chars.len(),
{
    let mut i: usize = 0;
    while i < chars.len() && chars[i] != needle
        invariant
            i <= chars.len(),
            forall|j: int| 0 <= j < i ==> chars@[j] != needle,
        decreases chars.len() - i,
    {
        i += 1;
    }
    proof {
        lemma_first_index_of_is(chars@, needle, i as int);
    }
    i
}

} // verus!
