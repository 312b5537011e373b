use vstd::prelude::*;
use vstd::string::*;

verus! {

/// Whether `prefix` is an initial segment of `text`.
pub open spec fn is_prefix_of(prefix: Seq<char>, text: Seq<char>) -> bool {
    prefix.len() <= text.len() && text.subrange(0, prefix.len() as int) == prefix
}

/// Whether `pattern` occurs in `text` starting at position `at`.
pub open spec fn occurs_at(text: Seq<char>, pattern: Seq<char>, at: int) -> bool {
    0 <= at && at + pattern.len() <= text.len() && text.subrange(at, at + pattern.len())
        == pattern
}

/// Whether `at` is the position of the first occurrence of `pattern` in `text`.
pub open spec fn first_occurrence(text: Seq<char>, pattern: Seq<char>, at: int) -> bool {
    occurs_at(text, pattern, at) && forall|k: int| 0 <= k < at ==> !occurs_at(text, pattern, k)
}

/// Whether `pattern` occurs somewhere in `text`.
pub open spec fn contains_text(text: Seq<char>, pattern: Seq<char>) -> bool {
    exists|k: int| occurs_at(text, pattern, k)
}

/// The position of the first occurrence of `pattern` in `text`; meaningful
/// only where `contains_text(text, pattern)`.
pub open spec fn first_position(text: Seq<char>, pattern: Seq<char>) -> int {
    choose|at: int| first_occurrence(text, pattern, at)
}

/// The views of a list of strings.
pub open spec fn texts_of(names: Seq<String>) -> Seq<Seq<char>> {
    names.map_values(|s: String| s@)
}

/// What `Debug` prints for a list of strings with the given contents.
pub uninterp spec fn debug_list_text(names: Seq<Seq<char>>) -> Seq<char>;

/// Formats a list of strings with the `Debug` implementation of `Vec<String>`:
/// the text depends on the strings' contents alone.
#[verifier::external_body]
pub(crate) fn debug_list(names: &Vec<String>) -> (text: String)
    ensures
        text@ == debug_list_text(texts_of(names@)),
{
    format!("{:?}", names)
}

/// Compares two string slices with `str`'s own `==`, which holds exactly when
/// both hold the same characters.
#[verifier::external_body]
pub(crate) fn same_text(a: &str, b: &str) -> (same: bool)
    ensures
        same == (a@ == b@),
{
    a == b
}

/// Whether `pattern` occurs in `text` at character position `at`.
pub fn matches_at(text: &str, pattern: &str, at: usize) -> (found: bool)
    ensures
        found == occurs_at(text@, pattern@, at as int),
{
    let n = text.unicode_len();
    let m = pattern.unicode_len();
    if at > n || m > n - at {
        return false;
    }
    let mut j: usize = 0;
    while j < m
        invariant
            j <= m,
            m == pattern@.len(),
            n == text@.len(),
            at + m <= n,
            forall|k: int| 0 <= k < j ==> text@[at + k] == pattern@[k],
        decreases m - j,
    {
        if text.get_char(at + j) != pattern.get_char(j) {
            proof {
                assert(text@.subrange(at as int, at + m)[j as int] == text@[at + j]);
            }
            return false;
        }
        j = j + 1;
    }
    proof {
        assert(text@.subrange(at as int, at + m) =~= pattern@);
    }
    true
}

/// Whether `text` begins with `prefix`.
pub fn starts_with(text: &str, prefix: &str) -> (found: bool)
    ensures
        found == is_prefix_of(prefix@, text@),
{
    matches_at(text, prefix, 0)
}

/// What is left of `text` after `prefix`, where `text` begins with it.
pub fn strip_prefix<'a>(text: &'a str, prefix: &str) -> (rest: Option<&'a str>)
    ensures
        rest.is_some() <==> is_prefix_of(prefix@, text@),
        rest.is_some() ==> rest.unwrap()@ == text@.subrange(
            prefix@.len() as int,
            text@.len() as int,
        ),
{
    if starts_with(text, prefix) {
        let m = prefix.unicode_len();
        let n = text.unicode_len();
        Some(text.substring_char(m, n))
    } else {
        None
    }
}

/// `head` followed by `tail`.
pub fn joined(head: &str, tail: &str) -> (text: String)
    ensures
        text@ == head@ + tail@,
{
    let mut text = String::from_str(head);
    text.append(tail);
    text
}

/// The character position of the first occurrence of `pattern` in `text`.
pub fn find_first(text: &str, pattern: &str) -> (found: Option<usize>)
    ensures
        found.is_some() <==> contains_text(text@, pattern@),
        found.is_some() ==> first_occurrence(text@, pattern@, found.unwrap() as int),
        found.is_some() ==> found.unwrap() == first_position(text@, pattern@),
{
    let n = text.unicode_len();
    let m = pattern.unicode_len();
    if m > n {
        return None;
    }
    let last = n - m;
    let mut i: usize = 0;
    while i < last
        invariant
            i <= last,
            forall|k: int| 0 <= k < i ==> !occurs_at(text@, pattern@, k),
        decreases last - i,
    {
        if matches_at(text, pattern, i) {
            proof {
                lemma_first_position(text@, pattern@, i as int);
            }
            return Some(i);
        }
        i = i + 1;
    }
    if matches_at(text, pattern, last) {
        proof {
            lemma_first_position(text@, pattern@, last as int);
        }
        Some(last)
    } else {
        None
    }
}

/// The first occurrence is at one position only.
pub proof fn lemma_first_position(text: Seq<char>, pattern: Seq<char>, at: int)
    requires
        first_occurrence(text, pattern, at),
    ensures
        first_position(text, pattern) == at,
{
    let chosen = first_position(text, pattern);
    assert(first_occurrence(text, pattern, chosen));
    if chosen < at {
        assert(!occurs_at(text, pattern, chosen));
    }
    if at < chosen {
        assert(!occurs_at(text, pattern, at));
    }
}

} // verus!
