//! Views of the plain values that carry text.

use vstd::prelude::*;

verus! {

/// The text of an optional string.
pub open spec fn option_text(value: Option<String>) -> Option<Seq<char>> {
    match value {
        Some(text) => Some(text@),
        None => None,
    }
}

/// The texts of a list of strings, in order.
pub open spec fn texts(values: Seq<String>) -> Seq<Seq<char>> {
    values.map_values(|value: String| value@)
}

/// The texts of an optional list of strings.
pub open spec fn option_texts(values: Option<Vec<String>>) -> Option<Seq<Seq<char>>> {
    match values {
        Some(list) => Some(texts(list@)),
        None => None,
    }
}

/// The texts of a result whose two sides are strings.
pub open spec fn result_text(value: Result<String, String>) -> Result<Seq<char>, Seq<char>> {
    match value {
        Ok(text) => Ok(text@),
        Err(text) => Err(text@),
    }
}

/// Whether two texts are the same.
pub fn same_text(left: &str, right: &str) -> (same: bool)
    ensures
        same == (left@ == right@),
{
    left.to_owned() == right.to_owned()
}

/// Whether `wanted` is one of `values`.
pub fn contains_text(values: &Vec<String>, wanted: &str) -> (found: bool)
    ensures
        found == texts(values@).contains(wanted@),
{
    let mut i: usize = 0;
    while i < values.len()
        invariant
            i <= values.len(),
            forall|k: int| 0 <= k < i ==> texts(values@)[k] != wanted@,
        decreases values.len() - i,
    {
        if same_text(values[i].as_str(), wanted) {
            assert(texts(values@)[i as int] == wanted@);
            return true;
        }
        i += 1;
    }
    false
}

/// Whether two lists hold the same texts in the same order.
pub fn same_texts(left: &Vec<String>, right: &Vec<String>) -> (same: bool)
    ensures
        same == (texts(left@) == texts(right@)),
{
    if left.len() != right.len() {
        assert(texts(left@).len() != texts(right@).len());
        return false;
    }
    let mut i: usize = 0;
    while i < left.len()
        invariant
            i <= left.len(),
            left.len() == right.len(),
            forall|k: int| 0 <= k < i ==> texts(left@)[k] == texts(right@)[k],
        decreases left.len() - i,
    {
        if !same_text(left[i].as_str(), right[i].as_str()) {
            assert(texts(left@)[i as int] != texts(right@)[i as int]);
            return false;
        }
        i += 1;
    }
    assert(texts(left@) =~= texts(right@));
    true
}

/// Whether `text` ends with `suffix`.
pub open spec fn ends_with_text(text: Seq<char>, suffix: Seq<char>) -> bool {
    suffix.len() <= text.len() && text.subrange(text.len() - suffix.len(), text.len() as int)
        == suffix
}

/// Whether `text` ends with `suffix`, character by character.
pub fn ends_with(text: &str, suffix: &str) -> (found: bool)
    ensures
        found == ends_with_text(text@, suffix@),
{
    let n = text.unicode_len();
    let m = suffix.unicode_len();
    if m > n {
        return false;
    }
    let start = n - m;
    let mut i: usize = 0;
    while i < m
        invariant
            i <= m,
            m <= n,
            start == n - m,
            n == text@.len(),
            m == suffix@.len(),
            forall|k: int| 0 <= k < i ==> text@[start + k] == suffix@[k],
        decreases m - i,
    {
        if text.get_char(start + i) != suffix.get_char(i) {
            proof {
                let tail = text@.subrange(text@.len() - suffix@.len(), text@.len() as int);
                assert(tail[i as int] == text@[start + i]);
            }
            return false;
        }
        i += 1;
    }
    proof {
        let tail = text@.subrange(text@.len() - suffix@.len(), text@.len() as int);
        assert(tail =~= suffix@);
    }
    true
}

} // verus!
