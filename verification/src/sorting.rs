//! Sorting a directory listing into the order it is shown in.

use std::cmp::Ordering;
use vstd::prelude::*;
use crate::listing::{entry_order, order_entries, FilesystemEntry, FilesystemEntryView, Precedence};

verus! {

/// The mathematical values of `entries`, in order.
pub open spec fn entry_views(entries: Seq<FilesystemEntry>) -> Seq<FilesystemEntryView> {
    entries.map_values(|entry: FilesystemEntry| entry@)
}

/// Whether `from` shows `sorted` to be `unsorted` sorted stably by
/// `entry_order`: the entry at each place of `sorted` is the entry of
/// `unsorted` at the place that `from` gives for it, no place of `unsorted`
/// is given twice, no entry stands after one that it precedes, and entries
/// that compare as the same keep the order they had.
pub open spec fn sorts_stably(
    from: Seq<int>,
    sorted: Seq<FilesystemEntryView>,
    unsorted: Seq<FilesystemEntryView>,
) -> bool {
    &&& from.len() == sorted.len()
    &&& sorted.len() == unsorted.len()
    &&& from.no_duplicates()
    &&& forall|k: int|
        0 <= k < sorted.len() ==> 0 <= #[trigger] from[k] < unsorted.len() && sorted[k]
            == unsorted[from[k]]
    &&& forall|i: int, j: int|
        0 <= i < j < sorted.len() ==> match entry_order(sorted[i], sorted[j]) {
            Precedence::Before => true,
            Precedence::Same => #[trigger] from[i] < #[trigger] from[j],
            Precedence::After => false,
        }
}

/// Whether `sorted` is `unsorted` sorted stably by `entry_order`.
pub open spec fn is_sorted_listing_of(
    sorted: Seq<FilesystemEntryView>,
    unsorted: Seq<FilesystemEntryView>,
) -> bool {
    exists|from: Seq<int>| sorts_stably(from, sorted, unsorted)
}

/// The order of two entries of a listing, as the standard library names it.
pub fn ordering_of(left: &FilesystemEntry, right: &FilesystemEntry) -> (ordering: Ordering)
    ensures
        ordering == match entry_order(left@, right@) {
            Precedence::Before => Ordering::Less,
            Precedence::Same => Ordering::Equal,
            Precedence::After => Ordering::Greater,
        },
{
    match order_entries(left, right) {
        Precedence::Before => Ordering::Less,
        Precedence::Same => Ordering::Equal,
        Precedence::After => Ordering::Greater,
    }
}

/// Calls `slice::sort_by` with `ordering_of`.
///
/// Trusted: the standard library sorts stably by the order it is given,
/// which is total (`lemma_entry_order_is_total`).
#[verifier::external_body]
fn sort_by_entry_order(entries: &mut Vec<FilesystemEntry>)
    ensures
        is_sorted_listing_of(entry_views(final(entries)@), entry_views(old(entries)@)),
{
    entries.sort_by(|left, right| ordering_of(left, right))
}

/// Sorts a listing: directories first, then by name without regard to
/// ASCII case; entries that compare as the same stay in the order they came in.
pub fn sort_listing(entries: Vec<FilesystemEntry>) -> (sorted: Vec<FilesystemEntry>)
    ensures
        is_sorted_listing_of(entry_views(sorted@), entry_views(entries@)),
{
    let mut sorted = entries;
    sort_by_entry_order(&mut sorted);
    sorted
}

} // verus!
