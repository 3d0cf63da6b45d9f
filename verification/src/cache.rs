//! The release cache: the entries of the working directory whose names begin
//! with the release prefix. It holds one release at a time, so before another
//! is installed everything in it is removed.

use vstd::prelude::*;
use vstd::string::*;
use crate::protocol::{listing_view, Listed, ListedView};
use crate::text::starts_with;

verus! {

/// Whether an item of a listing is an entry of the release cache: one with a
/// name that begins with `prefix`.
pub open spec fn is_cached_release(item: ListedView, prefix: Seq<char>) -> bool {
    match item {
        ListedView::Entry { name: Some(name), .. } => prefix.is_prefix_of(name),
        _ => false,
    }
}

/// Whether emptying the cache has to stop at an item: to remove it, or
/// because it could not be read.
pub open spec fn needs_attention(item: ListedView, prefix: Seq<char>) -> bool {
    item is Unreadable || is_cached_release(item, prefix)
}

/// The index of the first item at or after `from` that needs attention, or
/// the length of the listing where there is none.
pub open spec fn next_target(entries: Seq<ListedView>, from: int, prefix: Seq<char>) -> int
    decreases entries.len() - from,
{
    if from < 0 || from >= entries.len() {
        entries.len() as int
    } else if needs_attention(entries[from], prefix) {
        from
    } else {
        next_target(entries, from + 1, prefix)
    }
}

/// `next_target` finds an item that needs attention, and passes over none.
pub proof fn next_target_is_first(entries: Seq<ListedView>, from: int, prefix: Seq<char>)
    requires
        0 <= from <= entries.len(),
    ensures
        from <= next_target(entries, from, prefix) <= entries.len(),
        next_target(entries, from, prefix) < entries.len() ==> needs_attention(
            entries[next_target(entries, from, prefix)],
            prefix,
        ),
        forall|skipped: int|
            from <= skipped < next_target(entries, from, prefix) ==> !needs_attention(
                #[trigger] entries[skipped],
                prefix,
            ),
    decreases entries.len() - from,
{
    if from < entries.len() && !needs_attention(entries[from], prefix) {
        next_target_is_first(entries, from + 1, prefix);
    }
}

/// The paths of the entries of the release cache among the items from `from`
/// on, in the listing's order.
pub open spec fn cached_release_paths(
    entries: Seq<ListedView>,
    from: int,
    prefix: Seq<char>,
) -> Seq<Seq<char>>
    decreases entries.len() - from,
{
    if from < 0 || from >= entries.len() {
        Seq::empty()
    } else if is_cached_release(entries[from], prefix) {
        seq![entries[from]->path] + cached_release_paths(entries, from + 1, prefix)
    } else {
        cached_release_paths(entries, from + 1, prefix)
    }
}

/// Items that are no entries of the release cache add nothing to its paths.
pub proof fn passed_over_items_hold_no_release(
    entries: Seq<ListedView>,
    from: int,
    to: int,
    prefix: Seq<char>,
)
    requires
        0 <= from <= to <= entries.len(),
        forall|skipped: int|
            from <= skipped < to ==> !is_cached_release(#[trigger] entries[skipped], prefix),
    ensures
        cached_release_paths(entries, from, prefix) == cached_release_paths(entries, to, prefix),
    decreases to - from,
{
    if from < to {
        assert(!is_cached_release(entries[from], prefix));
        passed_over_items_hold_no_release(entries, from + 1, to, prefix);
    }
}

/// `cached_release_paths` holds the path of every entry of the release cache
/// from `from` on, and no other path.
pub proof fn cached_release_paths_are_exact(entries: Seq<ListedView>, from: int, prefix: Seq<char>)
    requires
        0 <= from <= entries.len(),
    ensures
        forall|i: int|
            from <= i < entries.len() && is_cached_release(#[trigger] entries[i], prefix)
                ==> cached_release_paths(entries, from, prefix).contains(entries[i]->path),
        forall|path: Seq<char>| #[trigger]
            cached_release_paths(entries, from, prefix).contains(path) ==> exists|i: int|
                from <= i < entries.len() && is_cached_release(#[trigger] entries[i], prefix)
                    && entries[i]->path == path,
    decreases entries.len() - from,
{
    let paths = cached_release_paths(entries, from, prefix);
    if from < entries.len() {
        cached_release_paths_are_exact(entries, from + 1, prefix);
        let later = cached_release_paths(entries, from + 1, prefix);
        let first = is_cached_release(entries[from], prefix);
        assert forall|i: int|
            from <= i < entries.len() && is_cached_release(
                #[trigger] entries[i],
                prefix,
            ) implies paths.contains(entries[i]->path) by {
            if i == from {
                assert(paths[0] == entries[from]->path);
            } else {
                let k = choose|k: int| 0 <= k < later.len() && later[k] == entries[i]->path;
                if first {
                    assert(paths[k + 1] == later[k]);
                }
            }
        }
        assert forall|path: Seq<char>| #[trigger] paths.contains(path) implies exists|i: int|
            from <= i < entries.len() && is_cached_release(#[trigger] entries[i], prefix)
                && entries[i]->path == path by {
            let k = choose|k: int| 0 <= k < paths.len() && paths[k] == path;
            if first && k == 0 {
                assert(is_cached_release(entries[from], prefix) && entries[from]->path == path);
            } else {
                if first {
                    assert(later[k - 1] == paths[k]);
                }
                assert(later.contains(path));
            }
        }
    }
}

/// Whether an item of a listing needs attention when the cache is emptied.
pub fn item_needs_attention(item: &Listed, prefix: &str) -> (r: bool)
    ensures
        r == needs_attention(item@, prefix@),
{
    match item {
        Listed::Unreadable { .. } => true,
        Listed::Entry { name, .. } => match name {
            Some(name) => starts_with(name.as_str(), prefix),
            None => false,
        },
    }
}

/// The index of the first item at or after `from` that needs attention, or
/// the length of the listing where there is none.
pub fn find_next_target(entries: &Vec<Listed>, from: usize, prefix: &str) -> (r: usize)
    ensures
        r == next_target(listing_view(*entries), from as int, prefix@),
{
    let ghost listing = listing_view(*entries);
    let mut i = from;
    while i < entries.len()
        invariant
            listing == listing_view(*entries),
            next_target(listing, from as int, prefix@) == next_target(listing, i as int, prefix@),
        decreases entries.len() - i,
    {
        if item_needs_attention(&entries[i], prefix) {
            return i;
        }
        i += 1;
    }
    entries.len()
}

} // verus!
