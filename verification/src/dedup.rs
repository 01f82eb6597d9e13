//! Memo-based deduplication of subsequent sequence items.
//!
//! The decision step of a dedup combinator: for each sequence item a memo
//! value is derived and stored until the next item arrives, and an item is
//! discarded when its memo equals the stored one. A special `ignore_memo`
//! value disables and resets the deduplication.

use vstd::prelude::*;
use vstd::std_specs::cmp::PartialEqSpec;

verus! {

/// One step of memo-based deduplication: decides whether to keep the item
/// whose memo is `next_memo`, given the previously stored memo.
///
/// An item is discarded exactly when the stored memo is not the special
/// `ignore_memo` value and equals the next memo; otherwise the next memo is
/// stored and the item kept.
pub fn filter_dedup_memo<M>(last_memo: &mut M, ignore_memo: &M, next_memo: M) -> (keep: bool) where
    M: PartialEq
    ensures
        M::obeys_eq_spec() ==> keep == !(!(*old(last_memo)).eq_spec(ignore_memo) && (*old(
            last_memo,
        )).eq_spec(&next_memo)),
        keep ==> *final(last_memo) == next_memo,
        !keep ==> *final(last_memo) == *old(last_memo),
{
    if !(*last_memo == *ignore_memo) && *last_memo == next_memo {
        // Discard the next item.
        return false;
    }
    *last_memo = next_memo;
    true
}

} // verus!
