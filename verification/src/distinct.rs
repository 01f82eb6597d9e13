//! Adjacent-duplicate filters.
//!
//! Each function here is the decision step of a distinct-until-changed
//! combinator: it keeps one piece of state across items and decides, for
//! each next item, whether to keep or discard it. Stream adapters apply
//! these steps to every item of a sequence.

use vstd::prelude::*;
use vstd::std_specs::cmp::PartialEqSpec;

verus! {

/// Filtering of subsequent/adjacent sequence items.
///
/// Each distinct sequence item will be cloned once.
/// All other sequence items are discarded.
///
/// See also: <https://rxmarbles.com/#distinctUntilChanged>
pub fn filter_distinct_until_changed<T>(last_item: &mut Option<T>, next_item: &T) -> (keep:
    bool) where T: Clone + PartialEq
    ensures
        T::obeys_eq_spec() ==> keep == !(*old(last_item) matches Some(last) && last.eq_spec(
            next_item,
        )),
        keep ==> ({
            &&& *final(last_item) matches Some(stored)
            &&& cloned(*next_item, stored)
        }),
        !keep ==> *final(last_item) == *old(last_item),
{
    match last_item {
        Some(last) => {
            if *last == *next_item {
                // Discard the next item.
                return false;
            }
        },
        None => {},
    }
    *last_item = Some(next_item.clone());
    true
}

/// Maps and filters out subsequent/adjacent sequence items.
///
/// Operates on mapped values of sequence items.
/// Each sequence item will be mapped once.
///
/// See also: [`filter_distinct_until_changed()`]
pub fn filter_map_distinct_until_changed<T, U, F>(
    map_fn: &F,
    last_value: &mut Option<U>,
    next_item: &T,
) -> (keep: bool) where U: PartialEq, F: Fn(&T) -> U
    requires
        call_requires(*map_fn, (next_item,)),
    ensures
        exists|mapped: U|
            {
                &&& #[trigger] call_ensures(*map_fn, (next_item,), mapped)
                &&& (U::obeys_eq_spec() ==> keep == !(*old(last_value) matches Some(last)
                    && last.eq_spec(&mapped)))
                &&& (keep ==> *final(last_value) == Some(mapped))
            },
        !keep ==> *final(last_value) == *old(last_value),
{
    let next_value = map_fn(next_item);
    match last_value {
        Some(last) => {
            if *last == next_value {
                // Discard the next item.
                return false;
            }
        },
        None => {},
    }
    *last_value = Some(next_value);
    true
}

/// Filters out subsequent/adjacent `Ok` sequence items.
///
/// Each distinct `Ok` sequence item will be cloned once.
/// All other `Ok` sequence items are discarded.
/// All `Err` sequence items are passed through.
///
/// See also: [`filter_distinct_until_changed()`]
pub fn filter_distinct_until_changed_ok_result<T, E>(
    last_ok: &mut Option<T>,
    next_result: &Result<T, E>,
) -> (keep: bool) where T: Clone + PartialEq
    ensures
        *next_result matches Err(_) ==> keep && *final(last_ok) is None,
        *next_result matches Ok(next_ok) ==> {
            &&& (T::obeys_eq_spec() ==> keep == !(*old(last_ok) matches Some(last)
                && last.eq_spec(&next_ok)))
            &&& (keep ==> ({
                &&& *final(last_ok) matches Some(stored)
                &&& cloned(next_ok, stored)
            }))
            &&& (!keep ==> *final(last_ok) == *old(last_ok))
        },
{
    match next_result {
        Ok(next_ok) => {
            match last_ok {
                Some(last) => {
                    if *last == *next_ok {
                        // Discard the next item.
                        return false;
                    }
                },
                None => {},
            }
            *last_ok = Some(next_ok.clone());
        },
        Err(_) => {
            *last_ok = None;
        },
    }
    true
}

/// Filters out subsequent/adjacent `Err` sequence items.
///
/// Each distinct `Err` sequence item will be cloned once.
/// All other `Err` sequence items are discarded.
/// All `Ok` sequence items are passed through.
///
/// See also: [`filter_distinct_until_changed()`]
pub fn filter_distinct_until_changed_err_result<T, E>(
    last_err: &mut Option<E>,
    next_result: &Result<T, E>,
) -> (keep: bool) where E: Clone + PartialEq
    ensures
        *next_result matches Ok(_) ==> keep && *final(last_err) is None,
        *next_result matches Err(next_err) ==> {
            &&& (E::obeys_eq_spec() ==> keep == !(*old(last_err) matches Some(last)
                && last.eq_spec(&next_err)))
            &&& (keep ==> ({
                &&& *final(last_err) matches Some(stored)
                &&& cloned(next_err, stored)
            }))
            &&& (!keep ==> *final(last_err) == *old(last_err))
        },
{
    match next_result {
        Err(next_err) => {
            match last_err {
                Some(last) => {
                    if *last == *next_err {
                        // Discard the next item.
                        return false;
                    }
                },
                None => {},
            }
            *last_err = Some(next_err.clone());
        },
        Ok(_) => {
            *last_err = None;
        },
    }
    true
}

} // verus!
