//! Rolling histories of performance samples for the profiler's graphs.

use vstd::prelude::*;
use std::collections::VecDeque;

verus! {

/// Number of samples kept per graph (two seconds at sixty frames a second).
pub const HISTORY_SIZE: usize = 120;

/// The history after adding `value`: when it already holds `max_size`
/// samples or more, the oldest one is dropped first.
pub open spec fn after_add<T>(history: Seq<T>, value: T, max_size: nat) -> Seq<T> {
    if history.len() >= max_size && history.len() > 0 {
        history.drop_first().push(value)
    } else {
        history.push(value)
    }
}

/// Adds a sample to a history, dropping the oldest one when the history is full.
pub fn add_to_history<T>(history: &mut VecDeque<T>, value: T, max_size: usize)
    ensures
        final(history)@ == after_add(old(history)@, value, max_size as nat),
{
    if history.len() >= max_size {
        history.pop_front();
    }
    history.push_back(value);
    assert(old(history)@.len() > 0 ==> old(history)@.subrange(1, old(history)@.len() as int)
        == old(history)@.drop_first());
}

/// A history that is not over its size stays within it, and ends with the
/// newest sample.
pub proof fn lemma_history_bounded<T>(history: Seq<T>, value: T, max_size: nat)
    requires
        history.len() <= max_size,
        max_size > 0,
    ensures
        after_add(history, value, max_size).len() <= max_size,
        after_add(history, value, max_size).last() == value,
{
}

/// Adding a sample always makes it the newest; below the size limit the
/// history just grows by it, at or over the limit the oldest sample is
/// dropped and the length stays.
pub proof fn lemma_history_rolls<T>(history: Seq<T>, value: T, max_size: nat)
    ensures
        after_add(history, value, max_size).last() == value,
        history.len() < max_size ==> after_add(history, value, max_size) == history.push(value),
        history.len() >= max_size && history.len() > 0 ==> {
            &&& after_add(history, value, max_size).len() == history.len()
            &&& after_add(history, value, max_size).take(history.len() - 1) == history.skip(1)
        },
{
    if history.len() >= max_size && history.len() > 0 {
        assert(history.drop_first().push(value).take(history.len() - 1) =~= history.skip(1));
    }
}

} // verus!
