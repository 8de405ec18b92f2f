//! State shared by the splits of a consumer: handles to one shared value, and
//! a budget counter that the splits decrement.
use vstd::prelude::*;
use std::sync::Arc;
use std::sync::atomic::AtomicUsize;

verus! {

/// `Arc::clone`: another handle to the same shared value.
#[verifier::external_body]
pub(crate) fn share<T>(shared: &Arc<T>) -> (handle: Arc<T>)
    ensures
        handle == *shared,
{
    Arc::clone(shared)
}

/// One less, unless there is nothing left.
pub fn decrement(remaining: usize) -> (less: Option<usize>)
    ensures
        remaining == 0 ==> less is None,
        remaining > 0 ==> (less matches Some(l) && l + 1 == remaining),
{
    if remaining == 0 { None } else { Some(remaining - 1) }
}

/// `AtomicUsize::fetch_update` with [`decrement`]: on success (`Ok`) the
/// counter was decremented from the returned value, which was positive;
/// otherwise (`Err`) it was already zero and is left unchanged.
#[verifier::external_body]
pub(crate) fn fetch_decrement(counter: &AtomicUsize) -> (fetched: Result<usize, usize>)
    ensures
        match fetched {
            Ok(previous) => previous >= 1,
            Err(previous) => previous == 0,
        },
{
    counter.fetch_update(
        std::sync::atomic::Ordering::Relaxed,
        std::sync::atomic::Ordering::Relaxed,
        |remaining| decrement(remaining),
    )
}

} // verus!
