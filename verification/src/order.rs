//! Helpers on the order of items: that of the items of a `Vec`, and that of
//! the keys of an ordered collection.
use vstd::prelude::*;

verus! {

/// Returns the items of `items` in reverse order.
pub(crate) fn reversed<T>(items: Vec<T>) -> (rev: Vec<T>)
    ensures
        rev@.len() == items@.len(),
        forall|i: int| 0 <= i < rev@.len() ==> #[trigger] rev@[i] == items@[items@.len() - 1 - i],
{
    let mut items = items;
    let ghost orig = items@;
    let mut rev: Vec<T> = Vec::new();
    while items.len() > 0
        invariant
            items@ == orig.take(items@.len() as int),
            rev@.len() + items@.len() == orig.len(),
            forall|i: int| 0 <= i < rev@.len() ==> #[trigger] rev@[i] == orig[orig.len() - 1 - i],
        decreases items.len(),
    {
        let item = items.pop().unwrap();
        rev.push(item);
    }
    rev
}

/// Whether the order of `T` is a total order that agrees with its equality,
/// as ordered collections need.
pub open spec fn keys_ordered<T: Ord>() -> bool {
    vstd::laws_cmp::obeys_cmp::<T>()
}

} // verus!
