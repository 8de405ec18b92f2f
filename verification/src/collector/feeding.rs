//! What feeding items to a consumer gives, however the consumer is split.
use vstd::prelude::*;
use std::ops::ControlFlow;

use super::adapters::into_collector::collects_then_outputs;
use super::plumbing::{converts, gives_combiner, Combiner, Consumer, SerialCollector, UnindexedConsumer};

verus! {

/// Feeding `items` to `consumer`, with splits nested at most `depth` deep,
/// may give `output`: either the consumer's serial collector collects all
/// the items and finishes, or the consumer is split at some index, the
/// first that many items are fed to the left split and the rest to the
/// right one, and the right output is combined into the left one.
pub open spec fn feeds<K: Consumer<Serial: SerialCollector<T>>, T>(depth: nat, consumer: K, items: Seq<T>, output: K::Output) -> bool
    decreases depth,
{
    ||| exists|serial: K::Serial| #[trigger] converts(consumer, serial) && collects_then_outputs(serial, items, output)
    ||| depth > 0 && exists|index: usize, right: K, left: K, combiner: K::Combiner, left_out: K::Output, right_out: K::Output|
        #![trigger K::split_at_spec(consumer, index, right, (left, combiner)), combiner.combine_spec(left_out, right_out, output)]
        index <= items.len() && K::split_at_spec(consumer, index, right, (left, combiner))
        && feeds((depth - 1) as nat, left, items.take(index as int), left_out)
        && feeds((depth - 1) as nat, right, items.skip(index as int), right_out)
        && combiner.combinable(left_out, right_out)
        && combiner.combine_spec(left_out, right_out, output)
}

/// Feeding `items` to an unindexed `consumer`, with splits nested at most
/// `depth` deep, may give `output`: either the consumer's serial collector
/// collects all the items and finishes, or a combiner is taken from the
/// consumer, the consumer is split freely, some first items are fed to the
/// left split and the rest to the right one, and the right output is
/// combined into the left one.
pub open spec fn feeds_unindexed<K: UnindexedConsumer<Serial: SerialCollector<T>>, T>(depth: nat, consumer: K, items: Seq<T>, output: K::Output) -> bool
    decreases depth,
{
    ||| exists|serial: K::Serial| #[trigger] converts(consumer, serial) && collects_then_outputs(serial, items, output)
    ||| depth > 0 && exists|at: int, right: K, left: K, combiner: K::Combiner, left_out: K::Output, right_out: K::Output|
        #![trigger K::split_spec(consumer, right, left), items.take(at), gives_combiner(consumer, combiner), combiner.combine_spec(left_out, right_out, output)]
        0 <= at <= items.len() && gives_combiner(consumer, combiner) && K::split_spec(consumer, right, left)
        && feeds_unindexed((depth - 1) as nat, left, items.take(at), left_out)
        && feeds_unindexed((depth - 1) as nat, right, items.skip(at), right_out)
        && combiner.combinable(left_out, right_out)
        && combiner.combine_spec(left_out, right_out, output)
}

} // verus!
