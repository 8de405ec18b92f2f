use vstd::prelude::*;
use std::ops::ControlFlow;

use komadori::cmp::Min;
use komadori::collector::{Collector, CollectorBase};

use crate::collector::plumbing::{Combiner, Consumer, CollectSpec, SerialCollector, SerialCollectorBase, UnindexedConsumer};
use crate::collector::{ParallelCollectorBase, UnindexedParallelCollectorBase};

verus! {

/// The lesser of two optional minima; `None` means "nothing collected".
/// On a tie the left one is kept, as `Iterator::min()` keeps the first.
pub open spec fn min_opt(left: Option<i64>, right: Option<i64>) -> Option<i64> {
    match (left, right) {
        (None, r) => r,
        (l, None) => l,
        (Some(l), Some(r)) => if r < l { Some(r) } else { Some(l) },
    }
}

/// The minimum of a sequence of items, `None` when it is empty.
pub open spec fn seq_min(items: Seq<i64>) -> Option<i64>
    decreases items.len(),
{
    if items.len() == 0 {
        None
    } else {
        min_opt(seq_min(items.drop_last()), Some(items.last()))
    }
}

/// Combining optional results is associative: partial results may be grouped
/// in any way.
pub proof fn lemma_min_opt_assoc(a: Option<i64>, b: Option<i64>, c: Option<i64>)
    ensures
        min_opt(min_opt(a, b), c) == min_opt(a, min_opt(b, c)),
{
}

/// Combining optional results is commutative.
pub proof fn lemma_min_opt_comm(a: Option<i64>, b: Option<i64>)
    ensures
        min_opt(a, b) == min_opt(b, a),
{
}

/// Splitting the items anywhere and combining the results of both halves
/// gives the result of collecting all items serially.
pub proof fn lemma_seq_min_split(left: Seq<i64>, right: Seq<i64>)
    ensures
        seq_min(left + right) == min_opt(seq_min(left), seq_min(right)),
    decreases right.len(),
{
    if right.len() == 0 {
        assert(left + right =~= left);
    } else {
        assert((left + right).drop_last() =~= left + right.drop_last());
        assert((left + right).last() == right.last());
        lemma_seq_min_split(left, right.drop_last());
        lemma_min_opt_assoc(seq_min(left), seq_min(right.drop_last()), Some(right.last()));
    }
}

/// The result is `None` exactly for no items, and otherwise the least of
/// the items, which is one of them.
pub proof fn lemma_seq_min_is_min(items: Seq<i64>)
    ensures
        seq_min(items) is None <==> items.len() == 0,
        seq_min(items) matches Some(m) ==> items.contains(m)
            && forall|i: int| 0 <= i < items.len() ==> { let x = #[trigger] items[i]; m <= x },
    decreases items.len(),
{
    if items.len() > 0 {
        let init = items.drop_last();
        lemma_seq_min_is_min(init);
        assert forall|i: int| 0 <= i < init.len() implies #[trigger] items[i] == init[i] by {}
        if seq_min(init) is Some {
            let k = choose|k: int| 0 <= k < init.len() && init[k] == seq_min(init)->0;
            assert(items[k] == init[k]);
        }
        assert(items[items.len() - 1] == items.last());
    }
}

/// A cycle whose consumer was split anywhere commits what collecting all of
/// its items serially would: the serial collectors of the two splits
/// collect `left` and `right`, their outputs are combined, and the result is
/// committed to a collector holding `current`.
pub proof fn lemma_par_min_cycle(current: Option<i64>, left: Seq<i64>, right: Seq<i64>)
    ensures
        min_opt(current, min_opt(seq_min(left), seq_min(right))) == min_opt(current, seq_min(left + right)),
{
    lemma_seq_min_split(left, right);
}

#[verifier::external_type_specification]
#[verifier::external_body]
#[verifier::reject_recursive_types(T)]
pub struct ExMin<T>(Min<T>);

/// What a `komadori` minimum collector has collected so far.
pub uninterp spec fn serial_min_state(collector: Min<i64>) -> Option<i64>;

/// `komadori::cmp::Min::new`: a minimum collector that has collected nothing.
#[verifier::external_body]
fn serial_min_new() -> (collector: Min<i64>)
    ensures
        serial_min_state(collector) is None,
{
    Min::new()
}

/// `Collector::collect` of `komadori::cmp::Min`: the state becomes the
/// lesser of the state and the item (the state on a tie), and it never stops.
#[verifier::external_body]
fn serial_min_collect(collector: &mut Min<i64>, item: i64) -> (cf: ControlFlow<()>)
    ensures
        serial_min_state(*final(collector)) == min_opt(serial_min_state(*old(collector)), Some(item)),
        cf is Continue,
{
    collector.collect(item)
}

/// `Collector::collect_many` of `komadori::cmp::Min`: the state becomes the
/// lesser of the state and the minimum of `items`, and it never stops.
#[verifier::external_body]
fn serial_min_collect_many(collector: &mut Min<i64>, items: Vec<i64>) -> (cf: ControlFlow<()>)
    ensures
        serial_min_state(*final(collector)) == min_opt(serial_min_state(*old(collector)), seq_min(items@)),
        cf is Continue,
{
    collector.collect_many(items)
}

/// `Collector::collect_then_finish` of `komadori::cmp::Min`: the lesser of
/// the state and the minimum of `items`.
#[verifier::external_body]
fn serial_min_collect_then_finish(collector: Min<i64>, items: Vec<i64>) -> (min: Option<i64>)
    ensures
        min == min_opt(serial_min_state(collector), seq_min(items@)),
{
    collector.collect_then_finish(items)
}

/// `CollectorBase::finish` of `komadori::cmp::Min`: returns the state.
#[verifier::external_body]
fn serial_min_finish(collector: Min<i64>) -> (min: Option<i64>)
    ensures
        min == serial_min_state(collector),
{
    collector.finish()
}

/// Merges `right` into `left`, keeping the lesser.
fn combine(left: &mut Option<i64>, right: Option<i64>)
    ensures
        *final(left) == min_opt(*old(left), right),
{
    match right {
        None => {},
        Some(r) => {
            match *left {
                None => { *left = Some(r); },
                Some(l) => {
                    if r < l {
                        *left = Some(r);
                    }
                },
            }
        },
    }
}

/// A parallel collector that computes the minimum value among the items it
/// collects. Its output is `None` if it has not collected any items.
#[derive(Debug, Clone)]
pub struct ParMin {
    min: Option<i64>,
}

/// The consumer of [`ParMin`]; each serial part starts from nothing.
pub struct MinConsumer {
    _unit: (),
}

/// The combiner of [`MinConsumer`]: keeps the lesser output.
pub struct MinCombiner {
    _unit: (),
}

impl ParMin {
    /// The minimum accumulated so far.
    pub closed spec fn current(&self) -> Option<i64> {
        self.min
    }

    /// Creates a new instance of this parallel collector.
    pub fn new() -> (collector: Self)
        ensures
            collector.current() is None,
    {
        ParMin { min: None }
    }

    /// Same as [`new()`](Self::new).
    pub fn default() -> (collector: Self)
        ensures
            collector.current() is None,
    {
        Self::new()
    }
}

/// The serial collector of a [`MinConsumer`]: a `komadori` minimum collector.
pub struct MinSerial {
    collector: Min<i64>,
}

impl MinSerial {
    /// The minimum collected so far.
    pub closed spec fn state(&self) -> Option<i64> {
        serial_min_state(self.collector)
    }

}

impl SerialCollectorBase for MinSerial {
    type Output = Option<i64>;

    fn finish(self) -> (min: Option<i64>)
        ensures
            min == self.state(),
    {
        serial_min_finish(self.collector)
    }

    fn break_hint(&self) -> (cf: ControlFlow<()>)
        ensures
            cf is Continue,
    {
        ControlFlow::Continue(())
    }
}

impl CollectSpec<i64> for MinSerial {
    open spec fn collect_spec(before: Self, item: i64, after: Self, cf: ControlFlow<()>) -> bool {
        after.state() == min_opt(before.state(), Some(item)) && cf is Continue
    }
}

impl SerialCollector<i64> for MinSerial {
    /// A batch goes to the `komadori` collector at once.
    open spec fn batch_spec(before: Self, items: Seq<i64>, after: Self, cf: ControlFlow<()>) -> bool {
        after.state() == min_opt(before.state(), seq_min(items)) && cf is Continue
    }

    /// A batch goes to the `komadori` collector at once.
    open spec fn batch_finish_spec(before: Self, items: Seq<i64>, output: Option<i64>) -> bool {
        output == min_opt(before.state(), seq_min(items))
    }

    /// Collects all `items` in order; it never stops.
    fn collect_many(&mut self, items: Vec<i64>) -> (cf: ControlFlow<()>)
        ensures
            final(self).state() == min_opt(old(self).state(), seq_min(items@)),
            cf is Continue,
    {
        serial_min_collect_many(&mut self.collector, items)
    }

    /// Collects all `items` in order, then returns the output.
    fn collect_then_finish(self, items: Vec<i64>) -> (min: Option<i64>)
        ensures
            min == min_opt(self.state(), seq_min(items@)),
    {
        serial_min_collect_then_finish(self.collector, items)
    }

    fn collect(&mut self, item: i64) -> (cf: ControlFlow<()>)
        ensures
            final(self).state() == min_opt(old(self).state(), Some(item)),
            cf is Continue,
    {
        serial_min_collect(&mut self.collector, item)
    }
}

impl MinConsumer {
    fn new() -> Self {
        MinConsumer { _unit: () }
    }
}

impl Combiner<Option<i64>> for MinCombiner {
    /// The smaller of both.
    open spec fn combine_spec(&self, left: Option<i64>, right: Option<i64>, combined: Option<i64>) -> bool {
        combined == min_opt(left, right)
    }

    fn combine(self, left: &mut Option<i64>, right: Option<i64>)
        ensures
            *final(left) == min_opt(*old(left), right),
    {
        combine(left, right)
    }
}

impl Consumer for MinConsumer {
    type Output = Option<i64>;

    type Combiner = MinCombiner;

    type Serial = MinSerial;

    /// A serial collector that has collected nothing.
    fn into_collector(self) -> (serial: MinSerial)
        ensures
            serial.state() is None,
    {
        MinSerial { collector: serial_min_new() }
    }

    fn split_off_left_at(&mut self, index: usize) -> (Self, MinCombiner) {
        (self.split_off_left(), self.to_combiner())
    }

    fn break_hint(&self) -> (cf: ControlFlow<()>)
        ensures
            cf is Continue,
    {
        ControlFlow::Continue(())
    }
}

impl UnindexedConsumer for MinConsumer {
    /// Splits hold nothing: any split is as good as any other.
    open spec fn split_spec(before: Self, after: Self, left: Self) -> bool {
        true
    }

    fn split_off_left(&mut self) -> Self {
        MinConsumer::new()
    }

    fn to_combiner(&self) -> MinCombiner {
        MinCombiner { _unit: () }
    }
}

impl ParallelCollectorBase for ParMin {
    type Output = Option<i64>;

    type IndexedConsumer = MinConsumer;

    open spec fn parts_spec(before: Self, len: usize, after: Self, parts: (usize, MinConsumer)) -> bool {
        parts.0 == len && after.current() == before.current()
    }

    open spec fn commit_spec(before: Self, output: Option<i64>, after: Self, cf: ControlFlow<()>) -> bool {
        after.current() == min_opt(before.current(), output) && cf is Continue
    }

    fn finish(self) -> (min: Option<i64>)
        ensures
            min == self.current(),
    {
        self.min
    }

    fn break_hint(&self) -> (cf: ControlFlow<()>)
        ensures
            cf is Continue,
    {
        ControlFlow::Continue(())
    }

    fn parts(&mut self, len: usize) -> (parts: (usize, MinConsumer))
        ensures
            parts.0 == len,
            final(self).current() == old(self).current(),
    {
        (len, MinConsumer::new())
    }

    fn commit(&mut self, output: Option<i64>) -> (cf: ControlFlow<()>)
        ensures
            final(self).current() == min_opt(old(self).current(), output),
            cf is Continue,
    {
        combine(&mut self.min, output);
        ControlFlow::Continue(())
    }
}

impl UnindexedParallelCollectorBase for ParMin {
    type UnindexedParts = MinConsumer;

    open spec fn parts_unindexed_spec(before: Self, after: Self, consumer: MinConsumer) -> bool {
        after.current() == before.current()
    }

    open spec fn commit_unindexed_spec(before: Self, output: Option<i64>, after: Self, cf: ControlFlow<()>) -> bool {
        after.current() == min_opt(before.current(), output) && cf is Continue
    }

    fn parts_unindexed(&mut self) -> (consumer: MinConsumer)
        ensures
            final(self).current() == old(self).current(),
    {
        MinConsumer::new()
    }

    fn commit_unindexed(&mut self, output: Option<i64>) -> (cf: ControlFlow<()>)
        ensures
            final(self).current() == min_opt(old(self).current(), output),
            cf is Continue,
    {
        combine(&mut self.min, output);
        ControlFlow::Continue(())
    }
}

} // verus!
