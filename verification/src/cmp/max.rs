use vstd::prelude::*;
use std::ops::ControlFlow;

use komadori::cmp::Max;
use komadori::collector::{Collector, CollectorBase};

use crate::collector::plumbing::{Combiner, Consumer, CollectSpec, SerialCollector, SerialCollectorBase, UnindexedConsumer};
use crate::collector::{ParallelCollectorBase, UnindexedParallelCollectorBase};

verus! {

/// The greater of two optional maxima; `None` means "nothing collected".
/// On a tie the right one is kept, as `Iterator::max()` keeps the last.
pub open spec fn max_opt(left: Option<i64>, right: Option<i64>) -> Option<i64> {
    match (left, right) {
        (None, r) => r,
        (l, None) => l,
        (Some(l), Some(r)) => if r < l { Some(l) } else { Some(r) },
    }
}

/// The maximum of a sequence of items, `None` when it is empty.
pub open spec fn seq_max(items: Seq<i64>) -> Option<i64>
    decreases items.len(),
{
    if items.len() == 0 {
        None
    } else {
        max_opt(seq_max(items.drop_last()), Some(items.last()))
    }
}

/// Combining optional results is associative: partial results may be grouped
/// in any way.
pub proof fn lemma_max_opt_assoc(a: Option<i64>, b: Option<i64>, c: Option<i64>)
    ensures
        max_opt(max_opt(a, b), c) == max_opt(a, max_opt(b, c)),
{
}

/// Combining optional results is commutative.
pub proof fn lemma_max_opt_comm(a: Option<i64>, b: Option<i64>)
    ensures
        max_opt(a, b) == max_opt(b, a),
{
}

/// Splitting the items anywhere and combining the results of both halves
/// gives the result of collecting all items serially.
pub proof fn lemma_seq_max_split(left: Seq<i64>, right: Seq<i64>)
    ensures
        seq_max(left + right) == max_opt(seq_max(left), seq_max(right)),
    decreases right.len(),
{
    if right.len() == 0 {
        assert(left + right =~= left);
    } else {
        assert((left + right).drop_last() =~= left + right.drop_last());
        assert((left + right).last() == right.last());
        lemma_seq_max_split(left, right.drop_last());
        lemma_max_opt_assoc(seq_max(left), seq_max(right.drop_last()), Some(right.last()));
    }
}

/// The result is `None` exactly for no items, and otherwise the greatest of
/// the items, which is one of them.
pub proof fn lemma_seq_max_is_max(items: Seq<i64>)
    ensures
        seq_max(items) is None <==> items.len() == 0,
        seq_max(items) matches Some(m) ==> items.contains(m)
            && forall|i: int| 0 <= i < items.len() ==> { let x = #[trigger] items[i]; x <= m },
    decreases items.len(),
{
    if items.len() > 0 {
        let init = items.drop_last();
        lemma_seq_max_is_max(init);
        assert forall|i: int| 0 <= i < init.len() implies #[trigger] items[i] == init[i] by {}
        if seq_max(init) is Some {
            let k = choose|k: int| 0 <= k < init.len() && init[k] == seq_max(init)->0;
            assert(items[k] == init[k]);
        }
        assert(items[items.len() - 1] == items.last());
    }
}

/// A cycle whose consumer was split anywhere commits what collecting all of
/// its items serially would: the serial collectors of the two splits
/// collect `left` and `right`, their outputs are combined, and the result is
/// committed to a collector holding `current`.
pub proof fn lemma_par_max_cycle(current: Option<i64>, left: Seq<i64>, right: Seq<i64>)
    ensures
        max_opt(current, max_opt(seq_max(left), seq_max(right))) == max_opt(current, seq_max(left + right)),
{
    lemma_seq_max_split(left, right);
}

#[verifier::external_type_specification]
#[verifier::external_body]
#[verifier::reject_recursive_types(T)]
pub struct ExMax<T>(Max<T>);

/// What a `komadori` maximum collector has collected so far.
pub uninterp spec fn serial_max_state(collector: Max<i64>) -> Option<i64>;

/// `komadori::cmp::Max::new`: a maximum collector that has collected nothing.
#[verifier::external_body]
fn serial_max_new() -> (collector: Max<i64>)
    ensures
        serial_max_state(collector) is None,
{
    Max::new()
}

/// `Collector::collect` of `komadori::cmp::Max`: the state becomes the
/// greater of the state and the item (the item on a tie), and it never stops.
#[verifier::external_body]
fn serial_max_collect(collector: &mut Max<i64>, item: i64) -> (cf: ControlFlow<()>)
    ensures
        serial_max_state(*final(collector)) == max_opt(serial_max_state(*old(collector)), Some(item)),
        cf is Continue,
{
    collector.collect(item)
}

/// `Collector::collect_many` of `komadori::cmp::Max`: the state becomes the
/// greater of the state and the maximum of `items`, and it never stops.
#[verifier::external_body]
fn serial_max_collect_many(collector: &mut Max<i64>, items: Vec<i64>) -> (cf: ControlFlow<()>)
    ensures
        serial_max_state(*final(collector)) == max_opt(serial_max_state(*old(collector)), seq_max(items@)),
        cf is Continue,
{
    collector.collect_many(items)
}

/// `Collector::collect_then_finish` of `komadori::cmp::Max`: the greater of
/// the state and the maximum of `items`.
#[verifier::external_body]
fn serial_max_collect_then_finish(collector: Max<i64>, items: Vec<i64>) -> (max: Option<i64>)
    ensures
        max == max_opt(serial_max_state(collector), seq_max(items@)),
{
    collector.collect_then_finish(items)
}

/// `CollectorBase::finish` of `komadori::cmp::Max`: returns the state.
#[verifier::external_body]
fn serial_max_finish(collector: Max<i64>) -> (max: Option<i64>)
    ensures
        max == serial_max_state(collector),
{
    collector.finish()
}

/// Merges `right` into `left`, keeping the greater.
fn combine(left: &mut Option<i64>, right: Option<i64>)
    ensures
        *final(left) == max_opt(*old(left), right),
{
    match right {
        None => {},
        Some(r) => {
            match *left {
                None => { *left = Some(r); },
                Some(l) => {
                    if r < l {
                    } else {
                        *left = Some(r);
                    }
                },
            }
        },
    }
}

/// A parallel collector that computes the maximum value among the items it
/// collects. Its output is `None` if it has not collected any items.
#[derive(Debug, Clone)]
pub struct ParMax {
    max: Option<i64>,
}

/// The consumer of [`ParMax`]; each serial part starts from nothing.
pub struct MaxConsumer {
    _unit: (),
}

/// The combiner of [`MaxConsumer`]: keeps the greater output.
pub struct MaxCombiner {
    _unit: (),
}

impl ParMax {
    /// The maximum accumulated so far.
    pub closed spec fn current(&self) -> Option<i64> {
        self.max
    }

    /// Creates a new instance of this parallel collector.
    pub fn new() -> (collector: Self)
        ensures
            collector.current() is None,
    {
        ParMax { max: None }
    }

    /// Same as [`new()`](Self::new).
    pub fn default() -> (collector: Self)
        ensures
            collector.current() is None,
    {
        Self::new()
    }
}

/// The serial collector of a [`MaxConsumer`]: a `komadori` maximum collector.
pub struct MaxSerial {
    collector: Max<i64>,
}

impl MaxSerial {
    /// The maximum collected so far.
    pub closed spec fn state(&self) -> Option<i64> {
        serial_max_state(self.collector)
    }

}

impl SerialCollectorBase for MaxSerial {
    type Output = Option<i64>;

    fn finish(self) -> (max: Option<i64>)
        ensures
            max == self.state(),
    {
        serial_max_finish(self.collector)
    }

    fn break_hint(&self) -> (cf: ControlFlow<()>)
        ensures
            cf is Continue,
    {
        ControlFlow::Continue(())
    }
}

impl CollectSpec<i64> for MaxSerial {
    open spec fn collect_spec(before: Self, item: i64, after: Self, cf: ControlFlow<()>) -> bool {
        after.state() == max_opt(before.state(), Some(item)) && cf is Continue
    }
}

impl SerialCollector<i64> for MaxSerial {
    /// A batch goes to the `komadori` collector at once.
    open spec fn batch_spec(before: Self, items: Seq<i64>, after: Self, cf: ControlFlow<()>) -> bool {
        after.state() == max_opt(before.state(), seq_max(items)) && cf is Continue
    }

    /// A batch goes to the `komadori` collector at once.
    open spec fn batch_finish_spec(before: Self, items: Seq<i64>, output: Option<i64>) -> bool {
        output == max_opt(before.state(), seq_max(items))
    }

    /// Collects all `items` in order; it never stops.
    fn collect_many(&mut self, items: Vec<i64>) -> (cf: ControlFlow<()>)
        ensures
            final(self).state() == max_opt(old(self).state(), seq_max(items@)),
            cf is Continue,
    {
        serial_max_collect_many(&mut self.collector, items)
    }

    /// Collects all `items` in order, then returns the output.
    fn collect_then_finish(self, items: Vec<i64>) -> (max: Option<i64>)
        ensures
            max == max_opt(self.state(), seq_max(items@)),
    {
        serial_max_collect_then_finish(self.collector, items)
    }

    fn collect(&mut self, item: i64) -> (cf: ControlFlow<()>)
        ensures
            final(self).state() == max_opt(old(self).state(), Some(item)),
            cf is Continue,
    {
        serial_max_collect(&mut self.collector, item)
    }
}

impl MaxConsumer {
    fn new() -> Self {
        MaxConsumer { _unit: () }
    }
}

impl Combiner<Option<i64>> for MaxCombiner {
    /// The greater of both.
    open spec fn combine_spec(&self, left: Option<i64>, right: Option<i64>, combined: Option<i64>) -> bool {
        combined == max_opt(left, right)
    }

    fn combine(self, left: &mut Option<i64>, right: Option<i64>)
        ensures
            *final(left) == max_opt(*old(left), right),
    {
        combine(left, right)
    }
}

impl Consumer for MaxConsumer {
    type Output = Option<i64>;

    type Combiner = MaxCombiner;

    type Serial = MaxSerial;

    /// A serial collector that has collected nothing.
    fn into_collector(self) -> (serial: MaxSerial)
        ensures
            serial.state() is None,
    {
        MaxSerial { collector: serial_max_new() }
    }

    fn split_off_left_at(&mut self, index: usize) -> (Self, MaxCombiner) {
        (self.split_off_left(), self.to_combiner())
    }

    fn break_hint(&self) -> (cf: ControlFlow<()>)
        ensures
            cf is Continue,
    {
        ControlFlow::Continue(())
    }
}

impl UnindexedConsumer for MaxConsumer {
    /// Splits hold nothing: any split is as good as any other.
    open spec fn split_spec(before: Self, after: Self, left: Self) -> bool {
        true
    }

    fn split_off_left(&mut self) -> Self {
        MaxConsumer::new()
    }

    fn to_combiner(&self) -> MaxCombiner {
        MaxCombiner { _unit: () }
    }
}

impl ParallelCollectorBase for ParMax {
    type Output = Option<i64>;

    type IndexedConsumer = MaxConsumer;

    open spec fn parts_spec(before: Self, len: usize, after: Self, parts: (usize, MaxConsumer)) -> bool {
        parts.0 == len && after.current() == before.current()
    }

    open spec fn commit_spec(before: Self, output: Option<i64>, after: Self, cf: ControlFlow<()>) -> bool {
        after.current() == max_opt(before.current(), output) && cf is Continue
    }

    fn finish(self) -> (max: Option<i64>)
        ensures
            max == self.current(),
    {
        self.max
    }

    fn break_hint(&self) -> (cf: ControlFlow<()>)
        ensures
            cf is Continue,
    {
        ControlFlow::Continue(())
    }

    fn parts(&mut self, len: usize) -> (parts: (usize, MaxConsumer))
        ensures
            parts.0 == len,
            final(self).current() == old(self).current(),
    {
        (len, MaxConsumer::new())
    }

    fn commit(&mut self, output: Option<i64>) -> (cf: ControlFlow<()>)
        ensures
            final(self).current() == max_opt(old(self).current(), output),
            cf is Continue,
    {
        combine(&mut self.max, output);
        ControlFlow::Continue(())
    }
}

impl UnindexedParallelCollectorBase for ParMax {
    type UnindexedParts = MaxConsumer;

    open spec fn parts_unindexed_spec(before: Self, after: Self, consumer: MaxConsumer) -> bool {
        after.current() == before.current()
    }

    open spec fn commit_unindexed_spec(before: Self, output: Option<i64>, after: Self, cf: ControlFlow<()>) -> bool {
        after.current() == max_opt(before.current(), output) && cf is Continue
    }

    fn parts_unindexed(&mut self) -> (consumer: MaxConsumer)
        ensures
            final(self).current() == old(self).current(),
    {
        MaxConsumer::new()
    }

    fn commit_unindexed(&mut self, output: Option<i64>) -> (cf: ControlFlow<()>)
        ensures
            final(self).current() == max_opt(old(self).current(), output),
            cf is Continue,
    {
        combine(&mut self.max, output);
        ControlFlow::Continue(())
    }
}

} // verus!
