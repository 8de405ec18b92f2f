//! An unindexed consumer over an extender: the left-most split extends the
//! extender directly, any other split collects into a chunk of its own, and
//! combining moves the right chunks into the left, keeping the order.
use vstd::prelude::*;
use std::ops::ControlFlow;

use crate::collections::linked_vec::{flatten_chunks, lemma_flatten_chunks_concat, lemma_flatten_chunks_push};
use crate::order::reversed;
use crate::collector::plumbing::{finishes, Combiner, Consumer, CollectSpec, SerialCollector, SerialCollectorBase, UnindexedConsumer};

verus! {

/// Something that items can be appended to, one by one or many at once.
pub trait Extender<T>: Sized {
    /// The items appended so far, in order.
    spec fn extended(&self) -> Seq<T>;

    /// Appends one item.
    fn extend_one(&mut self, item: T)
        ensures
            final(self).extended() == old(self).extended().push(item),
    ;

    /// Appends all `items`, in order.
    fn extend_many(&mut self, items: Vec<T>)
        ensures
            final(self).extended() == old(self).extended() + items@,
    ;
}

impl<T> Extender<T> for Vec<T> {
    open spec fn extended(&self) -> Seq<T> {
        self@
    }

    fn extend_one(&mut self, item: T) {
        self.push(item);
    }

    fn extend_many(&mut self, items: Vec<T>) {
        let mut items = items;
        self.append(&mut items);
    }
}

enum ConsumerState<E, T> {
    LeftMost(E),
    Right(Vec<T>),
}

enum OutputState<E, T> {
    LeftMost(E),
    Right(Vec<Vec<T>>),
}

/// The output of an [`ExtenderConsumer`]: the extender itself for the
/// left-most split, chunks of items for the others.
pub struct Output<E, T> {
    state: OutputState<E, T>,
}

/// An unindexed consumer (and its own serial collector) over an extender.
pub struct ExtenderConsumer<E, T> {
    state: ConsumerState<E, T>,
}

/// The serial collector of an [`ExtenderConsumer`].
pub struct ExtenderSerial<E, T> {
    state: ConsumerState<E, T>,
}

/// The combiner of an [`ExtenderConsumer`].
pub struct ExtenderCombiner {
    _unit: (),
}

impl<E: Extender<T>, T> Output<E, T> {
    /// Whether this output holds the extender.
    pub closed spec fn is_left_most(&self) -> bool {
        self.state is LeftMost
    }

    /// The items this output stands for: those of the extender, or those of
    /// the chunks in order.
    pub closed spec fn items(&self) -> Seq<T> {
        match self.state {
            OutputState::LeftMost(e) => e.extended(),
            OutputState::Right(chunks) => flatten_chunks(chunks@),
        }
    }

    /// The extender held by a left-most output.
    pub closed spec fn extender(&self) -> E
        recommends
            self.is_left_most(),
    {
        self.state->LeftMost_0
    }

    /// Returns the extender; the output must be the fully reduced, left-most
    /// one.
    pub fn unwrap(self) -> (extender: E)
        requires
            self.is_left_most(),
        ensures
            extender == self.extender(),
            extender.extended() == self.items(),
    {
        match self.state {
            OutputState::LeftMost(extender) => extender,
            OutputState::Right(_) => vstd::pervasive::unreached(),
        }
    }
}

/// A consumer that extends `extender` with the items of its left-most split.
pub fn unindexed_linked_vec_consumer<E: Extender<T>, T>(extender: E) -> (consumer: ExtenderConsumer<E, T>)
    ensures
        consumer.is_left_most(),
        consumer.items() == extender.extended(),
        consumer.extender() == extender,
{
    ExtenderConsumer { state: ConsumerState::LeftMost(extender) }
}

impl<E: Extender<T>, T> ExtenderConsumer<E, T> {
    /// Whether this consumer holds the extender.
    pub closed spec fn is_left_most(&self) -> bool {
        self.state is LeftMost
    }

    /// The items collected so far (those of the extender for the left-most).
    pub closed spec fn items(&self) -> Seq<T> {
        match self.state {
            ConsumerState::LeftMost(e) => e.extended(),
            ConsumerState::Right(chunk) => chunk@,
        }
    }

    /// The extender held by a left-most consumer.
    pub closed spec fn extender(&self) -> E
        recommends
            self.is_left_most(),
    {
        self.state->LeftMost_0
    }
}

impl<E: Extender<T>, T> ExtenderSerial<E, T> {
    /// Whether this serial collector holds the extender.
    pub closed spec fn is_left_most(&self) -> bool {
        self.state is LeftMost
    }

    /// The items collected so far (those of the extender for the left-most).
    pub closed spec fn items(&self) -> Seq<T> {
        match self.state {
            ConsumerState::LeftMost(e) => e.extended(),
            ConsumerState::Right(chunk) => chunk@,
        }
    }

    /// The extender held by a left-most serial collector.
    pub closed spec fn extender(&self) -> E
        recommends
            self.is_left_most(),
    {
        self.state->LeftMost_0
    }

}

impl<E: Extender<T>, T> SerialCollectorBase for ExtenderSerial<E, T> {
    type Output = Output<E, T>;

    /// The output: the extender, or the chunk collected.
    fn finish(self) -> (output: Output<E, T>)
        ensures
            output.items() == self.items(),
            output.is_left_most() == self.is_left_most(),
    {
        match self.state {
            ConsumerState::LeftMost(extender) => Output { state: OutputState::LeftMost(extender) },
            ConsumerState::Right(chunk) => {
                let mut chunks: Vec<Vec<T>> = Vec::new();
                chunks.push(chunk);
                proof {
                    let m = chunks@.map_values(|c: Vec<T>| c@);
                    assert(m.len() == 1);
                    m.lemma_flatten_singleton();
                }
                Output { state: OutputState::Right(chunks) }
            },
        }
    }

    fn break_hint(&self) -> (cf: ControlFlow<()>)
        ensures
            cf is Continue,
    {
        ControlFlow::Continue(())
    }
}

impl<E: Extender<T>, T> CollectSpec<T> for ExtenderSerial<E, T> {
    open spec fn collect_spec(before: Self, item: T, after: Self, cf: ControlFlow<()>) -> bool {
        &&& after.items() == before.items().push(item)
        &&& after.is_left_most() == before.is_left_most()
        &&& cf is Continue
    }
}

impl<E: Extender<T>, T> SerialCollector<T> for ExtenderSerial<E, T> {
    /// A batch is appended at once.
    open spec fn batch_spec(before: Self, items: Seq<T>, after: Self, cf: ControlFlow<()>) -> bool {
        &&& after.items() == before.items() + items
        &&& after.is_left_most() == before.is_left_most()
        &&& cf is Continue
    }

    /// Appends all `items` in order; it never stops.
    fn collect_many(&mut self, items: Vec<T>) -> (cf: ControlFlow<()>)
        ensures
            final(self).items() == old(self).items() + items@,
            final(self).is_left_most() == old(self).is_left_most(),
            cf is Continue,
    {
        match &mut self.state {
            ConsumerState::LeftMost(extender) => extender.extend_many(items),
            ConsumerState::Right(chunk) => {
                let mut items = items;
                chunk.append(&mut items);
            },
        }
        ControlFlow::Continue(())
    }

    /// Appends all `items` in order, then returns the output.
    fn collect_then_finish(self, items: Vec<T>) -> (output: Output<E, T>)
        ensures
            output.items() == self.items() + items@,
            output.is_left_most() == self.is_left_most(),
    {
        let ghost all = items@;
        let mut this = self;
        let cf = this.collect_many(items);
        let output = this.finish();
        assert(finishes(this, output));
        assert(Self::batch_spec(self, all, this, cf));
        output
    }

    /// Appends `item`; it never stops.
    fn collect(&mut self, item: T) -> (cf: ControlFlow<()>)
        ensures
            final(self).items() == old(self).items().push(item),
            final(self).is_left_most() == old(self).is_left_most(),
            cf is Continue,
    {
        match &mut self.state {
            ConsumerState::LeftMost(extender) => extender.extend_one(item),
            ConsumerState::Right(chunk) => chunk.push(item),
        }
        ControlFlow::Continue(())
    }
}

impl<E: Extender<T>, T> Combiner<Output<E, T>> for ExtenderCombiner {
    /// The right output's items go after the left one's.
    open spec fn combine_spec(&self, left: Output<E, T>, right: Output<E, T>, combined: Output<E, T>) -> bool {
        combined.items() == left.items() + right.items() && combined.is_left_most() == left.is_left_most()
    }

    /// Only a right output (chunks) can be merged into another output.
    open spec fn combinable(&self, left: Output<E, T>, right: Output<E, T>) -> bool {
        !right.is_left_most()
    }

    fn combine(self, left: &mut Output<E, T>, right: Output<E, T>)
        ensures
            final(left).items() == old(left).items() + right.items(),
            final(left).is_left_most() == old(left).is_left_most(),
    {
        match right.state {
            OutputState::LeftMost(_) => {},
            OutputState::Right(chunks) => {
                let ghost orig = chunks@;
                let n = chunks.len();
                match &mut left.state {
                    OutputState::LeftMost(extender) => {
                        let ghost start = extender.extended();
                        let mut rev = reversed(chunks);
                        while rev.len() > 0
                            invariant
                                rev@.len() <= n,
                                n == orig.len(),
                                extender.extended() == start + flatten_chunks(orig.take(n - rev@.len())),
                                forall|i: int| 0 <= i < rev@.len() ==> #[trigger] rev@[i] == orig[n - 1 - i],
                            decreases rev.len(),
                        {
                            let ghost k = n - rev@.len();
                            let chunk = rev.pop().unwrap();
                            proof {
                                lemma_flatten_chunks_push(orig.take(k), orig[k]);
                                assert(orig.take(k + 1) =~= orig.take(k).push(orig[k]));
                            }
                            extender.extend_many(chunk);
                        }
                        assert(orig.take(n as int) =~= orig);
                    },
                    OutputState::Right(left_chunks) => {
                        let mut chunks = chunks;
                        proof {
                            lemma_flatten_chunks_concat(left_chunks@, chunks@);
                        }
                        left_chunks.append(&mut chunks);
                    },
                }
            },
        }
    }
}

impl<E: Extender<T>, T> Consumer for ExtenderConsumer<E, T> {
    /// The left split takes over the state; the right one starts over empty.
    open spec fn split_at_spec(before: Self, index: usize, after: Self, split: (Self, Self::Combiner)) -> bool {
        &&& split.0.is_left_most() == before.is_left_most() && split.0.items() == before.items()
        &&& !after.is_left_most() && after.items() == Seq::<T>::empty()
    }

    type Output = Output<E, T>;

    type Combiner = ExtenderCombiner;

    type Serial = ExtenderSerial<E, T>;

    /// A serial collector carrying on from this consumer's state.
    fn into_collector(self) -> (serial: ExtenderSerial<E, T>)
        ensures
            serial.is_left_most() == self.is_left_most(),
            serial.items() == self.items(),
            self.is_left_most() ==> serial.extender() == self.extender(),
    {
        ExtenderSerial { state: self.state }
    }

    fn split_off_left_at(&mut self, index: usize) -> (split: (Self, ExtenderCombiner))
        ensures
            split.0.is_left_most() == old(self).is_left_most(),
            split.0.items() == old(self).items(),
            !final(self).is_left_most(),
            final(self).items() == Seq::<T>::empty(),
    {
        (self.split_off_left(), self.to_combiner())
    }

    fn break_hint(&self) -> (cf: ControlFlow<()>)
        ensures
            cf is Continue,
    {
        ControlFlow::Continue(())
    }
}

impl<E: Extender<T>, T> UnindexedConsumer for ExtenderConsumer<E, T> {
    /// The left split takes over the state; the right one starts over empty.
    open spec fn split_spec(before: Self, after: Self, left: Self) -> bool {
        left.is_left_most() == before.is_left_most() && left.items() == before.items() && !after.is_left_most() && after.items() == Seq::<T>::empty()
    }

    /// The left split takes over this consumer's state; this one starts over
    /// with an empty chunk.
    fn split_off_left(&mut self) -> (left: Self)
        ensures
            left.is_left_most() == old(self).is_left_most(),
            left.items() == old(self).items(),
            !final(self).is_left_most(),
            final(self).items() == Seq::<T>::empty(),
    {
        let mut state = ConsumerState::Right(Vec::new());
        std::mem::swap(&mut state, &mut self.state);
        ExtenderConsumer { state }
    }

    fn to_combiner(&self) -> ExtenderCombiner {
        ExtenderCombiner { _unit: () }
    }
}

} // verus!
