//! Keeps the collection being filled in the "left most" consumer of a split, and
//! lets every other split collect into a chunk of its own. Combining appends
//! the right chunks to the left collection or to the left chunks, so the
//! items end up in the order they were fed.
use vstd::prelude::*;
use std::ops::ControlFlow;

use crate::cell::CellOptRefMut;
use crate::order::reversed;
use crate::collector::plumbing::{Combiner as CombinerTrait, Consumer as ConsumerTrait, CollectSpec, SerialCollector, SerialCollectorBase, UnindexedConsumer};

verus! {

/// The items of a sequence of chunks, chunk after chunk.
pub open spec fn flatten_chunks<T>(chunks: Seq<Vec<T>>) -> Seq<T> {
    chunks.map_values(|chunk: Vec<T>| chunk@).flatten()
}

/// A collection that items can be pushed to the back of.
pub trait Collection<T>: Sized {
    /// The items of the collection, front to back.
    spec fn elems(&self) -> Seq<T>;

    /// Pushes `elem` to the back.
    fn push_back(&mut self, elem: T)
        ensures
            final(self).elems() == old(self).elems().push(elem),
    ;

    /// Pushes all `elems` to the back, in order.
    fn push_back_iter(&mut self, elems: Vec<T>)
        ensures
            final(self).elems() == old(self).elems() + elems@,
    {
        let ghost start = self.elems();
        let ghost orig = elems@;
        let n = elems.len();
        let mut rev = reversed(elems);
        while rev.len() > 0
            invariant
                rev@.len() <= n,
                n == orig.len(),
                self.elems() == start + orig.take(n - rev@.len()),
                forall|i: int| 0 <= i < rev@.len() ==> #[trigger] rev@[i] == orig[n - 1 - i],
            decreases rev.len(),
        {
            let ghost k = n - rev@.len();
            let elem = rev.pop().unwrap();
            assert(orig.take(k + 1) =~= orig.take(k).push(orig[k]));
            self.push_back(elem);
        }
        assert(orig.take(n as int) =~= orig);
    }

    /// Pushes copies of all `elems` to the back, in order.
    fn push_back_iter_ref(&mut self, elems: &Vec<T>)
        where
            T: Copy,
        ensures
            final(self).elems() == old(self).elems() + elems@,
    {
        let ghost start = self.elems();
        let mut i: usize = 0;
        while i < elems.len()
            invariant
                i <= elems@.len(),
                self.elems() == start + elems@.take(i as int),
            decreases elems.len() - i,
        {
            assert(elems@.take(i + 1) =~= elems@.take(i as int).push(elems@[i as int]));
            self.push_back(elems[i]);
            i = i + 1;
        }
        assert(elems@.take(elems@.len() as int) =~= elems@);
    }

    /// Pushes the items of all `chunks` to the back, chunk after chunk.
    /// `len` is the total number of items, a hint for reserving room.
    fn push_back_linked_vec(&mut self, chunks: Vec<Vec<T>>, len: usize)
        ensures
            final(self).elems() == old(self).elems() + flatten_chunks(chunks@),
    {
        let ghost start = self.elems();
        let ghost orig = chunks@;
        let n = chunks.len();
        let mut rev = reversed(chunks);
        while rev.len() > 0
            invariant
                rev@.len() <= n,
                n == orig.len(),
                self.elems() == start + flatten_chunks(orig.take(n - rev@.len())),
                forall|i: int| 0 <= i < rev@.len() ==> #[trigger] rev@[i] == orig[n - 1 - i],
            decreases rev.len(),
        {
            let ghost k = n - rev@.len();
            let chunk = rev.pop().unwrap();
            proof {
                assert(orig.take(k + 1) =~= orig.take(k).push(orig[k]));
                lemma_flatten_chunks_push(orig.take(k), orig[k]);
            }
            self.push_back_iter(chunk);
        }
        assert(orig.take(n as int) =~= orig);
    }
}

impl<T> Collection<T> for Vec<T> {
    open spec fn elems(&self) -> Seq<T> {
        self@
    }

    fn push_back(&mut self, elem: T) {
        self.push(elem);
    }
}

/// The consumer: the left-most split holds the collection, the others hold
/// nothing and collect into chunks of their own.
pub struct Consumer<C, T> {
    collection: CellOptRefMut<C>,
    _marker: std::marker::PhantomData<T>,
}

/// The serial collector of a [`Consumer`].
pub enum Serial<C, T> {
    /// Pushes straight to the collection.
    LeftMost(C),
    /// Pushes to a chunk of its own.
    Right(Vec<T>),
}

/// The output of a [`Consumer`].
pub enum Output<C, T> {
    /// The collection, with the items pushed to it.
    LeftMost(C),
    /// Chunks of items, in order, and a hint of their total number.
    Right { chunks: Vec<Vec<T>>, len: usize },
}

/// The combiner of a [`Consumer`].
pub struct Combiner {
    _unit: (),
}

/// The items an output stands for: those of the collection, or those of the
/// chunks in order.
pub open spec fn output_items<C: Collection<T>, T>(output: Output<C, T>) -> Seq<T> {
    match output {
        Output::LeftMost(c) => c.elems(),
        Output::Right { chunks, len } => flatten_chunks(chunks@),
    }
}

/// The chunks of a right output, each by its items (none for the left-most
/// output).
pub open spec fn output_chunks<C, T>(output: Output<C, T>) -> Seq<Seq<T>> {
    match output {
        Output::LeftMost(_) => Seq::empty(),
        Output::Right { chunks, len } => chunks@.map_values(|chunk: Vec<T>| chunk@),
    }
}

/// The hint of its number of items that a right output carries (0 for the
/// left-most output).
pub open spec fn output_len<C, T>(output: Output<C, T>) -> usize {
    match output {
        Output::LeftMost(_) => 0,
        Output::Right { chunks, len } => len,
    }
}

/// The chunks a right output made of `items` has: none when there are no
/// items, else one.
pub open spec fn chunks_of<T>(items: Seq<T>) -> Seq<Seq<T>> {
    if items.len() == 0 {
        Seq::empty()
    } else {
        seq![items]
    }
}

/// The items a serial collector has collected (after those of the collection).
pub open spec fn serial_items<C: Collection<T>, T>(serial: Serial<C, T>) -> Seq<T> {
    match serial {
        Serial::LeftMost(c) => c.elems(),
        Serial::Right(chunk) => chunk@,
    }
}

/// Whether a serial collector (or an output) still holds the collection.
pub open spec fn serial_is_left_most<C, T>(serial: Serial<C, T>) -> bool {
    serial is LeftMost
}

impl<C: Collection<T>, T> Consumer<C, T> {
    /// The collection this consumer holds, if it does.
    pub closed spec fn collection(&self) -> Option<C> {
        self.collection.view_opt()
    }

    /// A consumer holding `collection`: the left-most one.
    pub fn new(collection: C) -> (consumer: Self)
        ensures
            consumer.collection() == Some(collection),
    {
        Consumer {
            collection: CellOptRefMut::from(Some(collection)),
            _marker: std::marker::PhantomData,
        }
    }
}

impl<C, T> Output<C, T> {
    /// Whether this output holds the collection.
    pub fn is_left_most(&self) -> (b: bool)
        ensures
            b == (*self is LeftMost),
    {
        match self {
            Output::LeftMost(_) => true,
            Output::Right { .. } => false,
        }
    }
}

/// Makes the output of a chunk: no chunk at all when it is empty.
fn chunk_output<C: Collection<T>, T>(chunk: Vec<T>) -> (output: Output<C, T>)
    ensures
        output is Right,
        output_items(output) == chunk@,
        output_chunks(output) == chunks_of(chunk@),
        output_len(output) == chunk@.len(),
{
    let len = chunk.len();
    if len == 0 {
        let chunks: Vec<Vec<T>> = Vec::new();
        proof {
            assert(chunks@.map_values(|c: Vec<T>| c@) =~= Seq::<Seq<T>>::empty());
            assert(chunk@ =~= Seq::<T>::empty());
        }
        Output::Right { chunks, len }
    } else {
        let mut chunks: Vec<Vec<T>> = Vec::new();
        chunks.push(chunk);
        proof {
            let m = chunks@.map_values(|c: Vec<T>| c@);
            assert(m.len() == 1);
            m.lemma_flatten_singleton();
        }
        Output::Right { chunks, len }
    }
}

impl<C: Collection<T>, T> Serial<C, T> {
    /// Pushes a copy of `item`; it never stops.
    pub fn collect_ref(&mut self, item: &T) -> (cf: ControlFlow<()>)
        where
            T: Copy,
        ensures
            serial_items(*final(self)) == serial_items(*old(self)).push(*item),
            serial_is_left_most(*final(self)) == serial_is_left_most(*old(self)),
            cf is Continue,
    {
        self.collect(*item)
    }

    /// Pushes copies of all `items` in order; it never stops.
    pub fn collect_many_ref(&mut self, items: &Vec<T>) -> (cf: ControlFlow<()>)
        where
            T: Copy,
        ensures
            serial_items(*final(self)) == serial_items(*old(self)) + items@,
            serial_is_left_most(*final(self)) == serial_is_left_most(*old(self)),
            cf is Continue,
    {
        match self {
            Serial::LeftMost(collection) => collection.push_back_iter_ref(items),
            Serial::Right(chunk) => {
                let ghost start = chunk@;
                let mut i: usize = 0;
                while i < items.len()
                    invariant
                        i <= items@.len(),
                        chunk@ == start + items@.take(i as int),
                    decreases items.len() - i,
                {
                    assert(items@.take(i + 1) =~= items@.take(i as int).push(items@[i as int]));
                    chunk.push(items[i]);
                    i = i + 1;
                }
                assert(items@.take(items@.len() as int) =~= items@);
            },
        }
        ControlFlow::Continue(())
    }

}

impl<C: Collection<T>, T> SerialCollectorBase for Serial<C, T> {
    type Output = Output<C, T>;

    /// The output: the collection, or the chunk collected.
    fn finish(self) -> (output: Output<C, T>)
        ensures
            output_items(output) == serial_items(self),
            (output is LeftMost) == serial_is_left_most(self),
            !serial_is_left_most(self) ==> output_chunks(output) == chunks_of(serial_items(self))
                && output_len(output) == serial_items(self).len(),
            self is LeftMost ==> output == Output::<C, T>::LeftMost(self->LeftMost_0),
    {
        match self {
            Serial::LeftMost(collection) => Output::LeftMost(collection),
            Serial::Right(chunk) => chunk_output(chunk),
        }
    }

    fn break_hint(&self) -> (cf: ControlFlow<()>)
        ensures
            cf is Continue,
    {
        ControlFlow::Continue(())
    }
}

impl<C: Collection<T>, T> CollectSpec<T> for Serial<C, T> {
    open spec fn collect_spec(before: Self, item: T, after: Self, cf: ControlFlow<()>) -> bool {
        &&& serial_items(after) == serial_items(before).push(item)
        &&& serial_is_left_most(after) == serial_is_left_most(before)
        &&& cf is Continue
    }
}

impl<C: Collection<T>, T> SerialCollector<T> for Serial<C, T> {
    /// A batch is pushed at once.
    open spec fn batch_spec(before: Self, items: Seq<T>, after: Self, cf: ControlFlow<()>) -> bool {
        &&& serial_items(after) == serial_items(before) + items
        &&& serial_is_left_most(after) == serial_is_left_most(before)
        &&& cf is Continue
    }

    /// A batch is pushed at once, and the output made.
    open spec fn batch_finish_spec(before: Self, items: Seq<T>, output: Output<C, T>) -> bool {
        &&& output_items(output) == serial_items(before) + items
        &&& (output is LeftMost) == serial_is_left_most(before)
        &&& !serial_is_left_most(before) ==> output_chunks(output) == chunks_of(serial_items(before) + items)
            && output_len(output) == (serial_items(before) + items).len()
    }

    /// Pushes all `items` in order; it never stops.
    fn collect_many(&mut self, items: Vec<T>) -> (cf: ControlFlow<()>)
        ensures
            serial_items(*final(self)) == serial_items(*old(self)) + items@,
            serial_is_left_most(*final(self)) == serial_is_left_most(*old(self)),
            cf is Continue,
    {
        match self {
            Serial::LeftMost(collection) => collection.push_back_iter(items),
            Serial::Right(chunk) => {
                let mut items = items;
                chunk.append(&mut items);
            },
        }
        ControlFlow::Continue(())
    }

    /// Pushes all `items` in order, then returns the output.
    fn collect_then_finish(self, items: Vec<T>) -> (output: Output<C, T>)
        ensures
            output_items(output) == serial_items(self) + items@,
            (output is LeftMost) == serial_is_left_most(self),
            !serial_is_left_most(self) ==> output_chunks(output) == chunks_of(serial_items(self) + items@)
                && output_len(output) == (serial_items(self) + items@).len(),
            self is LeftMost ==> exists|m: &mut C| *m == self->LeftMost_0
                && output == Output::<C, T>::LeftMost(*final(m))
                && #[trigger] C::push_back_iter.ensures((m, items), ()),
    {
        match self {
            Serial::LeftMost(collection) => {
                let mut collection = collection;
                collection.push_back_iter(items);
                Output::LeftMost(collection)
            },
            Serial::Right(chunk) => {
                let mut chunk = chunk;
                let mut items = items;
                chunk.append(&mut items);
                chunk_output(chunk)
            },
        }
    }

    /// Pushes `item`; it never stops.
    fn collect(&mut self, item: T) -> (cf: ControlFlow<()>)
        ensures
            serial_items(*final(self)) == serial_items(*old(self)).push(item),
            serial_is_left_most(*final(self)) == serial_is_left_most(*old(self)),
            cf is Continue,
    {
        match self {
            Serial::LeftMost(collection) => collection.push_back(item),
            Serial::Right(chunk) => chunk.push(item),
        }
        ControlFlow::Continue(())
    }
}

impl<C: Collection<T>, T> CombinerTrait<Output<C, T>> for Combiner {
    /// The right output's items go after the left one's.
    open spec fn combine_spec(&self, left: Output<C, T>, right: Output<C, T>, combined: Output<C, T>) -> bool {
        output_items(combined) == output_items(left) + output_items(right) && (combined is LeftMost) == (left is LeftMost)
    }

    /// Only a right output (chunks) can be merged into another output.
    open spec fn combinable(&self, left: Output<C, T>, right: Output<C, T>) -> bool {
        right is Right
    }

    fn combine(self, left: &mut Output<C, T>, right: Output<C, T>)
        ensures
            output_items(*final(left)) == output_items(*old(left)) + output_items(right),
            (*final(left) is LeftMost) == (*old(left) is LeftMost),
            *old(left) is Right ==> output_chunks(*final(left)) == output_chunks(*old(left)) + output_chunks(right)
                && output_len(*final(left)) == if output_len(*old(left)) + output_len(right) > usize::MAX {
                    usize::MAX
                } else {
                    (output_len(*old(left)) + output_len(right)) as usize
                },
            *old(left) is LeftMost && right is Right ==> exists|m: &mut C| *m == old(left)->LeftMost_0
                && *final(left) == Output::<C, T>::LeftMost(*final(m))
                && #[trigger] C::push_back_linked_vec.ensures((m, right->chunks, right->len), ()),
    {
        match right {
            Output::LeftMost(_) => {},
            Output::Right { chunks: right_chunks, len: right_len } => {
                match left {
                    Output::LeftMost(collection) => {
                        collection.push_back_linked_vec(right_chunks, right_len);
                    },
                    Output::Right { chunks, len } => {
                        let mut right_chunks = right_chunks;
                        proof {
                            lemma_flatten_chunks_concat(chunks@, right_chunks@);
                        }
                        chunks.append(&mut right_chunks);
                        *len = len.saturating_add(right_len);
                    },
                }
            },
        }
    }
}

/// Flattening after pushing a chunk appends the chunk's items.
pub proof fn lemma_flatten_chunks_push<T>(chunks: Seq<Vec<T>>, chunk: Vec<T>)
    ensures
        flatten_chunks(chunks.push(chunk)) == flatten_chunks(chunks) + chunk@,
{
    assert(chunks.push(chunk).map_values(|c: Vec<T>| c@)
        =~= chunks.map_values(|c: Vec<T>| c@).push(chunk@));
    chunks.map_values(|c: Vec<T>| c@).lemma_flatten_push(chunk@);
}

/// Flattening is distributive over concatenation of chunk sequences.
pub proof fn lemma_flatten_chunks_concat<T>(x: Seq<Vec<T>>, y: Seq<Vec<T>>)
    ensures
        flatten_chunks(x + y) == flatten_chunks(x) + flatten_chunks(y),
{
    assert((x + y).map_values(|c: Vec<T>| c@)
        =~= x.map_values(|c: Vec<T>| c@) + y.map_values(|c: Vec<T>| c@));
    vstd::seq_lib::lemma_flatten_concat(x.map_values(|c: Vec<T>| c@), y.map_values(|c: Vec<T>| c@));
}

impl<C: Collection<T>, T> ConsumerTrait for Consumer<C, T> {
    /// The left split takes the collection, if there is one.
    open spec fn split_at_spec(before: Self, index: usize, after: Self, split: (Self, Self::Combiner)) -> bool {
        split.0.collection() == before.collection() && after.collection() is None
    }

    type Output = Output<C, T>;

    type Combiner = Combiner;

    type Serial = Serial<C, T>;

    /// Converts into a serial collector: the left-most one pushes to the
    /// collection, any other to an empty chunk.
    fn into_collector(self) -> (serial: Serial<C, T>)
        ensures
            match self.collection() {
                Some(c) => serial == Serial::<C, T>::LeftMost(c),
                None => serial is Right && serial_items(serial) == Seq::<T>::empty(),
            },
    {
        match self.collection.into_inner() {
            Some(collection) => Serial::LeftMost(collection),
            None => Serial::Right(Vec::new()),
        }
    }

    fn split_off_left_at(&mut self, index: usize) -> (split: (Self, Combiner))
        ensures
            split.0.collection() == old(self).collection(),
            final(self).collection() is None,
    {
        (self.split_off_left(), self.to_combiner())
    }

    fn break_hint(&self) -> (cf: ControlFlow<()>)
        ensures
            cf is Continue,
    {
        ControlFlow::Continue(())
    }
}

impl<C: Collection<T>, T> UnindexedConsumer for Consumer<C, T> {
    /// The left split takes the collection, if there is one.
    open spec fn split_spec(before: Self, after: Self, left: Self) -> bool {
        left.collection() == before.collection() && after.collection() is None
    }

    /// The left split takes the collection, if this consumer held it.
    fn split_off_left(&mut self) -> (left: Self)
        ensures
            left.collection() == old(self).collection(),
            final(self).collection() is None,
    {
        Consumer { collection: CellOptRefMut::from(self.collection.take()), _marker: std::marker::PhantomData }
    }

    fn to_combiner(&self) -> Combiner {
        Combiner { _unit: () }
    }
}

} // verus!
