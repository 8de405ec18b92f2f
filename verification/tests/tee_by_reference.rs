use std::ops::ControlFlow;

use komadori_rayon::collector::plumbing::{CollectSpec, Combiner, Consumer, SerialCollector, SerialCollectorBase, UnindexedConsumer};
use komadori_rayon::collector::{IntoParallelCollectorBase, ParallelCollectorAdapters, ParallelCollectorBase};

/// A parallel collector of mutable references that doubles each item in
/// place and counts them.
struct Doubling {
    count: usize,
}

struct DoublingConsumer;

struct DoublingSerial {
    count: usize,
}

struct AddCounts;

impl SerialCollectorBase for DoublingSerial {
    type Output = usize;

    fn finish(self) -> usize {
        self.count
    }

    fn break_hint(&self) -> ControlFlow<()> {
        ControlFlow::Continue(())
    }
}

// Its contract is what its `collect` does: nothing is stated of it here.
impl<'a> CollectSpec<&'a mut i32> for DoublingSerial {}

impl<'a> SerialCollector<&'a mut i32> for DoublingSerial {
    fn collect(&mut self, item: &'a mut i32) -> ControlFlow<()> {
        *item *= 2;
        self.count += 1;
        ControlFlow::Continue(())
    }
}

impl Combiner<usize> for AddCounts {
    fn combine(self, left: &mut usize, right: usize) {
        *left += right;
    }
}

impl Consumer for DoublingConsumer {
    type Output = usize;
    type Combiner = AddCounts;
    type Serial = DoublingSerial;

    fn into_collector(self) -> DoublingSerial {
        DoublingSerial { count: 0 }
    }

    fn split_off_left_at(&mut self, _index: usize) -> (Self, AddCounts) {
        (DoublingConsumer, AddCounts)
    }

    fn break_hint(&self) -> ControlFlow<()> {
        ControlFlow::Continue(())
    }
}

impl UnindexedConsumer for DoublingConsumer {
    fn split_off_left(&mut self) -> Self {
        DoublingConsumer
    }

    fn to_combiner(&self) -> AddCounts {
        AddCounts
    }
}

impl ParallelCollectorBase for Doubling {
    type Output = usize;
    type IndexedConsumer = DoublingConsumer;

    fn finish(self) -> usize {
        self.count
    }

    fn break_hint(&self) -> ControlFlow<()> {
        ControlFlow::Continue(())
    }

    fn parts(&mut self, len: usize) -> (usize, DoublingConsumer) {
        (len, DoublingConsumer)
    }

    fn commit(&mut self, output: usize) -> ControlFlow<()> {
        self.count += output;
        ControlFlow::Continue(())
    }
}

fn drive_split<C, T>(collector: &mut C, items: Vec<T>, at: usize) -> ControlFlow<()>
where
    C: ParallelCollectorBase<IndexedConsumer: Consumer<Serial: SerialCollector<T>>>,
{
    let mut items = items;
    let (len, mut consumer) = collector.parts(items.len());
    items.truncate(len);
    let at = at.min(items.len());
    let right_items = items.split_off(at);
    let (left, combiner) = consumer.split_off_left_at(at);
    let mut left_output = left.into_collector().collect_then_finish(items);
    let right_output = consumer.into_collector().collect_then_finish(right_items);
    combiner.combine(&mut left_output, right_output);
    collector.commit(left_output)
}

#[test]
fn tee_funnel_lends_each_item_to_the_first_collector() {
    let mut collector = Doubling { count: 0 }.tee_funnel(Vec::<i32>::new());
    assert!(drive_split(&mut collector, vec![1, 2, 3], 1).is_continue());
    assert_eq!(collector.finish(), (3, vec![2, 4, 6]));
}

#[test]
fn tee_funnel_gives_items_to_the_second_once_the_first_stops() {
    let mut collector = Doubling { count: 0 }.take(1).tee_funnel(Vec::<i32>::new().into_par_collector());
    assert!(drive_split(&mut collector, vec![1, 2, 3], 3).is_continue());
    assert_eq!(collector.finish(), (1, vec![2, 2, 3]));
}

#[test]
fn tee_mut_relends_each_item_to_both() {
    let mut nums = vec![1, 2, 3];
    {
        let mut collector = Doubling { count: 0 }.tee_mut(Doubling { count: 0 });
        assert!(drive_split(&mut collector, nums.iter_mut().collect(), 2).is_continue());
        assert_eq!(collector.finish(), (3, 3));
    }
    assert_eq!(nums, vec![4, 8, 12]);
}
