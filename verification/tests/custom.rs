use std::collections::HashSet;
use std::ops::ControlFlow;

use komadori_rayon::collector::plumbing::{Combiner, Consumer, SerialCollector, SerialCollectorBase, UnindexedConsumer};
use komadori_rayon::collector::{Custom, IntoParallelCollectorBase, ParallelCollectorAdapters, ParallelCollectorBase, UnindexedParallelCollectorBase};

fn drive_split<C>(collector: &mut C, items: Vec<i32>, at: usize) -> ControlFlow<()>
where
    C: ParallelCollectorBase<IndexedConsumer: Consumer<Serial: SerialCollector<i32>>>,
{
    let mut items = items;
    let (len, mut consumer) = collector.parts(items.len());
    items.truncate(len);
    let at = at.min(items.len());
    let right_items = items.split_off(at);
    let (left, combiner) = consumer.split_off_left_at(at);
    let mut left_output = left.into_collector().collect_then_finish(items);
    let right_output = consumer.into_collector().collect_then_finish(right_items);
    combiner.combine(&mut left_output, right_output);
    collector.commit(left_output)
}

fn drive_unindexed<C>(collector: &mut C, items: Vec<i32>, at: usize) -> ControlFlow<()>
where
    C: UnindexedParallelCollectorBase<UnindexedParts: Consumer<Serial: SerialCollector<i32>>>,
{
    let mut items = items;
    let mut consumer = collector.parts_unindexed();
    let at = at.min(items.len());
    let right_items = items.split_off(at);
    let left = consumer.split_off_left();
    let combiner = consumer.to_combiner();
    let mut left_output = left.into_collector().collect_then_finish(items);
    let right_output = consumer.into_collector().collect_then_finish(right_items);
    combiner.combine(&mut left_output, right_output);
    collector.commit_unindexed(left_output)
}

#[test]
fn custom_hash_set_collector() {
    let mut collector = Custom::new(
        HashSet::new(),
        |_: &HashSet<i32>| ControlFlow::Continue(()),
        |_: &mut HashSet<i32>| Vec::<i32>::new(),
        |set: &mut HashSet<i32>, items: Vec<i32>| set.extend(items),
    );
    assert!(drive_split(&mut collector, vec![1, 4, 5, 4], 2).is_continue());
    assert!(drive_unindexed(&mut collector, vec![3, 1, 2], 1).is_continue());
    assert_eq!(collector.finish(), HashSet::from([1, 2, 3, 4, 5]));
}

#[test]
fn custom_break_hint_reads_the_state() {
    let mut collector = Custom::new(
        Vec::<i32>::new(),
        |nums: &Vec<i32>| if nums.len() >= 2 { ControlFlow::Break(()) } else { ControlFlow::Continue(()) },
        |_: &mut Vec<i32>| Vec::<i32>::new().into_par_collector().take(2),
        |nums: &mut Vec<i32>, items: Vec<i32>| nums.extend(items),
    );
    assert!(collector.break_hint().is_continue());
    // The output of a cycle reaches the state when the next cycle begins.
    assert!(drive_split(&mut collector, vec![1, 2, 3], 1).is_continue());
    let (_, consumer) = collector.parts(0);
    assert!(collector.commit(consumer.into_collector().finish()).is_break());
    assert_eq!(collector.finish(), vec![1, 2]);
}

#[test]
fn custom_also_unindexed_uses_its_own_unindexed_collector() {
    let mut collector = Custom::new(
        Vec::<i32>::new(),
        |_: &Vec<i32>| ControlFlow::Continue(()),
        |_: &mut Vec<i32>| Vec::<i32>::new(),
        |nums: &mut Vec<i32>, items: Vec<i32>| nums.extend(items),
    )
    .also_unindexed(
        |_: &mut Vec<i32>| Vec::<i32>::new().into_par_collector().map(|num: i32| num * 10),
        |nums: &mut Vec<i32>, items: Vec<i32>| nums.extend(items),
    );
    assert!(drive_split(&mut collector, vec![1, 2], 1).is_continue());
    assert!(drive_unindexed(&mut collector, vec![3, 4], 1).is_continue());
    assert!(drive_split(&mut collector, vec![5], 0).is_continue());
    assert!(collector.break_hint().is_continue());
    assert_eq!(collector.finish(), vec![1, 2, 30, 40, 5]);
}
