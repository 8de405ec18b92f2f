use std::ops::ControlFlow;

use komadori_rayon::cmp::{ParMax, ParMin};
use komadori_rayon::collector::plumbing::{Combiner, Consumer, SerialCollector, SerialCollectorBase, UnindexedConsumer};
use komadori_rayon::collector::{ParallelCollectorBase, UnindexedParallelCollectorBase};

/// Feeds `items` through one indexed cycle, split at `at`.
fn drive_split<C>(collector: &mut C, items: Vec<i64>, at: usize) -> ControlFlow<()>
where
    C: ParallelCollectorBase<IndexedConsumer: Consumer<Serial: SerialCollector<i64>>>,
{
    let mut items = items;
    let (len, mut consumer) = collector.parts(items.len());
    items.truncate(len);
    let at = at.min(items.len());
    let right_items = items.split_off(at);
    let (left, combiner) = consumer.split_off_left_at(at);
    let mut left_output = left.into_collector().collect_then_finish(items);
    let right_output = consumer.into_collector().collect_then_finish(right_items);
    combiner.combine(&mut left_output, right_output);
    collector.commit(left_output)
}

#[test]
fn par_max_of_split_items() {
    let mut max = ParMax::new();
    assert!(drive_split(&mut max, vec![3, -7, 12, 5, 12, 0], 2).is_continue());
    assert_eq!(max.finish(), Some(12));
}

#[test]
fn par_max_of_nothing_is_none() {
    let mut max = ParMax::default();
    assert!(drive_split(&mut max, vec![], 0).is_continue());
    assert_eq!(max.finish(), None);
}

#[test]
fn par_max_keeps_the_maximum_across_cycles() {
    let mut max = ParMax::new();
    let _ = drive_split(&mut max, vec![-4, -9], 1);
    let _ = drive_split(&mut max, vec![-20, -5, -30], 3);
    assert_eq!(max.finish(), Some(-4));
}

#[test]
fn par_max_never_stops() {
    let max = ParMax::new();
    assert!(max.break_hint().is_continue());
}

#[test]
fn par_max_split_anywhere_agrees() {
    let items = vec![i64::MIN, 8, -1, i64::MAX, 8, 0, 42];
    for at in 0..=items.len() {
        let mut max = ParMax::new();
        let _ = drive_split(&mut max, items.clone(), at);
        assert_eq!(max.finish(), Some(i64::MAX));
    }
}

#[test]
fn par_max_unindexed_path() {
    let mut max = ParMax::new();
    let mut consumer = max.parts_unindexed();
    let left = consumer.split_off_left();
    let combiner = consumer.to_combiner();
    let mut left_output = left.into_collector().collect_then_finish(vec![1, 9]);
    let right_output = consumer.into_collector().collect_then_finish(vec![4]);
    combiner.combine(&mut left_output, right_output);
    assert!(max.commit_unindexed(left_output).is_continue());
    assert_eq!(max.finish(), Some(9));
}

#[test]
fn max_combiner_keeps_the_greater() {
    let mut max = ParMax::new();
    let consumer = max.parts_unindexed();
    let mut left = Some(3);
    consumer.to_combiner().combine(&mut left, Some(7));
    assert_eq!(left, Some(7));
    let mut left = Some(3);
    consumer.to_combiner().combine(&mut left, None);
    assert_eq!(left, Some(3));
    let mut left = None;
    consumer.to_combiner().combine(&mut left, Some(-3));
    assert_eq!(left, Some(-3));
}

#[test]
fn par_min_of_split_items() {
    let mut min = ParMin::new();
    assert!(drive_split(&mut min, vec![3, -7, 12, 5, -7, 0], 4).is_continue());
    assert_eq!(min.finish(), Some(-7));
}

#[test]
fn par_min_of_nothing_is_none() {
    let min = ParMin::default();
    assert_eq!(min.finish(), None);
}

#[test]
fn par_min_split_anywhere_agrees() {
    let items = vec![5, i64::MAX, -2, i64::MIN, 0];
    for at in 0..=items.len() {
        let mut min = ParMin::new();
        let _ = drive_split(&mut min, items.clone(), at);
        assert_eq!(min.finish(), Some(i64::MIN));
    }
}

#[test]
fn serial_max_collects_one_by_one() {
    let mut max = ParMax::new();
    let (_, consumer) = max.parts(3);
    let mut serial = consumer.into_collector();
    assert!(serial.break_hint().is_continue());
    assert!(serial.collect(2).is_continue());
    assert!(serial.collect_many(vec![11, -1]).is_continue());
    let output = serial.finish();
    assert_eq!(output, Some(11));
    let _ = max.commit(output);
    assert_eq!(max.finish(), Some(11));
}
