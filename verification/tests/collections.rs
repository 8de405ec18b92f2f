use std::collections::BTreeSet;
use std::ops::ControlFlow;

use komadori_rayon::collections::linked_list::IntoParCollector;
use komadori_rayon::collections::linked_vec;
use komadori_rayon::collections::linked_vec::Collection;
use komadori_rayon::collections::reservable_old::{unindexed_linked_vec_consumer, Extender};
use komadori_rayon::collector::plumbing::{Combiner, Consumer, SerialCollector, SerialCollectorBase, UnindexedConsumer};
use komadori_rayon::collector::{IntoParallelCollectorBase, ParallelCollectorBase, ParallelCollectorByMut, UnindexedParallelCollectorBase};

fn drive_split<C>(collector: &mut C, items: Vec<i32>, at: usize) -> ControlFlow<()>
where
    C: ParallelCollectorBase<IndexedConsumer: Consumer<Serial: SerialCollector<i32>>>,
{
    let mut items = items;
    let (len, mut consumer) = collector.parts(items.len());
    items.truncate(len);
    let at = at.min(items.len());
    let right_items = items.split_off(at);
    let (left, combiner) = consumer.split_off_left_at(at);
    let mut left_output = left.into_collector().collect_then_finish(items);
    let right_output = consumer.into_collector().collect_then_finish(right_items);
    combiner.combine(&mut left_output, right_output);
    collector.commit(left_output)
}

#[test]
fn vec_par_collector_keeps_the_order() {
    let mut collector = vec![1, 2].into_par_collector();
    assert!(drive_split(&mut collector, vec![3, 4, 5, 6], 1).is_continue());
    assert_eq!(collector.finish(), vec![1, 2, 3, 4, 5, 6]);
}

#[test]
fn vec_par_collector_split_anywhere_keeps_the_order() {
    for at in 0..=5 {
        let mut collector = IntoParCollector::new(vec![0]);
        let _ = drive_split(&mut collector, vec![1, 2, 3, 4, 5], at);
        assert_eq!(collector.finish(), vec![0, 1, 2, 3, 4, 5]);
    }
}

#[test]
fn vec_par_collector_unindexed_nested_splits_keep_the_order() {
    let mut collector: IntoParCollector<i32> = IntoParCollector::default();
    let mut right = collector.parts_unindexed();
    let mut middle = right.split_off_left();
    let left = middle.split_off_left();
    let outer_combiner = right.to_combiner();
    let inner_combiner = middle.to_combiner();
    let mut left_output = left.into_collector().collect_then_finish(vec![1, 2]);
    let mut middle_output = middle.into_collector().collect_then_finish(vec![3]);
    let right_output = right.into_collector().collect_then_finish(vec![4, 5]);
    inner_combiner.combine(&mut middle_output, right_output);
    outer_combiner.combine(&mut left_output, middle_output);
    assert!(collector.commit_unindexed(left_output).is_continue());
    assert_eq!(collector.finish(), vec![1, 2, 3, 4, 5]);
}

#[test]
fn linked_vec_left_most_split_keeps_the_collection() {
    let mut right = linked_vec::Consumer::new(vec![10]);
    let (left, combiner) = right.split_off_left_at(2);
    let mut left_serial = left.into_collector();
    assert!(left_serial.collect(11).is_continue());
    assert!(left_serial.collect_ref(&12).is_continue());
    let mut left_output = left_serial.finish();
    assert!(left_output.is_left_most());
    let mut right_serial = right.into_collector();
    assert!(right_serial.collect_many(vec![13, 14]).is_continue());
    assert!(right_serial.collect_many_ref(&vec![15]).is_continue());
    let right_output = right_serial.finish();
    assert!(!right_output.is_left_most());
    combiner.combine(&mut left_output, right_output);
    match left_output {
        linked_vec::Output::LeftMost(collection) => assert_eq!(collection, vec![10, 11, 12, 13, 14, 15]),
        linked_vec::Output::Right { .. } => panic!("the left-most output must hold the collection"),
    }
}

#[test]
fn linked_vec_right_outputs_combine_into_chunks() {
    let mut consumer: linked_vec::Consumer<Vec<i32>, i32> = linked_vec::Consumer::new(vec![]);
    let _left_most = consumer.split_off_left();
    let middle = consumer.split_off_left();
    let combiner = consumer.to_combiner();
    let mut middle_output = middle.into_collector().collect_then_finish(vec![1, 2]);
    let right_output = consumer.into_collector().collect_then_finish(vec![]);
    combiner.combine(&mut middle_output, right_output);
    match middle_output {
        linked_vec::Output::Right { chunks, len } => {
            assert_eq!(chunks, vec![vec![1, 2]]);
            assert_eq!(len, 2);
        },
        linked_vec::Output::LeftMost(_) => panic!("a right split holds no collection"),
    }
}

#[test]
fn collection_pushes_in_order() {
    let mut v = vec![1];
    v.push_back(2);
    v.push_back_iter(vec![3, 4]);
    v.push_back_iter_ref(&vec![5]);
    v.push_back_linked_vec(vec![vec![6], vec![], vec![7, 8]], 3);
    assert_eq!(v, vec![1, 2, 3, 4, 5, 6, 7, 8]);
}

#[test]
fn extender_consumer_unwraps_to_the_extended_collection() {
    let mut right = unindexed_linked_vec_consumer(vec!['a']);
    let left = right.split_off_left();
    let combiner = right.to_combiner();
    let mut left_output = left.into_collector().collect_then_finish(vec!['b', 'c']);
    let mut right_serial = right.into_collector();
    assert!(right_serial.collect('d').is_continue());
    assert!(right_serial.collect_many(vec!['e']).is_continue());
    combiner.combine(&mut left_output, right_serial.finish());
    assert_eq!(left_output.unwrap(), vec!['a', 'b', 'c', 'd', 'e']);
}

#[test]
fn extender_appends() {
    let mut v = vec![1];
    v.extend_one(2);
    v.extend_many(vec![3, 4]);
    assert_eq!(v, vec![1, 2, 3, 4]);
}

#[test]
fn par_collector_mut_appends_to_the_borrowed_list() {
    let mut list = vec![1];
    {
        let mut collector = (&mut list).into_par_collector();
        assert!(drive_split(&mut collector, vec![2, 3, 4], 2).is_continue());
        let borrowed = collector.finish();
        assert_eq!(*borrowed, vec![1, 2, 3, 4]);
        borrowed.push(5);
    }
    assert_eq!(list, vec![1, 2, 3, 4, 5]);
}

#[test]
fn par_collector_mut_by_method() {
    let mut list = vec![0];
    {
        let mut collector = list.par_collector_mut();
        assert!(drive_split(&mut collector, vec![1, 2], 1).is_continue());
        let _ = collector.finish();
    }
    assert_eq!(list, vec![0, 1, 2]);
}

#[test]
fn btree_set_collector_inserts_every_item() {
    let mut collector = BTreeSet::from([7]).into_par_collector();
    assert!(drive_split(&mut collector, vec![3, 1, 3, 2], 2).is_continue());
    let mut right = collector.parts_unindexed();
    let left = right.split_off_left();
    let combiner = right.to_combiner();
    let mut output = left.into_collector().collect_then_finish(vec![9, 1]);
    combiner.combine(&mut output, right.into_collector().collect_then_finish(vec![0]));
    assert!(collector.commit_unindexed(output).is_continue());
    assert_eq!(collector.finish(), BTreeSet::from([0, 1, 2, 3, 7, 9]));
}
