use std::collections::HashSet;
use std::ops::ControlFlow;
use std::sync::Arc;

use komadori_rayon::cmp::ParMax;
use komadori_rayon::collections::linked_list::{IntoParCollector, ListSerial};
use komadori_rayon::collector::adapters::also::Also;
use komadori_rayon::collector::adapters::cloning::Cloning;
use komadori_rayon::collector::adapters::copying::Copying;
use komadori_rayon::collector::adapters::enumerate::Enumerate;
use komadori_rayon::collector::adapters::indexed_only::IndexedOnly;
use komadori_rayon::collector::adapters::into_collector::size_hint_is_exact;
use komadori_rayon::collector::adapters::nest_local::{stop_or, NestLocal};
use komadori_rayon::collector::plumbing::{Combiner, Consumer, SerialCollector, SerialCollectorBase, UnindexedConsumer};
use komadori_rayon::collector::{
    IntoParallelCollectorBase, ParallelCollectorAdapters, ParallelCollectorBase, UnindexedParallelCollectorAdapters,
    UnindexedParallelCollectorBase,
};

/// Feeds `items` through one indexed cycle, split at `at`.
fn drive_split<C, T>(collector: &mut C, items: Vec<T>, at: usize) -> ControlFlow<()>
where
    C: ParallelCollectorBase<IndexedConsumer: Consumer<Serial: SerialCollector<T>>>,
{
    let mut items = items;
    let (len, mut consumer) = collector.parts(items.len());
    items.truncate(len);
    let at = at.min(items.len());
    let right_items = items.split_off(at);
    let (left, combiner) = consumer.split_off_left_at(at);
    let mut left_output = left.into_collector().collect_then_finish(items);
    let right_output = consumer.into_collector().collect_then_finish(right_items);
    combiner.combine(&mut left_output, right_output);
    collector.commit(left_output)
}

/// Feeds `items` through one unindexed cycle, the first `at` items to the
/// left split and the rest to the right one.
fn drive_unindexed<C, T>(collector: &mut C, items: Vec<T>, at: usize) -> ControlFlow<()>
where
    C: UnindexedParallelCollectorBase<UnindexedParts: Consumer<Serial: SerialCollector<T>>>,
{
    let mut items = items;
    let mut consumer = collector.parts_unindexed();
    let at = at.min(items.len());
    let right_items = items.split_off(at);
    let left = consumer.split_off_left();
    let combiner = consumer.to_combiner();
    let mut left_output = left.into_collector().collect_then_finish(items);
    let right_output = consumer.into_collector().collect_then_finish(right_items);
    combiner.combine(&mut left_output, right_output);
    collector.commit_unindexed(left_output)
}

#[test]
fn into_collector_of_take_stops_after_the_third_item() {
    let mut collector = Vec::<i32>::new().into_par_collector().take(3).into_collector();
    assert!(collector.break_hint().is_continue());
    assert!(collector.collect(1).is_continue());
    assert!(collector.collect(2).is_continue());
    assert!(collector.collect(3).is_break());
    assert_eq!(collector.finish(), vec![1, 2, 3]);
}

#[test]
fn into_collector_collects_a_vec_through_one_part() {
    let mut collector = vec![0].into_par_collector().into_collector();
    assert!(collector.collect_many(vec![1, 2, 3]).is_continue());
    assert_eq!(collector.collect_then_finish(vec![4]), vec![0, 1, 2, 3, 4]);
}

#[test]
fn into_collector_with_an_inexact_size_hint_collects_all_items() {
    let mut collector = Vec::<i32>::new().into_par_collector().into_collector();
    assert!(collector.collect_many_hinted(vec![1, 2, 3, 4], 1).is_continue());
    assert_eq!(collector.collect_then_finish_hinted(vec![5, 6], 0, None), vec![1, 2, 3, 4, 5, 6]);
}

#[test]
fn into_collector_hinted_stops_at_the_budget() {
    let mut collector = Vec::<i32>::new().into_par_collector().take(2).into_collector();
    assert!(collector.collect_many_hinted(vec![1, 2, 3, 4], 1).is_break());
    assert_eq!(collector.collect_then_finish_hinted(vec![5], 1, Some(7)), vec![1, 2]);
}

#[test]
fn size_hint_exactness() {
    assert!(size_hint_is_exact(3, Some(3)));
    assert!(!size_hint_is_exact(3, Some(4)));
    assert!(!size_hint_is_exact(3, None));
}

#[test]
fn take_indexed_takes_the_first_items() {
    for at in 0..=5 {
        let mut collector = Vec::<i32>::new().into_par_collector().take(3);
        assert!(drive_split(&mut collector, vec![1, 2, 3, 4, 5], at).is_break());
        assert_eq!(collector.finish(), vec![1, 2, 3]);
    }
}

#[test]
fn take_indexed_budget_spans_cycles() {
    let mut collector = Vec::<i32>::new().into_par_collector().take(3);
    assert!(drive_split(&mut collector, vec![1, 2], 1).is_continue());
    assert_eq!(collector.remaining_budget(), 1);
    assert!(drive_split(&mut collector, vec![3, 4], 1).is_break());
    assert_eq!(collector.remaining_budget(), 0);
    assert!(collector.break_hint().is_break());
    assert_eq!(collector.finish(), vec![1, 2, 3]);
}

#[test]
fn take_indexed_parts_are_clamped() {
    let mut collector = Vec::<i32>::new().into_par_collector().take(2);
    let (len, mut consumer) = collector.parts(5);
    assert_eq!(len, 2);
    assert_eq!(consumer.limit(), 2);
    let (left, _) = consumer.split_off_left_at(7);
    assert_eq!(left.limit(), 2);
    assert_eq!(consumer.limit(), 0);
    assert!(consumer.break_hint().is_break());
}

#[test]
fn take_unindexed_takes_at_most_n_items() {
    let mut collector = Vec::<i32>::new().into_par_collector().take(3);
    assert!(drive_unindexed(&mut collector, vec![2, 4, 6, 8, 10], 2).is_break());
    let nums = collector.finish();
    assert_eq!(nums.len(), 3);
    let allowed: HashSet<i32> = HashSet::from([2, 4, 6, 8, 10]);
    assert!(nums.iter().all(|num| allowed.contains(num)));
}

#[test]
fn take_zero_has_stopped() {
    let collector = Vec::<i32>::new().into_par_collector().take(0);
    assert!(collector.break_hint().is_break());
}

#[test]
fn fuse_stays_stopped() {
    let mut collector = Vec::<i32>::new().into_par_collector().take(1).fuse();
    assert!(collector.break_hint().is_continue());
    assert!(drive_split(&mut collector, vec![7, 8], 1).is_break());
    assert!(collector.break_hint().is_break());
    let (_, consumer) = collector.parts(2);
    assert!(consumer.break_hint().is_break());
    let mut serial = consumer.into_collector();
    assert!(serial.collect(9).is_break());
    assert!(collector.commit(serial.finish()).is_break());
    assert_eq!(collector.finish(), vec![7]);
}

#[test]
fn tee_lets_both_collect_every_item() {
    let mut collector = Vec::<i64>::new().into_par_collector().tee(ParMax::new());
    assert!(drive_split(&mut collector, vec![1, 2, 4, 5, 3], 2).is_continue());
    let (nums, max) = collector.finish();
    assert_eq!(nums, vec![1, 2, 4, 5, 3]);
    assert_eq!(max, Some(5));
}

#[test]
fn tee_stops_only_when_both_stop() {
    let mut collector = Vec::<i32>::new().into_par_collector().take(1).tee(Vec::<i32>::new().into_par_collector().take(2));
    assert!(drive_split(&mut collector, vec![1], 1).is_continue());
    assert!(collector.break_hint().is_continue());
    assert!(drive_split(&mut collector, vec![2, 3], 1).is_break());
    assert!(collector.break_hint().is_break());
    assert_eq!(collector.finish(), (vec![1], vec![1, 2]));
}

#[test]
fn tee_clone_clones_only_while_both_collect() {
    let mut collector = Vec::<Arc<i32>>::new().into_par_collector().take(2).tee_clone(Vec::<Arc<i32>>::new());
    let items = vec![Arc::new(1), Arc::new(2), Arc::new(3)];
    let _ = drive_split(&mut collector, items, 3);
    let (nums1, nums2) = collector.finish();
    assert!(nums1.iter().map(|num| **num).eq([1, 2]));
    assert!(nums2.iter().map(|num| **num).eq([1, 2, 3]));
    assert!(nums2.iter().map(Arc::strong_count).eq([2, 2, 1]));
}

#[test]
fn enumerate_pairs_items_with_their_indices() {
    let mut collector = Enumerate::new(Vec::<(usize, char)>::new().into_par_collector());
    assert!(drive_split(&mut collector, vec!['a', 'b', 'c'], 1).is_continue());
    assert!(drive_split(&mut collector, vec!['d'], 0).is_continue());
    assert_eq!(collector.finish(), vec![(0, 'a'), (1, 'b'), (2, 'c'), (3, 'd')]);
}

#[test]
fn map_squares_each_item() {
    let mut collector = Vec::<i32>::new().into_par_collector().map(|num: i32| num * num);
    assert!(drive_split(&mut collector, vec![1, 2, 3, 4, 5], 2).is_continue());
    assert_eq!(collector.finish(), vec![1, 4, 9, 16, 25]);
}

#[test]
fn filter_keeps_the_accepted_items() {
    let mut collector = Vec::<i32>::new().into_par_collector().filter(|num: &i32| num % 2 == 0);
    assert!(drive_split(&mut collector, (1..=10).collect(), 5).is_continue());
    assert_eq!(collector.finish(), vec![2, 4, 6, 8, 10]);
}

#[test]
fn take_any_while_stops_at_the_first_rejected_item() {
    let mut collector = Vec::<i32>::new().into_par_collector().take_any_while(|num: &i32| *num >= 0);
    assert!(drive_split(&mut collector, vec![1, 2, -3, 4], 4).is_break());
    assert!(collector.break_hint().is_break());
    assert_eq!(collector.finish(), vec![1, 2]);
}

#[test]
fn take_any_while_all_accepted() {
    let mut collector = Vec::<i32>::new().into_par_collector().take(5).take_any_while(|num: &i32| *num >= 0);
    assert!(drive_unindexed(&mut collector, vec![3, 1, 4], 1).is_continue());
    assert_eq!(collector.finish(), vec![3, 1, 4]);
}

#[test]
fn map_output_maps_the_final_output() {
    let mut collector = Vec::<i32>::new().into_par_collector().map_output(|nums: Vec<i32>| nums.len());
    assert!(drive_split(&mut collector, vec![7, 8, 9], 1).is_continue());
    assert_eq!(collector.finish(), 3);
}

#[test]
fn unindexed_only_affords_every_item() {
    let mut collector = Vec::<i32>::new().into_par_collector().unindexed_only();
    let (len, _) = collector.parts(4);
    assert_eq!(len, 4);
    let mut collector = Vec::<i32>::new().into_par_collector().unindexed_only();
    assert!(drive_split(&mut collector, vec![1, 2, 3], 2).is_continue());
    assert_eq!(collector.finish(), vec![1, 2, 3]);
}

#[test]
fn indexed_only_forwards_the_indexed_path() {
    let mut collector = IndexedOnly::new(Vec::<i32>::new().into_par_collector().take(2));
    assert!(drive_split(&mut collector, vec![5, 6, 7], 1).is_break());
    assert_eq!(collector.finish(), vec![5, 6]);
}

#[test]
fn also_feeds_each_path_to_its_own_collector() {
    let mut collector = Also::new(Vec::<i64>::new().into_par_collector(), ParMax::new());
    assert!(drive_split(&mut collector, vec![1, 2], 1).is_continue());
    assert!(drive_unindexed(&mut collector, vec![7, -1], 1).is_continue());
    assert!(collector.break_hint().is_continue());
    assert_eq!(collector.finish(), (vec![1, 2], Some(7)));
}

#[test]
fn also_stops_only_when_both_stop() {
    let collector = Also::new(Vec::<i64>::new().into_par_collector().take(0), ParMax::new());
    assert!(collector.break_hint().is_continue());
    let collector = Also::new(Vec::<i64>::new().into_par_collector().take(0), Vec::<i64>::new().into_par_collector().take(0));
    assert!(collector.break_hint().is_break());
}

#[test]
fn cloning_collects_clones_of_borrowed_items() {
    let words = vec![String::from("noble"), String::from("and"), String::from("singer")];
    let mut collector = Cloning::new(Vec::<String>::new().into_par_collector());
    assert!(drive_split(&mut collector, words.iter().collect(), 1).is_continue());
    assert_eq!(collector.finish(), words);
}

#[test]
fn copying_collects_copies_of_borrowed_items() {
    let nums = vec![4, 5, 6];
    let mut collector = Copying::new(IntoParCollector::<i32>::default());
    assert!(drive_unindexed(&mut collector, nums.iter().collect(), 2).is_continue());
    assert_eq!(collector.finish(), nums);
}

#[test]
fn a_parallel_collector_converts_into_itself() {
    let mut collector = ParMax::new().into_par_collector();
    let _ = drive_split(&mut collector, vec![3, 1], 1);
    assert_eq!(collector.finish(), Some(3));
}

#[test]
fn nest_local_gives_each_part_its_own_local_collector() {
    let mut collector = Vec::<Vec<i32>>::new().into_par_collector().nest_local(ListSerial::new());
    assert!(drive_split(&mut collector, vec![1, 2, 3, 4], 2).is_continue());
    assert!(drive_unindexed(&mut collector, vec![5], 0).is_continue());
    assert_eq!(collector.finish(), vec![vec![1, 2], vec![3, 4], vec![], vec![5]]);
}

#[test]
fn nest_local_new_nests_a_clone_of_the_local_collector() {
    let mut collector = NestLocal::new(Vec::<Vec<i32>>::new().into_par_collector(), ListSerial::new());
    assert!(drive_split(&mut collector, vec![7, 8, 9], 1).is_continue());
    assert_eq!(collector.finish(), vec![vec![7], vec![8, 9]]);
}

#[test]
fn nest_local_with_makes_each_local_collector_from_the_local_value() {
    let mut collector = Vec::<i64>::new()
        .into_par_collector()
        .map(|max: Option<i64>| max.unwrap_or(0))
        .nest_local_with(2usize, |n: usize| {
            let mut max = ParMax::new();
            let (_, consumer) = max.parts(n);
            consumer.into_collector()
        });
    assert!(drive_split(&mut collector, vec![3, 9, -1, 4], 2).is_continue());
    assert_eq!(collector.finish(), vec![9, 4]);
}

#[test]
fn fold_local_folds_each_part_into_its_local_states() {
    let mut collector = Vec::<String>::new()
        .into_par_collector()
        .map(|(_, piece): (bool, String)| piece)
        .fold_local(true, String::new, |is_first: &mut bool, piece: &mut String, word: &str| {
            if !std::mem::replace(is_first, false) {
                piece.push(' ');
            }
            *piece += word;
        });
    let words = vec!["there", "are", "a", "noble", "and", "a", "singer"];
    assert!(drive_split(&mut collector, words, 3).is_continue());
    assert_eq!(collector.finish(), vec![String::from("there are a"), String::from("noble and a singer")]);
}

#[test]
fn stop_or_prefers_the_first_stop() {
    assert!(stop_or(ControlFlow::Break(()), ControlFlow::Continue(())).is_break());
    assert!(stop_or(ControlFlow::Continue(()), ControlFlow::Break(())).is_break());
    assert!(stop_or(ControlFlow::Continue(()), ControlFlow::Continue(())).is_continue());
}

#[test]
fn filters_teed_into_three_groups_in_one_pass() {
    let mut collector = Vec::<i32>::new()
        .into_par_collector()
        .filter(|x: &i32| *x >= 0)
        .tee(Vec::<i32>::new().into_par_collector().filter(|x: &i32| x % 2 == 0))
        .tee(Vec::<i32>::new().into_par_collector().filter(|x: &i32| 69 % x == 0));
    assert!(drive_split(&mut collector, vec![1, 4, -2, 23], 2).is_continue());
    let ((group_a, group_b), group_c) = collector.finish();
    assert_eq!(group_a, vec![1, 4, 23]);
    assert_eq!(group_b, vec![4, -2]);
    assert_eq!(group_c, vec![1, 23]);
}

#[test]
fn enumerate_after_take_by_methods() {
    let mut collector = Vec::<(usize, char)>::new().into_par_collector().take(3).enumerate();
    assert!(drive_split(&mut collector, vec!['a', 'b', 'c', 'd'], 2).is_break());
    assert_eq!(collector.finish(), vec![(0, 'a'), (1, 'b'), (2, 'c')]);
}

#[test]
fn cloning_and_copying_by_methods() {
    let nums = vec![1, 2, 3];
    let mut cloned = Vec::<i32>::new().into_par_collector().take(2).cloning();
    assert!(drive_split(&mut cloned, nums.iter().collect(), 1).is_break());
    assert_eq!(cloned.finish(), vec![1, 2]);
    let mut copied = Vec::<i32>::new().into_par_collector().indexed_only().copying();
    assert!(drive_split(&mut copied, nums.iter().collect(), 2).is_continue());
    assert_eq!(copied.finish(), nums);
}

#[test]
fn unindexed_fail1() {
    // The first three items of `[0, 0]` followed by the non-negative items
    // of `[1, -1]`.
    let items = vec![0, 0, 1];
    let mut collector = Vec::<i32>::new().into_par_collector().take(3);

    let consumer = collector.parts_unindexed();
    let mut serial = consumer.into_collector();
    assert!(serial.collect(items[0]).is_continue());
    assert!(serial.collect(items[1]).is_continue());
    assert!(serial.collect(items[2]).is_break());
    let _ = collector.commit_unindexed(serial.finish());

    assert_eq!(collector.finish(), [0, 0, 1]);
}

#[test]
fn tee_into_collector_each_side_collects_until_it_stops() {
    let collector = Vec::<i32>::new()
        .into_par_collector()
        .take(2)
        .tee(Vec::<i32>::new().into_par_collector())
        .into_collector();
    assert_eq!(collector.collect_then_finish(vec![1, 2, 3]), (vec![1, 2], vec![1, 2, 3]));
}

#[test]
fn tee_serial_collect_many_stops_once_both_stop() {
    let mut collector = Vec::<i32>::new().into_par_collector().take(1).tee(Vec::<i32>::new().into_par_collector().take(2));
    let (_, consumer) = collector.parts(5);
    let mut serial = consumer.into_collector();
    assert!(serial.collect_many(vec![1, 2, 3]).is_break());
    let _ = collector.commit(serial.finish());
    assert_eq!(collector.finish(), (vec![1], vec![1, 2]));
}

#[test]
fn into_collector_inexact_hint_collects_the_rest_one_by_one() {
    let collector = vec![0].into_par_collector().into_collector();
    // The odd numbers of 1..=5: a size hint of (0, Some(5)).
    assert_eq!(collector.collect_then_finish_hinted(vec![1, 3, 5], 0, Some(5)), vec![0, 1, 3, 5]);
}

#[test]
fn take_parts_afford_what_is_left_and_commit_stops() {
    let mut collector = Vec::<i32>::new().into_par_collector().take(3);
    let (len, consumer) = collector.parts(5);
    assert_eq!(len, 3);
    let mut serial = consumer.into_collector();
    assert!(serial.collect_many(vec![7, 8, 9, 10]).is_break());
    assert!(collector.commit(serial.finish()).is_break());
    assert!(collector.break_hint().is_break());
    assert_eq!(collector.finish(), vec![7, 8, 9]);
}

#[test]
fn map_with_gives_each_serial_part_its_own_states() {
    let mut collector = Vec::<usize>::new().into_par_collector().map_with(
        0usize,
        || String::new(),
        |count: &mut usize, buf: &mut String, num: u32| {
            *count += 1;
            buf.clear();
            buf.push_str(&num.to_string());
            buf.len() * 10 + *count
        },
    );
    assert!(drive_split(&mut collector, vec![1, 22, 333], 1).is_continue());
    assert_eq!(collector.finish(), vec![11, 21, 32]);
}

#[test]
fn filter_with_gives_each_serial_part_its_own_states() {
    let mut collector = Vec::<i32>::new().into_par_collector().filter_with(
        10,
        || 0usize,
        |threshold: &mut i32, seen: &mut usize, x: &i32| {
            *seen += 1;
            *x > *threshold && *seen <= 2
        },
    );
    assert!(drive_unindexed(&mut collector, vec![5, 20, 30, 40, 50], 2).is_continue());
    assert_eq!(collector.finish(), vec![20, 30, 40]);
}

#[test]
fn take_any_while_serial_batch_stops_at_the_first_rejected_item() {
    let mut collector = Vec::<i32>::new().into_par_collector().take_any_while(|x: &i32| *x < 3);
    let (_, consumer) = collector.parts(4);
    let mut serial = consumer.into_collector();
    assert!(serial.collect_many(vec![1, 2, 5, 0]).is_break());
    assert!(serial.break_hint().is_break());
    let _ = collector.commit(serial.finish());
    assert!(collector.break_hint().is_break());
    assert_eq!(collector.finish(), vec![1, 2]);
}

/// Whether `sub` is a subsequence of `seq`.
fn is_subsequence(sub: &[i32], seq: &[i32]) -> bool {
    let mut rest = seq.iter();
    sub.iter().all(|x| rest.any(|y| y == x))
}

#[test]
fn unindexed_fail2() {
    // `[0, 0, 0]` followed by the non-negative items of `[1, 1, 1]`, split
    // in two, and the left half split in two again.
    let left_left_items = vec![0];
    let left_right_items = vec![0, 0];
    let right_items = vec![1, 1, 1];

    let mut collector = Vec::<i32>::new().into_par_collector().take(3);

    let mut consumer = collector.parts_unindexed();
    let output = {
        let combiner = consumer.to_combiner();
        let (mut left_consumer, right_consumer) = (consumer.split_off_left(), consumer);

        let mut left_output = {
            let combiner = left_consumer.to_combiner();
            let (left_left, left_right) = (left_consumer.split_off_left(), left_consumer);
            let mut left_output = left_left.into_collector().collect_then_finish(left_left_items);
            let right_output = left_right.into_collector().collect_then_finish(left_right_items);
            combiner.combine(&mut left_output, right_output);
            left_output
        };
        let right_output = right_consumer.into_collector().collect_then_finish(right_items);

        combiner.combine(&mut left_output, right_output);
        left_output
    };
    let _ = collector.commit_unindexed(output);

    let result = collector.finish();
    assert!(is_subsequence(&result, &[0, 0, 0, 1, 1, 1]), "not a subsequence");
}

/// Feeds `items` through one indexed cycle, split at `at`, the left split
/// split again at `inner_at`.
fn drive_nested<C, T>(collector: &mut C, items: Vec<T>, at: usize, inner_at: usize) -> ControlFlow<()>
where
    C: ParallelCollectorBase<IndexedConsumer: Consumer<Serial: SerialCollector<T>>>,
{
    let mut items = items;
    let (len, mut consumer) = collector.parts(items.len());
    items.truncate(len);
    let at = at.min(items.len());
    let right_items = items.split_off(at);
    let (mut left, combiner) = consumer.split_off_left_at(at);
    let inner_at = inner_at.min(items.len());
    let left_right_items = items.split_off(inner_at);
    let (left_left, inner_combiner) = left.split_off_left_at(inner_at);
    let mut left_output = left_left.into_collector().collect_then_finish(items);
    let left_right_output = left.into_collector().collect_then_finish(left_right_items);
    inner_combiner.combine(&mut left_output, left_right_output);
    let right_output = consumer.into_collector().collect_then_finish(right_items);
    combiner.combine(&mut left_output, right_output);
    collector.commit(left_output)
}

#[test]
fn take_keeps_the_first_items_however_split() {
    for at in 0..=6 {
        for inner_at in 0..=at {
            let mut collector = Vec::<i32>::new().into_par_collector().take(4);
            assert!(drive_nested(&mut collector, vec![1, 2, 3, 4, 5, 6], at, inner_at).is_break());
            assert_eq!(collector.finish(), vec![1, 2, 3, 4]);
        }
    }
}

#[test]
fn enumerate_keeps_indices_in_order_however_split() {
    for at in 0..=4 {
        for inner_at in 0..=at {
            let mut collector = Vec::<(usize, char)>::new().into_par_collector().enumerate();
            assert!(drive_nested(&mut collector, vec!['a', 'b', 'c', 'd'], at, inner_at).is_continue());
            assert_eq!(collector.finish(), vec![(0, 'a'), (1, 'b'), (2, 'c'), (3, 'd')]);
        }
    }
}

#[test]
fn tee_clone_both_sides_get_every_item_however_split() {
    for at in 0..=3 {
        for inner_at in 0..=at {
            let mut collector = Vec::<String>::new().into_par_collector().tee_clone(Vec::<String>::new());
            let items = vec![String::from("x"), String::from("y"), String::from("z")];
            assert!(drive_nested(&mut collector, items, at, inner_at).is_continue());
            let (first, second) = collector.finish();
            assert_eq!(first, vec!["x", "y", "z"]);
            assert_eq!(second, vec!["x", "y", "z"]);
        }
    }
}
