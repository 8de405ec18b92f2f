use komadori_rayon::cmp::ParMax;
use komadori_rayon::collector::plumbing::{Combiner, Consumer, SerialCollector, SerialCollectorBase, UnindexedConsumer};
use komadori_rayon::collector::{
    ConsumerFnOnce, IndexedParallelCollector, IntoParallelCollectorBase, ParallelCollectorAdapters,
    UnindexedConsumerFnOnce, UnindexedParallelCollector,
};

/// A sequential driver: splits the consumer once at `at` and feeds the
/// items, at most as many as afforded. Its result is how many items it fed.
struct SplitFeed<T> {
    items: Vec<T>,
    at: usize,
}

impl<T> ConsumerFnOnce<T> for SplitFeed<T> {
    type Output = usize;

    fn call_once<K: Consumer<Serial: SerialCollector<T>>>(self, len: usize, consumer: K) -> (usize, K::Output) {
        let mut consumer = consumer;
        let mut items = self.items;
        items.truncate(len);
        let fed = items.len();
        let at = self.at.min(fed);
        let right_items = items.split_off(at);
        let (left, combiner) = consumer.split_off_left_at(at);
        let mut output = left.into_collector().collect_then_finish(items);
        combiner.combine(&mut output, consumer.into_collector().collect_then_finish(right_items));
        (fed, output)
    }
}

impl<T> UnindexedConsumerFnOnce<T> for SplitFeed<T> {
    type Output = usize;

    fn call_once<K: UnindexedConsumer<Serial: SerialCollector<T>>>(self, consumer: K) -> (usize, K::Output) {
        let mut consumer = consumer;
        let mut items = self.items;
        let fed = items.len();
        let at = self.at.min(fed);
        let right_items = items.split_off(at);
        let left = consumer.split_off_left();
        let combiner = consumer.to_combiner();
        let mut output = left.into_collector().collect_then_finish(items);
        combiner.combine(&mut output, consumer.into_collector().collect_then_finish(right_items));
        (fed, output)
    }
}

#[test]
fn with_consumer_runs_one_cycle() {
    let mut collector = Vec::<i32>::new().into_par_collector().take(3);
    let (fed, cf) = collector.with_consumer(5, SplitFeed { items: vec![1, 2, 3, 4, 5], at: 2 });
    assert_eq!(fed, 3);
    assert!(cf.is_break());
    let (fed, nums) = collector.with_consumer_then_finish(2, SplitFeed { items: vec![6, 7], at: 1 });
    assert_eq!(fed, 0);
    assert_eq!(nums, vec![1, 2, 3]);
}

#[test]
fn with_unindexed_consumer_runs_one_cycle() {
    let mut collector = ParMax::new();
    let (fed, cf) = collector.with_unindexed_consumer(SplitFeed { items: vec![4, -1, 9], at: 1 });
    assert_eq!(fed, 3);
    assert!(cf.is_continue());
    let (_, max) = collector.with_unindexed_consumer_then_finish(SplitFeed { items: vec![2], at: 0 });
    assert_eq!(max, Some(9));
}
