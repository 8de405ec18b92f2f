use std::ops::ControlFlow;

use komadori_rayon::cmp::ParMax;
use komadori_rayon::collector::plumbing::{Combiner, Consumer, SerialCollector, SerialCollectorBase};
use komadori_rayon::collector::{IntoParallelCollectorBase, ParallelCollectorBase, ParallelCollectorByRef};

/// A value whose shared references convert into a maximum collector.
struct MaxSeed;

impl<'a> IntoParallelCollectorBase for &'a MaxSeed {
    type Output = Option<i64>;
    type IntoParCollector = ParMax;

    fn into_par_collector(self) -> ParMax {
        ParMax::new()
    }
}

fn drive_split<C>(collector: &mut C, items: Vec<i64>, at: usize) -> ControlFlow<()>
where
    C: ParallelCollectorBase<IndexedConsumer: Consumer<Serial: SerialCollector<i64>>>,
{
    let mut items = items;
    let (len, mut consumer) = collector.parts(items.len());
    items.truncate(len);
    let at = at.min(items.len());
    let right_items = items.split_off(at);
    let (left, combiner) = consumer.split_off_left_at(at);
    let mut left_output = left.into_collector().collect_then_finish(items);
    let right_output = consumer.into_collector().collect_then_finish(right_items);
    combiner.combine(&mut left_output, right_output);
    collector.commit(left_output)
}

#[test]
fn par_collector_by_shared_reference() {
    let seed = MaxSeed;
    let mut collector = seed.par_collector();
    assert!(drive_split(&mut collector, vec![-3, 8, 2], 1).is_continue());
    assert_eq!(collector.finish(), Some(8));
}
