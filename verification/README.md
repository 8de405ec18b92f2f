# komadori_rayon

Parallel collectors: declarative, composable parallel reductions, verified
with Verus.

A parallel collector hands out *parts* for a batch of items: a consumer that
a driver splits (at an index, or freely on the unindexed path), turns into
serial collectors, feeds, and whose outputs it merges with combiners. The
merged output is committed back to the parallel collector; `finish()` gives
the final result.

## Layout

- `src/collector/plumbing.rs`: the serial collector, consumer and combiner
  traits. Each trait carries spec functions over plain values that its
  implementations define (`collect_spec`, `split_at_spec`, `combine_spec`,
  ...); `collect_many` and `collect_then_finish` are stated as the fold of
  `collect_spec` over the items (`collects_in_order`).
- `src/collector/par_collector_base.rs`, `par_collector.rs`,
  `into_par_collector.rs`: the parallel collector traits, with `parts_spec`
  and `commit_spec` (and their unindexed counterparts).
- `src/collector/feeding.rs`: what feeding items to a consumer gives,
  however it is split (`feeds`, `feeds_unindexed`); the collectors' laws over
  any split tree are stated with it.
- `src/collector/adapter_methods.rs`: the adapters as methods (`take`,
  `fuse`, `tee*`, `map`, `map_with`, `filter`, `filter_with`,
  `take_any_while`, `nest_local`, ...).
- `src/collector/adapters/`: one module per adapter; `custom.rs`: collectors
  built from a state and closures.
- `src/collections/`: collectors into collections; those into lists keep the
  items in the order they were fed (`linked_list`, `linked_vec`,
  `reservable_old`), `btree_set` inserts them into a set.
- `src/cmp/`: `ParMax` and `ParMin`, built on the serial maximum and minimum
  collectors of `komadori`.
- `tests/`: runs the collectors through a small sequential driver that
  splits each batch once.
