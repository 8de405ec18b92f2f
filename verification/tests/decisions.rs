use std::ops::ControlFlow;

use komadori_rayon::collector::adapters::take::{forwards, take_result, unindexed_collect_flow, TakeResult};
use komadori_rayon::collector::adapters::take_any_while::decide;
use komadori_rayon::collector::adapters::tee_base::{after_stop, and_cf_breaks, batch_route, collect_route, Route};
use komadori_rayon::CellOptRefMut;

const GO: ControlFlow<()> = ControlFlow::Continue(());
const STOP: ControlFlow<()> = ControlFlow::Break(());

#[test]
fn take_result_classifies_the_previous_budget() {
    assert!(matches!(take_result(Err(0)), TakeResult::NoMore));
    assert!(matches!(take_result(Ok(1)), TakeResult::OneLeft));
    assert!(matches!(take_result(Ok(5)), TakeResult::MoreThanOne));
}

#[test]
fn only_exhausted_budgets_drop_the_item() {
    assert!(!forwards(&TakeResult::NoMore));
    assert!(forwards(&TakeResult::OneLeft));
    assert!(forwards(&TakeResult::MoreThanOne));
}

#[test]
fn unindexed_take_continues_only_with_budget_left_and_an_inner_continue() {
    assert!(unindexed_collect_flow(TakeResult::NoMore, None).is_break());
    assert!(unindexed_collect_flow(TakeResult::OneLeft, Some(GO)).is_break());
    assert!(unindexed_collect_flow(TakeResult::MoreThanOne, Some(STOP)).is_break());
    assert!(unindexed_collect_flow(TakeResult::MoreThanOne, Some(GO)).is_continue());
}

#[test]
fn take_any_while_decisions() {
    assert_eq!(decide(true, true), (false, false));
    assert_eq!(decide(true, false), (false, false));
    assert_eq!(decide(false, true), (true, false));
    assert_eq!(decide(false, false), (false, true));
}

#[test]
fn a_pair_stops_only_when_both_stop() {
    assert!(and_cf_breaks(STOP, STOP).is_break());
    assert!(and_cf_breaks(STOP, GO).is_continue());
    assert!(and_cf_breaks(GO, STOP).is_continue());
    assert!(and_cf_breaks(GO, GO).is_continue());
}

#[test]
fn copied_items_always_go_to_both() {
    for hint1 in [GO, STOP] {
        for hint2 in [GO, STOP] {
            assert!(matches!(collect_route(true, hint1, hint2), Route::Both));
        }
    }
}

#[test]
fn other_items_go_only_where_they_are_collected() {
    assert!(matches!(collect_route(false, GO, GO), Route::Both));
    assert!(matches!(collect_route(false, GO, STOP), Route::FirstOnly));
    assert!(matches!(collect_route(false, STOP, STOP), Route::FirstOnly));
    assert!(matches!(collect_route(false, STOP, GO), Route::SecondOnly));
}

#[test]
fn batches_start_where_they_are_collected() {
    assert!(batch_route(STOP, STOP).is_none());
    assert!(matches!(batch_route(GO, STOP), Some(Route::FirstOnly)));
    assert!(matches!(batch_route(STOP, GO), Some(Route::SecondOnly)));
    assert!(matches!(batch_route(GO, GO), Some(Route::Both)));
}

#[test]
fn after_a_stop_the_other_collector_gets_the_rest() {
    assert!(matches!(after_stop(STOP), Route::SecondOnly));
    assert!(matches!(after_stop(GO), Route::FirstOnly));
}

#[test]
fn cell_opt_ref_mut_take_leaves_nothing() {
    let mut cell = CellOptRefMut::from(Some(5));
    assert_eq!(cell.take(), Some(5));
    assert_eq!(cell.take(), None);
    assert_eq!(cell.into_inner(), None);
}

#[test]
fn cell_opt_ref_mut_default_is_empty() {
    let cell: CellOptRefMut<i32> = CellOptRefMut::default();
    assert_eq!(cell.into_inner(), None);
    let cell = CellOptRefMut::from(Some("x"));
    assert_eq!(cell.into_inner(), Some("x"));
}
