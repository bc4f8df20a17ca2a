use gex_strategy::broker::{
    connect_failure_step, order_id_floor, start_order_id, ConnectStep, OrderIdGen, CONNECT_MAX_ATTEMPTS,
};

#[test]
fn order_ids_count_up_and_wrap() {
    let mut g = OrderIdGen::new(5);
    assert_eq!(g.next(), 5);
    assert_eq!(g.next(), 6);
    let mut w = OrderIdGen::new(i32::MAX);
    assert_eq!(w.next(), i32::MAX);
    assert_eq!(w.next(), i32::MIN);
}

#[test]
fn order_id_floor_keeps_nine_digits() {
    assert_eq!(order_id_floor(1_712_345_678), 712_345_678);
    assert_eq!(start_order_id(1, 712_345_678), 712_345_678);
    assert_eq!(start_order_id(900_000_000, 712_345_678), 900_000_000);
}

#[test]
fn connect_backoff_schedule() {
    assert_eq!(connect_failure_step(1), ConnectStep::RetryAfterMs(2_000));
    assert_eq!(connect_failure_step(2), ConnectStep::RetryAfterMs(4_000));
    assert_eq!(connect_failure_step(4), ConnectStep::RetryAfterMs(16_000));
    assert_eq!(connect_failure_step(5), ConnectStep::RetryAfterMs(30_000));
    assert_eq!(connect_failure_step(CONNECT_MAX_ATTEMPTS), ConnectStep::GiveUp);
}

#[test]
fn order_ids_are_consecutive_over_many_calls() {
    let mut g = OrderIdGen::new(1_000);
    let ids: Vec<i32> = (0..50).map(|_| g.next()).collect();
    assert_eq!(ids, (1_000..1_050).collect::<Vec<i32>>());
}
