use bitcomm::slowloris::{
    is_below_min_throughput, MyConnectionSupervisor, Outcome, CONNECTION_COUNT_THRESHOLD,
    MICROS_PER_SECOND, MIN_THROUGHPUT, SUPERVISION_INTERVAL_MICROS,
};

const SECOND: u64 = 1_000_000;

#[test]
fn policy_constants() {
    assert_eq!(CONNECTION_COUNT_THRESHOLD, 1000);
    assert_eq!(MIN_THROUGHPUT, 500);
    assert_eq!(SUPERVISION_INTERVAL_MICROS, 1_000_000);
    assert_eq!(MICROS_PER_SECOND, 1_000_000);
}

#[test]
fn new_context_has_moved_nothing() {
    let mut supervisor = MyConnectionSupervisor::default();
    let context = supervisor.create_connection_context(42);
    assert_eq!(context.transferred_bytes(), 0);
    assert_eq!(context.last_update(), 42);
}

#[test]
fn timeout_is_one_interval_and_touches_nothing() {
    let mut supervisor = MyConnectionSupervisor;
    let mut context = supervisor.create_connection_context(7);
    supervisor.on_rx_stream_progress(&mut context, 11);
    assert_eq!(supervisor.supervisor_timeout(&mut context), Some(1_000_000));
    assert_eq!(context.transferred_bytes(), 11);
    assert_eq!(context.last_update(), 7);
}

#[test]
fn progress_in_both_directions_adds_up() {
    let mut supervisor = MyConnectionSupervisor;
    let mut context = supervisor.create_connection_context(0);
    supervisor.on_tx_stream_progress(&mut context, 100);
    supervisor.on_rx_stream_progress(&mut context, 23);
    supervisor.on_tx_stream_progress(&mut context, 0);
    supervisor.on_rx_stream_progress(&mut context, 1);
    assert_eq!(context.transferred_bytes(), 124);
    assert_eq!(context.last_update(), 0);
}

#[test]
fn idle_connection_under_load_is_closed() {
    let mut supervisor = MyConnectionSupervisor;
    let mut context = supervisor.create_connection_context(5 * SECOND);
    let outcome = supervisor.on_supervisor_timeout(&mut context, 6 * SECOND, false, 1001);
    assert_eq!(outcome, Outcome::ImmediateClose);
    assert_eq!(context.transferred_bytes(), 0);
    assert_eq!(context.last_update(), 5 * SECOND);
}

#[test]
fn fast_connection_under_load_continues() {
    let mut supervisor = MyConnectionSupervisor;
    let mut context = supervisor.create_connection_context(5 * SECOND);
    supervisor.on_rx_stream_progress(&mut context, 501);
    let outcome = supervisor.on_supervisor_timeout(&mut context, 6 * SECOND, false, 1001);
    assert_eq!(outcome, Outcome::Continue);
    assert_eq!(context.transferred_bytes(), 0);
    assert_eq!(context.last_update(), 6 * SECOND);
}

#[test]
fn throughput_at_the_minimum_is_enough() {
    let mut supervisor = MyConnectionSupervisor;
    let mut at = supervisor.create_connection_context(0);
    supervisor.on_tx_stream_progress(&mut at, 500);
    assert_eq!(supervisor.on_supervisor_timeout(&mut at, SECOND, false, 5000), Outcome::Continue);
    let mut below = supervisor.create_connection_context(0);
    supervisor.on_tx_stream_progress(&mut below, 499);
    assert_eq!(
        supervisor.on_supervisor_timeout(&mut below, SECOND, false, 5000),
        Outcome::ImmediateClose
    );
    assert_eq!(below.transferred_bytes(), 499);
    assert_eq!(below.last_update(), 0);
}

#[test]
fn throughput_counts_the_time_that_passed() {
    let mut supervisor = MyConnectionSupervisor;
    let mut context = supervisor.create_connection_context(SECOND);
    supervisor.on_tx_stream_progress(&mut context, 999);
    assert_eq!(
        supervisor.on_supervisor_timeout(&mut context, 3 * SECOND, false, 1001),
        Outcome::ImmediateClose
    );
    supervisor.on_tx_stream_progress(&mut context, 1);
    assert_eq!(
        supervisor.on_supervisor_timeout(&mut context, 3 * SECOND, false, 1001),
        Outcome::Continue
    );
    assert_eq!(context.last_update(), 3 * SECOND);
}

#[test]
fn handshaking_connection_is_exempt() {
    let mut supervisor = MyConnectionSupervisor;
    let mut context = supervisor.create_connection_context(0);
    supervisor.on_rx_stream_progress(&mut context, 3);
    let outcome = supervisor.on_supervisor_timeout(&mut context, SECOND, true, 100_000);
    assert_eq!(outcome, Outcome::Continue);
    assert_eq!(context.transferred_bytes(), 0);
    assert_eq!(context.last_update(), SECOND);
}

#[test]
fn no_policing_at_or_below_the_threshold() {
    let mut supervisor = MyConnectionSupervisor;
    let mut context = supervisor.create_connection_context(0);
    assert_eq!(supervisor.on_supervisor_timeout(&mut context, SECOND, false, 1000), Outcome::Continue);
    assert_eq!(context.last_update(), SECOND);
    assert_eq!(supervisor.on_supervisor_timeout(&mut context, 2 * SECOND, false, 0), Outcome::Continue);
    assert_eq!(context.last_update(), 2 * SECOND);
    assert_eq!(
        supervisor.on_supervisor_timeout(&mut context, 3 * SECOND, false, 1001),
        Outcome::ImmediateClose
    );
    assert_eq!(context.last_update(), 2 * SECOND);
}

#[test]
fn unpoliced_evaluation_accepts_any_time() {
    let mut supervisor = MyConnectionSupervisor;
    let mut context = supervisor.create_connection_context(10 * SECOND);
    assert_eq!(supervisor.on_supervisor_timeout(&mut context, SECOND, false, 10), Outcome::Continue);
    assert_eq!(context.last_update(), SECOND);
}

#[test]
fn no_time_passed() {
    let mut supervisor = MyConnectionSupervisor;
    let mut idle = supervisor.create_connection_context(SECOND);
    assert_eq!(
        supervisor.on_supervisor_timeout(&mut idle, SECOND, false, 1001),
        Outcome::ImmediateClose
    );
    let mut busy = supervisor.create_connection_context(SECOND);
    supervisor.on_rx_stream_progress(&mut busy, 1);
    assert_eq!(supervisor.on_supervisor_timeout(&mut busy, SECOND, false, 1001), Outcome::Continue);
}

#[test]
fn throughput_formula() {
    assert!(is_below_min_throughput(0, 1));
    assert!(is_below_min_throughput(0, 0));
    assert!(!is_below_min_throughput(1, 0));
    assert!(is_below_min_throughput(499, 1_000_000));
    assert!(!is_below_min_throughput(500, 1_000_000));
    assert!(is_below_min_throughput(500, 1_000_001));
    assert!(!is_below_min_throughput(1, 2_000));
    assert!(is_below_min_throughput(1, 2_001));
    assert!(is_below_min_throughput(usize::MAX / 2_000_000_000, u64::MAX));
    assert!(!is_below_min_throughput(usize::MAX, u64::MAX));
}

#[test]
fn handshake_limits() {
    assert_eq!(bitcomm::slowloris::HANDSHAKE_TIMEOUT_SECS, 5);
    assert_eq!(bitcomm::slowloris::MAX_INFLIGHT_HANDSHAKES, 100);
}

#[test]
fn only_a_close_has_a_reason() {
    assert_eq!(Outcome::Continue.reason(), None);
    assert_eq!(
        Outcome::ImmediateClose.reason(),
        Some("Connection throughput was below MIN_THROUGHPUT")
    );
}
