use rust_chat::bench::{BenchAction, BenchCounters};

#[test]
fn single_client_sends_once() {
    let mut c = BenchCounters::new(1);
    assert_eq!(c.expected, 0);
    assert_eq!(c.next_action(), BenchAction::Send);
    c.record_send();
    assert_eq!(c.next_action(), BenchAction::Done);
}

#[test]
fn two_clients_race_then_drain() {
    let mut c = BenchCounters::new(2);
    assert_eq!(c.expected, 10);
    assert_eq!(c.next_action(), BenchAction::Race);
    c.record_receive(false);
    assert_eq!(c.received, 0);
    c.record_receive(true);
    assert_eq!(c.received, 1);
    c.record_send();
    c.record_send();
    assert_eq!(c.next_action(), BenchAction::Receive);
    for _ in 0..9 {
        c.record_receive(false);
    }
    assert_eq!(c.received, 10);
    assert_eq!(c.next_action(), BenchAction::Done);
}

#[test]
fn no_clients_is_done_at_once() {
    let c = BenchCounters::new(0);
    assert_eq!(c.expected, -10);
    assert_eq!(c.next_action(), BenchAction::Done);
}
