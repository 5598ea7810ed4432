use tracing_layer::message::OutboundPayload;
use tracing_layer::worker::{
    backoff_delay_ms, replay, DeliveryAction, DeliveryWorker, LifecycleMisuseError,
    ShutdownOutcome, WorkerCommand, WorkerEvent, WorkerLifecycle, WorkerMessage,
};

fn payload(tag: &str) -> OutboundPayload {
    OutboundPayload::new("http://example.test/hook".to_string(), tag.to_string())
}

fn posts(log: &[DeliveryAction]) -> Vec<String> {
    let mut out = Vec::new();
    for a in log {
        if let DeliveryAction::Posted(p) = a {
            out.push(p.body.clone());
        }
    }
    out
}

fn sleeps(log: &[DeliveryAction]) -> Vec<u64> {
    let mut out = Vec::new();
    for a in log {
        if let DeliveryAction::Slept(ms) = a {
            out.push(*ms);
        }
    }
    out
}

#[test]
fn backoff_doubles_from_one_hundred_ms() {
    let expected: [u64; 10] = [100, 200, 400, 800, 1600, 3200, 6400, 12800, 25600, 51200];
    for (i, want) in expected.iter().enumerate() {
        assert_eq!(backoff_delay_ms(i + 1), *want);
    }
}

#[test]
fn nine_failures_then_success_post_ten_times_with_nine_delays() {
    let queue = vec![WorkerMessage::Data(payload("a"))];
    let mut outcomes = vec![false; 9];
    outcomes.push(true);
    let log = replay(&queue, &outcomes);
    assert_eq!(log.len(), 19);
    assert_eq!(posts(&log).len(), 10);
    assert_eq!(
        sleeps(&log),
        vec![100, 200, 400, 800, 1600, 3200, 6400, 12800, 25600]
    );
}

#[test]
fn ten_failures_abandon_the_payload_and_the_worker_continues() {
    let queue = vec![
        WorkerMessage::Data(payload("a")),
        WorkerMessage::Data(payload("b")),
    ];
    let mut outcomes = vec![false; 10];
    outcomes.push(true);
    let log = replay(&queue, &outcomes);
    let sent = posts(&log);
    assert_eq!(sent.len(), 11);
    assert!(sent[..10].iter().all(|b| b == "a"));
    assert_eq!(sent[10], "b");
    assert_eq!(
        sleeps(&log),
        vec![100, 200, 400, 800, 1600, 3200, 6400, 12800, 25600, 51200]
    );
}

#[test]
fn data_behind_a_shutdown_is_never_sent() {
    let queue = vec![
        WorkerMessage::Data(payload("before")),
        WorkerMessage::Shutdown,
        WorkerMessage::Data(payload("after")),
    ];
    let outcomes = vec![true, true];
    let log = replay(&queue, &outcomes);
    assert_eq!(
        log,
        vec![DeliveryAction::Posted(payload("before"))]
    );
}

#[test]
fn a_leading_shutdown_sends_nothing() {
    let queue = vec![WorkerMessage::Shutdown, WorkerMessage::Data(payload("x"))];
    let log = replay(&queue, &vec![true]);
    assert!(log.is_empty());
}

#[test]
fn an_exhausted_queue_stops_the_worker() {
    let queue = vec![WorkerMessage::Data(payload("only"))];
    let log = replay(&queue, &vec![true]);
    assert_eq!(log, vec![DeliveryAction::Posted(payload("only"))]);
}

#[test]
fn step_issues_the_expected_commands() {
    let mut w = DeliveryWorker::new();
    let cmd = w.step(WorkerEvent::Message(WorkerMessage::Data(payload("a"))));
    assert_eq!(cmd, WorkerCommand::Post(payload("a")));
    let cmd = w.step(WorkerEvent::PostFailed);
    assert_eq!(cmd, WorkerCommand::Sleep(100));
    let cmd = w.step(WorkerEvent::SleepFinished);
    assert_eq!(cmd, WorkerCommand::Post(payload("a")));
    let cmd = w.step(WorkerEvent::PostSucceeded);
    assert_eq!(cmd, WorkerCommand::Receive);
    let cmd = w.step(WorkerEvent::Message(WorkerMessage::Shutdown));
    assert_eq!(cmd, WorkerCommand::Exit);
}

#[test]
fn start_twice_is_a_checked_misuse() {
    let mut lc = WorkerLifecycle::new();
    assert_eq!(lc.start(), Ok(()));
    assert_eq!(lc.start(), Err(LifecycleMisuseError::AlreadyStarted));
}

#[test]
fn double_shutdown_is_a_reported_noop() {
    let mut lc = WorkerLifecycle::new();
    assert_eq!(lc.start(), Ok(()));
    assert_eq!(lc.shutdown(), ShutdownOutcome::SignalledWorker);
    assert_eq!(lc.shutdown(), ShutdownOutcome::NoRunningWorker);
}

#[test]
fn shutdown_without_a_start_is_a_reported_noop() {
    let mut lc = WorkerLifecycle::new();
    assert_eq!(lc.shutdown(), ShutdownOutcome::NoRunningWorker);
    assert_eq!(lc.shutdown(), ShutdownOutcome::NoRunningWorker);
}
