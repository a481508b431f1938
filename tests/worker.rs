use udp_ping::metric::Metric;
use udp_ping::sample::Sample;
use udp_ping::worker::{BackendKind, StopReason, Worker, WorkerAction, WorkerEvent};

#[test]
fn backend_selection() {
    assert_eq!(BackendKind::select(true, false), BackendKind::NoOp);
    assert_eq!(BackendKind::select(true, true), BackendKind::NoOp);
    assert_eq!(BackendKind::select(false, true), BackendKind::OsSocket);
    assert_eq!(BackendKind::select(false, false), BackendKind::RawStack);
    assert!(!BackendKind::NoOp.performs_io());
    assert!(BackendKind::RawStack.performs_io());
}

#[test]
fn sample_requires_ordered_readings() {
    let s = Sample::new(10, 25, Metric::ResponseOk).unwrap();
    assert_eq!(s.start(), 10);
    assert_eq!(s.end(), 25);
    assert_eq!(s.latency(), 15);
    assert_eq!(s.metric(), Metric::ResponseOk);
    assert!(Sample::new(7, 7, Metric::ResponseOk).is_some());
    assert!(Sample::new(8, 7, Metric::ResponseOk).is_none());
}

fn sample_of(a: WorkerAction) -> Sample {
    match a {
        WorkerAction::Push { sample } => sample,
        other => panic!("expected a push, got {:?}", other),
    }
}

#[test]
fn socket_worker_cycle() {
    let mut w = Worker::new(BackendKind::OsSocket, Metric::ResponseOk);
    assert_eq!(w.next_action(), WorkerAction::ReadStartClock);
    assert_eq!(w.step(WorkerEvent::StartClock { at: 100, cancelled: false }), WorkerAction::Exchange);
    assert_eq!(w.step(WorkerEvent::Exchanged { ok: true }), WorkerAction::ReadEndClock);
    let s = sample_of(w.step(WorkerEvent::EndClock { at: 180 }));
    assert_eq!((s.start(), s.end()), (100, 180));
    assert_eq!(w.step(WorkerEvent::Pushed { ok: true }), WorkerAction::ReadStartClock);
    assert_eq!(w.stopped(), None);
}

#[test]
fn noop_worker_skips_exchange() {
    let mut w = Worker::new(BackendKind::NoOp, Metric::ResponseOk);
    assert_eq!(w.step(WorkerEvent::StartClock { at: 5, cancelled: false }), WorkerAction::ReadEndClock);
    let s = sample_of(w.step(WorkerEvent::EndClock { at: 6 }));
    assert_eq!(s.latency(), 1);
    assert_eq!(w.step(WorkerEvent::Pushed { ok: true }), WorkerAction::ReadStartClock);
}

#[test]
fn transport_failure_stops_worker() {
    let mut w = Worker::new(BackendKind::RawStack, Metric::ResponseOk);
    w.step(WorkerEvent::StartClock { at: 1, cancelled: false });
    let stop = WorkerAction::Stop { reason: StopReason::TransportFailed };
    assert_eq!(w.step(WorkerEvent::Exchanged { ok: false }), stop);
    assert_eq!(w.stopped(), Some(StopReason::TransportFailed));
    assert_eq!(w.step(WorkerEvent::StartClock { at: 2, cancelled: false }), stop);
}

#[test]
fn closed_channel_stops_worker() {
    let mut w = Worker::new(BackendKind::NoOp, Metric::ResponseOk);
    w.step(WorkerEvent::StartClock { at: 1, cancelled: false });
    w.step(WorkerEvent::EndClock { at: 2 });
    assert_eq!(
        w.step(WorkerEvent::Pushed { ok: false }),
        WorkerAction::Stop { reason: StopReason::ChannelClosed }
    );
}

#[test]
fn cancellation_stops_before_probe() {
    let mut w = Worker::new(BackendKind::OsSocket, Metric::ResponseOk);
    assert_eq!(
        w.step(WorkerEvent::StartClock { at: 1, cancelled: true }),
        WorkerAction::Stop { reason: StopReason::Cancelled }
    );
}

#[test]
fn clock_regression_stops_worker() {
    let mut w = Worker::new(BackendKind::NoOp, Metric::ResponseOk);
    w.step(WorkerEvent::StartClock { at: 50, cancelled: false });
    assert_eq!(
        w.step(WorkerEvent::EndClock { at: 49 }),
        WorkerAction::Stop { reason: StopReason::ClockRegressed }
    );
    let mut w = Worker::new(BackendKind::NoOp, Metric::ResponseOk);
    w.step(WorkerEvent::StartClock { at: 50, cancelled: false });
    w.step(WorkerEvent::EndClock { at: 60 });
    w.step(WorkerEvent::Pushed { ok: true });
    assert_eq!(
        w.step(WorkerEvent::StartClock { at: 59, cancelled: false }),
        WorkerAction::Stop { reason: StopReason::ClockRegressed }
    );
}

#[test]
fn pending_sample_is_kept_until_pushed() {
    let mut w = Worker::new(BackendKind::NoOp, Metric::ResponseOk);
    w.step(WorkerEvent::StartClock { at: 3, cancelled: false });
    let pending = w.step(WorkerEvent::EndClock { at: 9 });
    assert_eq!(w.step(WorkerEvent::StartClock { at: 10, cancelled: false }), pending);
    assert_eq!(w.step(WorkerEvent::EndClock { at: 11 }), pending);
    assert_eq!(w.next_action(), pending);
    assert_eq!(w.step(WorkerEvent::Pushed { ok: true }), WorkerAction::ReadStartClock);
}

#[test]
fn samples_of_one_worker_follow_each_other() {
    let mut w = Worker::new(BackendKind::OsSocket, Metric::ResponseOk);
    let mut last_end = 0u64;
    for i in 0..5u64 {
        w.step(WorkerEvent::StartClock { at: 10 * i, cancelled: false });
        w.step(WorkerEvent::Exchanged { ok: true });
        let s = sample_of(w.step(WorkerEvent::EndClock { at: 10 * i + 4 }));
        assert!(s.start() >= last_end);
        assert!(s.end() >= s.start());
        last_end = s.end();
        w.step(WorkerEvent::Pushed { ok: true });
    }
}
