//! Task gates, join cells and run callbacks.
use nosv::error::{JoinError, NativeError};
use nosv::park::{DriverGate, DriverPark, DriverWake, EarlyCompletion, ParkMode, StartStep};
use nosv::task::{
    after_destroy, after_poll, after_suspend, begin_run, finish_run, force_panic, with_current, yield_now, AbortRequest, Ending,
    GateViolation, JoinInner, NativeGate, NativePhase, Polled, StoredTwice, TaskBuilder, TerminalKind,
};
use nosv::waker::{PollState, Poller};

fn live() -> NativeGate<u8> {
    let mut gate = NativeGate::new();
    gate.install(7);
    gate
}

fn poller(waker: u32) -> Poller<u32> {
    Poller { waker, registered: false }
}

#[test]
fn wakes_are_coalesced_per_epoch() {
    let mut gate = live();
    assert_eq!(gate.schedule(true), None);
    assert_eq!(gate.start_poll(), Ok(true));
    assert_eq!(gate.schedule(false), None);
    assert_eq!(gate.schedule(true), Some(7));
    assert_eq!(gate.schedule(true), None);
    assert_eq!(gate.finish_pending(), Ok(true));
    assert_eq!(gate.start_poll(), Ok(true));
    assert_eq!(gate.schedule(true), Some(7));
}

#[test]
fn stale_wakes_and_aborts_do_nothing() {
    let mut gate = live();
    gate.start_poll().unwrap();
    assert_eq!(gate.finish_terminal(TerminalKind::Ready), Ok(true));
    assert_eq!(gate.schedule(true), None);
    assert_eq!(gate.request_abort(true), AbortRequest { installed: false, submit: None });
    assert_eq!(gate.start_poll(), Err(GateViolation));
    assert_eq!(gate.retire(), Ok(7));
    assert!(!gate.is_destroyed());
    gate.destroyed();
    assert!(gate.is_destroyed());
    assert_eq!(gate.retire(), Err(NativeError::InvalidOperation));
}

#[test]
fn abort_wins_over_the_poll() {
    let mut gate = live();
    gate.start_poll().unwrap();
    assert_eq!(gate.request_abort(true), AbortRequest { installed: true, submit: Some(7) });
    assert_eq!(gate.request_abort(true), AbortRequest { installed: false, submit: None });
    let ending = after_poll(&mut gate, Polled::<u32, u8>::Ready(5)).unwrap().unwrap();
    assert_eq!(gate.phase, NativePhase::Terminal(TerminalKind::Cancelled));
    let finish = finish_run(&mut gate, ending, None);
    assert!(matches!(finish.result, Err(JoinError::Cancelled)));
    assert_eq!(finish.discarded, Some(5));
}

#[test]
fn abort_before_a_poll_skips_it() {
    let mut gate = live();
    assert_eq!(gate.request_abort(true), AbortRequest { installed: true, submit: None });
    let ending = begin_run::<u8, u32, u8>(&mut gate, true).unwrap();
    assert!(matches!(ending, Some(Ending::Cancelled)));
    assert!(begin_run::<u8, u32, u8>(&mut gate, true).is_err());
}

#[test]
fn runs_end_in_every_way() {
    let mut gate = live();
    let gone = begin_run::<u8, u32, u8>(&mut gate, false).unwrap();
    assert!(matches!(gone, Some(Ending::Runtime(NativeError::InvalidOperation))));
    assert_eq!(gate.phase, NativePhase::Terminal(TerminalKind::RuntimeError));

    let mut gate = live();
    assert!(begin_run::<u8, u32, u8>(&mut gate, true).unwrap().is_none());
    assert!(after_poll(&mut gate, Polled::<u32, u8>::Pending).unwrap().is_none());
    assert!(after_suspend::<u8, u32, u8>(&mut gate, Ok(())).is_none());
    let failed = after_suspend::<u8, u32, u8>(&mut gate, Err(NativeError::Busy)).unwrap();
    let finish = finish_run(&mut gate, failed, None);
    assert!(matches!(finish.result, Err(JoinError::Runtime(NativeError::Busy))));

    let mut gate = live();
    gate.start_poll().unwrap();
    let ready = after_poll(&mut gate, Polled::<u32, u8>::Ready(5)).unwrap().unwrap();
    let finish = finish_run(&mut gate, ready, Some(9));
    assert!(matches!(finish.result, Err(JoinError::Panic(9))));
    assert_eq!(finish.discarded, Some(5));
    assert_eq!(gate.phase, NativePhase::Terminal(TerminalKind::Panicked));

    let mut gate = live();
    gate.start_poll().unwrap();
    let panicked = after_poll(&mut gate, Polled::<u32, u8>::Panicked(1)).unwrap().unwrap();
    let finish = finish_run(&mut gate, panicked, Some(2));
    assert!(matches!(finish.result, Err(JoinError::Panic(2))));
}

#[test]
fn join_result_is_delivered_after_native_completion() {
    let mut join: JoinInner<u32, u8, u32> = JoinInner::new();
    assert!(matches!(join.poll(poller(3)), PollState::Pending));
    assert_eq!(join.store(Ok(42)), Ok(()));
    assert_eq!(join.store(Ok(43)), Err(StoredTwice));
    assert!(matches!(join.poll(poller(4)), PollState::Pending));
    assert_eq!(join.publish(), Some(4));
    assert!(matches!(join.poll(poller(5)), PollState::Ready(Ok(42))));
}

#[test]
fn builder_keeps_its_attributes() {
    let builder = TaskBuilder::new().rust_name("worker".to_string()).priority(-3).monitoring_cost(9);
    assert_eq!(builder.config.name.as_deref(), Some("worker"));
    assert_eq!(builder.config.priority, Some(-3));
    assert_eq!(builder.config.monitoring_cost, Some(9));
    assert_eq!(builder.config.affinity, None);
}

#[test]
fn queries_need_a_current_task() {
    assert_eq!(
        with_current(false, |task| task.current_cpu(3)),
        Err(NativeError::OutsideTask)
    );
    assert_eq!(with_current(true, |task| task.current_cpu(3)).unwrap().get(), 3);
    assert_eq!(
        with_current(true, |task| task.current_cpu(-1)),
        Err(NativeError::InvalidOperation)
    );
    assert_eq!(with_current(true, |task| task.current_numa_node(2)).unwrap().get(), 2);
}

#[test]
fn yielding_takes_one_turn() {
    let mut future = yield_now();
    assert_eq!(future.poll(1), (PollState::Pending, Some(1)));
    assert_eq!(future.poll(2), (PollState::Ready(()), None));
    assert_eq!(future.poll(3), (PollState::Ready(()), None));
}

#[test]
fn notified_driver_does_not_park() {
    let mut gate: DriverGate<u8> = DriverGate::building();
    assert_eq!(gate.notify(), None);
    gate.install(9);
    gate.resumed();
    gate.notified = false;
    assert_eq!(gate.notify(), None);
    assert!(!gate.park(ParkMode::Pause));
    assert!(gate.park(ParkMode::Pause));
    assert_eq!(gate.notify(), Some(DriverWake { raw: 9, deadline: false }));
    assert_eq!(gate.notify(), None);
    gate.resumed();
    gate.notified = false;
    assert!(gate.park(ParkMode::Wait));
    assert_eq!(gate.notify(), Some(DriverWake { raw: 9, deadline: true }));
    assert_eq!(gate.retire(), Err(EarlyCompletion));
    gate.stop();
    assert_eq!(gate.retire(), Ok(9));
    assert_eq!(gate.phase, DriverPark::Destroyed);
}

#[test]
fn driver_start_is_rolled_back() {
    assert_eq!(
        DriverGate::<u8>::created(Err(NativeError::OutOfMemory)),
        StartStep::Failed {
            destroy: None,
            reclaim_owner: false,
            error: NativeError::OutOfMemory,
        }
    );
    assert_eq!(DriverGate::created(Ok(4u8)), StartStep::ReadMetadata(4));
    let mut gate: DriverGate<u8> = DriverGate::building();
    assert_eq!(
        gate.metadata_read(4, Err(NativeError::Busy)),
        StartStep::Failed { destroy: Some(4), reclaim_owner: false, error: NativeError::Busy }
    );
    assert_eq!(gate.metadata_read(4, Ok(())), StartStep::Submit(4));
    assert_eq!(
        gate.submitted(Err(NativeError::Busy)),
        StartStep::Failed { destroy: Some(4), reclaim_owner: true, error: NativeError::Busy }
    );
    assert_eq!(gate.raw, None);
}

#[test]
fn join_is_published_after_destruction() {
    let mut gate = live();
    let mut join: JoinInner<u32, u8, u32> = JoinInner::new();
    gate.start_poll().unwrap();
    gate.finish_terminal(TerminalKind::Ready).unwrap();
    join.store(Ok(4)).unwrap();
    assert!(matches!(join.poll(poller(6)), PollState::Pending));
    assert_eq!(gate.retire(), Ok(7));
    assert!(!join.native_completed);
    assert_eq!(after_destroy(&mut gate, &mut join, Ok(())), Ok(Some(6)));
    assert!(gate.is_destroyed());
    assert!(matches!(join.poll(poller(6)), PollState::Ready(Ok(4))));

    let mut gate = live();
    let mut join: JoinInner<u32, u8, u32> = JoinInner::new();
    gate.start_poll().unwrap();
    gate.finish_terminal(TerminalKind::Ready).unwrap();
    gate.retire().unwrap();
    assert_eq!(
        after_destroy(&mut gate, &mut join, Err(NativeError::Busy)),
        Err(NativeError::Busy)
    );
    assert!(!join.native_completed);
    assert!(matches!(join.result, Some(Err(JoinError::Runtime(NativeError::Busy)))));
}

#[test]
fn callback_panic_replaces_an_unpublished_result() {
    let mut gate = live();
    let mut join: JoinInner<u32, u8, u32> = JoinInner::new();
    gate.start_poll().unwrap();
    gate.finish_terminal(TerminalKind::Ready).unwrap();
    join.store(Ok(4)).unwrap();
    force_panic(&mut gate, &mut join, 3);
    assert_eq!(gate.phase, NativePhase::Terminal(TerminalKind::Panicked));
    join.publish();
    force_panic(&mut gate, &mut join, 5);
    assert!(matches!(join.poll(poller(1)), PollState::Ready(Err(JoinError::Panic(3)))));
}
