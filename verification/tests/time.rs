//! Timer queue, sleeps and timeouts.
use nosv::clock::{Duration, Instant};
use nosv::park::{DriverGate, DriverPark};
use nosv::time::{
    far_future, sleep, sleep_until, timeout, Elapsed, TimerData, TimerStep, TimersExhausted,
    FAR_FUTURE_SECS,
};
use nosv::waker::{PollState, Poller};

fn at(secs: i64, subsec_nanos: u32) -> Instant {
    Instant { secs, subsec_nanos }
}

fn poller(waker: u32) -> Poller<u32> {
    Poller { waker, registered: false }
}

#[test]
fn expired_sleep_is_ready_without_a_runtime() {
    let now = at(100, 0);
    let mut sleep = sleep(now, Duration::zero());
    assert_eq!(sleep.poll_expired(now), true);
}

#[test]
fn ready_operation_wins_a_simultaneous_timeout() {
    let now = at(100, 0);
    let mut timeout = timeout(now, Duration::zero());
    assert_eq!(timeout.poll_expired(PollState::Ready(42), now), PollState::Ready(Ok(42)));
}

#[test]
fn elapsed_timeout_reports_it() {
    let now = at(100, 0);
    let mut timeout = timeout(now, Duration::from_millis(1));
    assert_eq!(timeout.poll_expired::<u8>(PollState::Pending, now), PollState::Pending);
    assert_eq!(
        timeout.poll_expired::<u8>(PollState::Pending, at(100, 1_000_000)),
        PollState::Ready(Err(Elapsed))
    );
    assert_eq!(Elapsed.description(), "deadline elapsed");
}

#[test]
fn deadlines_are_exact_and_saturate() {
    let now = at(5, 999_999_999);
    assert_eq!(sleep(now, Duration::from_nanos(1)).deadline(), at(6, 0));
    assert_eq!(sleep_until(at(3, 4)).deadline(), at(3, 4));
    assert_eq!(
        sleep(now, Duration { secs: u64::MAX, subsec_nanos: 0 }).deadline(),
        far_future(now)
    );
    assert_eq!(far_future(at(1, 2)), at(1 + FAR_FUTURE_SECS as i64, 2));
    assert_eq!(FAR_FUTURE_SECS, 100 * 365 * 24 * 60 * 60);
}

#[test]
fn timers_fire_in_deadline_order() {
    let mut data: TimerData<u32> = TimerData::new();
    let now = at(0, 0);
    let mut late = sleep(now, Duration::from_secs(2));
    let mut early = sleep(now, Duration::from_secs(1));
    late.bind(&mut data, 20).unwrap();
    early.bind(&mut data, 10).unwrap();
    let pass = data.pass(now);
    assert_eq!(pass.wait, Some(Duration::from_secs(1)));
    assert!(pass.wakes.is_empty());
    let pass = data.pass(at(1, 0));
    assert_eq!(pass.wakes, vec![10]);
    assert_eq!(pass.wait, Some(Duration::from_secs(1)));
    assert_eq!(early.poll_bound(&mut data, at(1, 0), poller(11)), PollState::Ready(()));
    assert_eq!(late.poll_bound(&mut data, at(1, 0), poller(21)), PollState::Pending);
    let pass = data.pass(at(3, 0));
    assert_eq!(pass.wakes, vec![21]);
    assert_eq!(pass.wait, None);
}

#[test]
fn equal_deadlines_fire_together() {
    let mut data: TimerData<u32> = TimerData::new();
    for waker in 0..3 {
        data.register(at(1, 0), Some(waker)).unwrap();
    }
    assert_eq!(data.pass(at(1, 0)).wakes, vec![0, 1, 2]);
    assert!(data.pass(at(1, 0)).wakes.is_empty());
}

#[test]
fn dropped_sleep_is_forgotten() {
    let mut data: TimerData<u32> = TimerData::new();
    let mut dropped = sleep(at(0, 0), Duration::from_secs(1));
    assert!(!dropped.release(&mut data));
    let mut dropped = sleep(at(0, 0), Duration::from_secs(1));
    dropped.bind(&mut data, 1).unwrap();
    assert!(dropped.release(&mut data));
    assert_eq!(data.pass(at(0, 0)).wait, None);
    assert!(data.timers.is_empty());
    assert!(data.pass(at(9, 0)).wakes.is_empty());
}

#[test]
fn timer_identifiers_never_wrap() {
    let mut data: TimerData<u32> = TimerData::new();
    data.next_id = u64::MAX;
    assert_eq!(data.register(at(0, 0), None), Err(TimersExhausted));
}

#[test]
fn bound_timeout_prefers_the_operation() {
    let mut data: TimerData<u32> = TimerData::new();
    let mut race = timeout(at(0, 0), Duration::from_secs(1));
    assert_eq!(race.poll_expired::<u8>(PollState::Pending, at(0, 0)), PollState::Pending);
    race.sleep.bind(&mut data, 1).unwrap();
    data.pass(at(1, 0));
    assert_eq!(
        race.poll_bound(PollState::Ready(3u8), &mut data, at(1, 0), poller(1)),
        PollState::Ready(Ok(3))
    );
    assert_eq!(
        race.poll_bound::<u8, u32>(PollState::Pending, &mut data, at(1, 0), poller(1)),
        PollState::Ready(Err(Elapsed))
    );
}

#[test]
fn driver_waits_pauses_and_stops() {
    let mut data: TimerData<u32> = TimerData::new();
    let mut gate = DriverGate { raw: Some(1u8), phase: DriverPark::Running, notified: false };
    assert_eq!(data.after_pass(&mut gate, None), TimerStep::Pause);
    assert_eq!(gate.phase, DriverPark::Paused);
    gate.resumed();
    let wait = Duration::from_millis(5);
    assert_eq!(data.after_pass(&mut gate, Some(wait)), TimerStep::Wait(wait));
    assert_eq!(gate.phase, DriverPark::DeadlineWait);
    gate.resumed();
    gate.notified = true;
    assert_eq!(data.after_pass(&mut gate, Some(wait)), TimerStep::Continue);
    data.begin_shutdown();
    assert_eq!(data.after_pass(&mut gate, None), TimerStep::Stop);
    assert_eq!(gate.phase, DriverPark::Terminal);
}

#[test]
fn driver_turn_fires_the_due_and_waits_for_the_rest() {
    let mut data: TimerData<u32> = TimerData::new();
    let mut gate = DriverGate { raw: Some(1u8), phase: DriverPark::Running, notified: false };
    let late = data.register(at(5, 0), Some(50)).unwrap();
    let due = data.register(at(1, 0), Some(10)).unwrap();
    let dropped = data.register(at(2, 0), Some(20)).unwrap();
    data.cancel(dropped);
    let pass = data.pass(at(2, 0));
    assert_eq!(pass.wakes, vec![10]);
    assert!(data.states.get(due).unwrap().fired);
    assert!(!data.states.get(late).unwrap().fired);
    assert_eq!(data.states.get(late).unwrap().waiter, Some(50));
    let wait = Duration::from_secs(3);
    assert_eq!(data.after_pass(&mut gate, pass.wait), TimerStep::Wait(wait));
    gate.resumed();
    let pass = data.pass(at(5, 0));
    assert_eq!(pass.wakes, vec![50]);
    gate.notify();
    assert_eq!(data.after_pass(&mut gate, pass.wait), TimerStep::Continue);
    assert_eq!(data.after_pass(&mut gate, pass.wait), TimerStep::Pause);
}

#[test]
fn shutdown_between_pass_and_park_drops_the_timers() {
    let mut data: TimerData<u32> = TimerData::new();
    let mut gate = DriverGate { raw: Some(1u8), phase: DriverPark::Running, notified: false };
    data.register(at(9, 0), Some(7)).unwrap();
    let pass = data.pass(at(0, 0));
    data.begin_shutdown();
    gate.notify();
    assert_eq!(data.after_pass(&mut gate, pass.wait), TimerStep::Continue);
    assert_eq!(gate.phase, DriverPark::Running);
    let pass = data.pass(at(0, 0));
    assert!(pass.wakes.is_empty());
    assert!(data.timers.is_empty());
    assert!(data.states.is_empty());
    data.register(at(9, 0), Some(8)).unwrap();
    assert_eq!(data.after_pass(&mut gate, pass.wait), TimerStep::Stop);
    assert_eq!(gate.phase, DriverPark::Terminal);
}

#[test]
fn durations_convert_exactly() {
    assert_eq!(Duration::from_micros(50), Duration { secs: 0, subsec_nanos: 50_000 });
    assert_eq!(Duration::from_millis(1_500), Duration { secs: 1, subsec_nanos: 500_000_000 });
    assert_eq!(
        Duration::from_nanos(1_000_000_001),
        Duration { secs: 1, subsec_nanos: 1 }
    );
    assert!(Duration::zero().is_zero());
    assert!(!Duration::from_nanos(1).is_zero());
    assert_eq!(Duration::from_micros(50).as_wait_nanos(), 50_000);
    assert_eq!(Duration { secs: u64::MAX, subsec_nanos: 0 }.as_wait_nanos(), u64::MAX);
    assert!(at(1, 0).is_before(&at(1, 1)));
    assert!(!at(1, 1).is_before(&at(1, 1)));
    assert_eq!(at(2, 0).saturating_duration_since(at(1, 1)), Duration { secs: 0, subsec_nanos: 999_999_999 });
    assert_eq!(at(1, 0).saturating_duration_since(at(2, 0)), Duration::zero());
    assert_eq!(at(i64::MAX, 0).checked_add(Duration::from_secs(1)), None);
}
