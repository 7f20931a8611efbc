//! Runtime lifecycle: construction, spawning, blocking and shutdown.
use nosv::affinity::{Affinity, AffinityKind, AffinityTarget, MAX_INDEX};
use nosv::error::{
    BlockOnError, InitError, NativeError, RuntimeClosed, ShutdownError, SpawnError,
};
use nosv::io_uring::config::{InvalidIoUringConfig, IoUringConfig};
use nosv::runtime::{
    after_pause, after_root_poll, ensure_alive, finish_block_on, leave_block_on, BlockOutcome,
    BuildStep, Driven, Lifecycle, ParkerGate, Resource, RuntimeBuild, RuntimeBuilder, RuntimeCore,
    RuntimeOwner, ShutdownStart, SpawnRefusal, SpawnStep, Teardown, TeardownStep,
};
use nosv::task::{JoinHandle, NativeGate, NativePhase, Polled, TaskConfig, TaskId};

fn runtime() -> RuntimeCore<char> {
    RuntimeCore::new(1, 100)
}

#[test]
fn new_runtime_belongs_to_its_creator() {
    let core = runtime();
    assert_eq!((core.owner_thread, core.pid), (1, 100));
    assert_eq!(core.state.lifecycle, Lifecycle::Running);
    assert_eq!(core.state.next_task_id, 1);
    assert!(core.is_drained());
    let owner = core.owner();
    assert_eq!(owner, RuntimeOwner { thread: 1, pid: 100 });
    assert!(owner.process_matches(100));
    assert!(!owner.process_matches(101));
    assert_eq!(owner.check_block_on(1, 100), Ok(()));
    assert_eq!(owner.check_block_on(2, 101), Err(BlockOnError::WrongThread));
    assert_eq!(owner.check_block_on(1, 101), Err(BlockOnError::ForkedProcess));
    assert_eq!(owner.check_shutdown(1, 100), Ok(()));
    assert_eq!(owner.check_shutdown(2, 101), Err(ShutdownError::WrongThread));
    assert_eq!(owner.check_shutdown(1, 101), Err(ShutdownError::ForkedProcess));
}

#[test]
fn builder_validates_before_construction() {
    assert_eq!(RuntimeBuilder::new().begin(false), Ok(IoUringConfig::default()));
    assert_eq!(RuntimeBuilder::new().begin(true), Err(InitError::AlreadyInTask));
    let config = IoUringConfig { entries: 8, reap_size: 2, ..IoUringConfig::default() };
    assert_eq!(RuntimeBuilder::default().io_uring_config(config).begin(false), Ok(config));
    let config = IoUringConfig { reap_size: 0, ..config };
    assert_eq!(
        RuntimeBuilder::new().io_uring_config(config).begin(false),
        Err(InitError::InvalidIoUringConfig(InvalidIoUringConfig::ZeroReapSize))
    );
}

#[test]
fn construction_is_transactional() {
    let mut build: RuntimeBuild<u8> = RuntimeBuild::new();
    assert_eq!(build.next(), BuildStep::InitNative);
    build.acquire(Resource::Native);
    assert_eq!(build.next(), BuildStep::CreateTaskType);
    build.acquire(Resource::TaskType(1));
    assert_eq!(build.next(), BuildStep::CreateTimerType);
    build.acquire(Resource::TimerType(2));
    assert_eq!(build.next(), BuildStep::StartTimer(2));
    let failure = build.fail(NativeError::OutOfMemory);
    assert_eq!(failure.error, InitError::Native(NativeError::OutOfMemory));
    assert_eq!(
        failure.release,
        vec![Resource::TimerType(2), Resource::TaskType(1), Resource::Native]
    );
    let mut build: RuntimeBuild<u8> = RuntimeBuild::new();
    for resource in [
        Resource::Native,
        Resource::TaskType(1),
        Resource::TimerType(2),
        Resource::TimerDriver,
        Resource::IoType(3),
    ] {
        build.acquire(resource);
    }
    assert_eq!(build.next(), BuildStep::StartIo(3));
    build.acquire(Resource::IoDriver);
    assert_eq!(build.next(), BuildStep::Publish);
}

#[test]
fn spawning_registers_until_completion() {
    let mut core = runtime();
    let plan = core.plan_spawn(100, TaskConfig::default()).unwrap();
    assert_eq!(plan.id, TaskId(1));
    assert_eq!(plan.monitoring_cost, 1);
    assert_eq!(plan.affinity, None);
    let mut gate = NativeGate::new();
    assert_eq!(core.created(Ok(7u8)), SpawnStep::ReadMetadata(7));
    let step = core.prepare_spawn(&mut gate, plan.id, 'a', 7u8, Ok(()));
    assert_eq!(step, SpawnStep::Submit(7));
    assert_eq!(gate.phase, NativePhase::Live);
    let step = core.finish_spawn(&mut gate, plan.id, Ok(()));
    assert_eq!(step, SpawnStep::Spawned(JoinHandle { id: TaskId(1) }));
    assert!(!core.is_drained());
    assert!(core.task_completed(plan.id));
    assert!(core.is_drained());
    assert_eq!(core.plan_spawn(100, TaskConfig::default()).unwrap().id, TaskId(2));
}

#[test]
fn failed_spawn_leaves_no_task() {
    let mut core = runtime();
    let plan = core.plan_spawn(100, TaskConfig::default()).unwrap();
    let mut gate = NativeGate::new();
    assert_eq!(
        core.created::<u8>(Err(NativeError::OutOfMemory)),
        SpawnStep::Failed {
            destroy: None,
            reclaim_owner: false,
            error: SpawnError::Native(NativeError::OutOfMemory),
        }
    );
    let step = core.prepare_spawn(&mut gate, plan.id, 'a', 7u8, Err(NativeError::Busy));
    assert_eq!(
        step,
        SpawnStep::Failed {
            destroy: Some(7),
            reclaim_owner: false,
            error: SpawnError::Native(NativeError::Busy),
        }
    );
    core.prepare_spawn(&mut gate, plan.id, 'a', 7u8, Ok(()));
    let step = core.finish_spawn(&mut gate, plan.id, Err(NativeError::Busy));
    assert_eq!(
        step,
        SpawnStep::Failed {
            destroy: Some(7),
            reclaim_owner: true,
            error: SpawnError::Native(NativeError::Busy),
        }
    );
    assert!(core.is_drained());
    assert!(gate.is_destroyed());
}

#[test]
fn spawns_are_refused() {
    let mut core = runtime();
    assert_eq!(
        core.plan_spawn(101, TaskConfig::default()),
        Err(SpawnRefusal::Error(SpawnError::ForkedProcess))
    );
    let affinity = Affinity::Target {
        kind: AffinityKind::Strict,
        target: AffinityTarget::ComplexSet(MAX_INDEX + 1),
    };
    assert_eq!(
        core.plan_spawn(100, TaskConfig { affinity: Some(affinity), ..TaskConfig::default() }),
        Err(SpawnRefusal::Error(SpawnError::Native(NativeError::InvalidParameter)))
    );
    core.state.next_task_id = u64::MAX;
    assert_eq!(core.plan_spawn(100, TaskConfig::default()), Err(SpawnRefusal::Exhausted));
    core.begin_shutdown(1, 100).unwrap();
    assert_eq!(
        core.plan_spawn(100, TaskConfig::default()),
        Err(SpawnRefusal::Error(SpawnError::RuntimeClosed))
    );
}

#[test]
fn capabilities_follow_the_lifecycle() {
    let mut core = runtime();
    assert_eq!(core.ensure_running(100), Ok(()));
    assert_eq!(core.ensure_running(101), Err(RuntimeClosed));
    assert_eq!(core.ensure_queryable(101), Err(NativeError::NotInitialized));
    assert_eq!(ensure_alive(Some(&core), 100), Ok(()));
    assert_eq!(ensure_alive::<char>(None, 100), Err(RuntimeClosed));
    core.begin_shutdown(1, 100).unwrap();
    assert_eq!(core.ensure_running(100), Err(RuntimeClosed));
    assert_eq!(ensure_alive(Some(&core), 100), Err(RuntimeClosed));
    assert_eq!(core.ensure_queryable(100), Err(NativeError::NotInitialized));
}

#[test]
fn block_on_is_refused() {
    let mut core = runtime();
    let mut mark = false;
    assert_eq!(core.enter_block_on(2, 100, false, &mut mark), Err(BlockOnError::WrongThread));
    assert_eq!(core.enter_block_on(1, 101, false, &mut mark), Err(BlockOnError::ForkedProcess));
    assert_eq!(core.enter_block_on(1, 100, true, &mut mark), Err(BlockOnError::AlreadyInTask));
    assert!(!mark);
    assert_eq!(core.enter_block_on(1, 100, false, &mut mark), Ok(()));
    assert!(mark);
    assert_eq!(core.enter_block_on(1, 100, false, &mut mark), Err(BlockOnError::Nested));
    assert_eq!(
        core.attached::<u8>(Err(NativeError::Busy), &mut mark),
        Err(BlockOnError::Native(NativeError::Busy))
    );
    assert!(!mark);
    core.begin_shutdown(1, 100).unwrap();
    assert_eq!(core.enter_block_on(1, 100, false, &mut mark), Err(BlockOnError::RuntimeClosed));
}

#[test]
fn parker_wakes_once_per_epoch() {
    let mut mark = true;
    let mut parker = runtime().attached(Ok(5u8), &mut mark).unwrap();
    assert_eq!(
        parker,
        ParkerGate { raw: 5, pid: 100, live: true, wake_submitted: true }
    );
    assert_eq!(parker.wake(100), None);
    parker.begin_poll();
    assert_eq!(parker.wake(101), None);
    assert_eq!(parker.wake(100), Some(5));
    assert_eq!(parker.wake(100), None);
    parker.begin_poll();
    leave_block_on(&mut parker, &mut mark);
    assert!(!mark);
    assert_eq!(parker.wake(100), None);
}

#[test]
fn block_on_reports_the_root_first() {
    assert!(after_root_poll(Polled::<u8, u8>::Pending).is_none());
    assert!(after_pause::<u8, u8>(Ok(())).is_none());
    let output = after_root_poll(Polled::<u8, u8>::Ready(3)).unwrap();
    assert!(matches!(finish_block_on(output, Ok(())), BlockOutcome::Return(Ok(3))));
    let output = after_root_poll(Polled::<u8, u8>::Ready(3)).unwrap();
    assert!(matches!(
        finish_block_on(output, Err(NativeError::Busy)),
        BlockOutcome::Return(Err(BlockOnError::Native(NativeError::Busy)))
    ));
    let failed: Driven<u8, u8> = after_pause(Err(NativeError::Timeout)).unwrap();
    assert!(matches!(
        finish_block_on(failed, Err(NativeError::Busy)),
        BlockOutcome::Return(Err(BlockOnError::Native(NativeError::Timeout)))
    ));
    let panicked = after_root_poll(Polled::<u8, u8>::Panicked(8)).unwrap();
    assert!(matches!(
        finish_block_on(panicked, Err(NativeError::Busy)),
        BlockOutcome::Resume(8)
    ));
}

#[test]
fn shutdown_drains_then_retires_in_order() {
    let mut core = runtime();
    let mut gate = NativeGate::new();
    for name in ['a', 'b'] {
        let plan = core.plan_spawn(100, TaskConfig::default()).unwrap();
        core.prepare_spawn(&mut gate, plan.id, name, 7u8, Ok(()));
        gate = NativeGate::new();
    }
    assert_eq!(core.begin_shutdown(2, 100), Err(ShutdownError::WrongThread));
    assert_eq!(core.begin_shutdown(1, 101), Err(ShutdownError::ForkedProcess));
    match core.begin_shutdown(1, 100) {
        Ok(ShutdownStart::Abort(mut ids)) => {
            ids.sort();
            assert_eq!(ids, vec![1, 2]);
        }
        _ => panic!("the runtime was running"),
    }
    assert_eq!(core.state.lifecycle, Lifecycle::Closing);
    assert_eq!(core.begin_teardown(), None);
    assert!(!core.task_completed(TaskId(1)));
    assert!(core.task_completed(TaskId(2)));
    let mut performed = vec![core.begin_teardown().unwrap()];
    let closed = loop {
        match core.after_teardown(*performed.last().unwrap(), Ok(())) {
            TeardownStep::Perform(next) => performed.push(next),
            step => break step,
        }
    };
    assert_eq!(closed, TeardownStep::Closed);
    assert_eq!(
        performed,
        vec![
            Teardown::StopIo,
            Teardown::DestroyIoType,
            Teardown::StopTimer,
            Teardown::DestroyTimerType,
            Teardown::DestroyTaskType,
            Teardown::ShutdownNative,
        ]
    );
    assert_eq!(core.begin_shutdown(1, 100), Ok(ShutdownStart::AlreadyClosed));
}

#[test]
fn failed_teardown_stays_closing() {
    let mut core = runtime();
    core.begin_shutdown(1, 100).unwrap();
    assert_eq!(
        core.after_teardown(Teardown::ShutdownNative, Err(NativeError::Busy)),
        TeardownStep::Failed(ShutdownError::Native(NativeError::Busy))
    );
    assert_eq!(core.state.lifecycle, Lifecycle::Closing);
    assert!(matches!(core.begin_shutdown(1, 100), Ok(ShutdownStart::Abort(_))));
}
