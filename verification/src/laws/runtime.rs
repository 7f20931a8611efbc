//! The life of a runtime: construction, spawning, blocking and shutdown.
use vstd::prelude::*;
use crate::affinity::{Affinity, RawAffinity};
use crate::error::{
    BlockOnError, InitError, NativeError, RuntimeClosed, ShutdownError, SpawnError,
};
use crate::io_uring::config::{InvalidIoUringConfig, IoUringConfig};
use crate::runtime::{
    after_pause, after_root_poll, ensure_alive, finish_block_on, leave_block_on, BlockOutcome,
    BuildFailure, BuildStep, Driven, ParkerGate, Resource, RuntimeBuild, RuntimeBuilder,
    RuntimeCore, RuntimeOwner, RuntimeState, ShutdownStart, SpawnPlan, SpawnRefusal, SpawnStep,
    TasksExhausted, Teardown, TeardownStep,
};
use crate::task::{JoinHandle, NativeGate, Polled, TaskConfig, TaskId};

verus! {

/// A new runtime runs, has no task, and belongs to the thread and process that made
/// it.
pub proof fn lemma_new_runtime_runs<C>(
    thread: u64,
    pid: i32,
    core: RuntimeCore<C>,
    owner: RuntimeOwner,
    drained: bool,
    running: Result<(), RuntimeClosed>,
    state: RuntimeState<C>,
)
    requires
        call_ensures(RuntimeCore::<C>::new, (thread, pid), core),
        call_ensures(RuntimeCore::<C>::owner, (&core,), owner),
        call_ensures(RuntimeCore::<C>::is_drained, (&core,), drained),
        call_ensures(RuntimeCore::<C>::ensure_running, (&core, pid), running),
        call_ensures(RuntimeState::<C>::new, (), state),
    ensures
        owner.thread == thread && owner.pid == pid,
        drained,
        running is Ok,
        core.state@ == state@,
        state@.lifecycle is Running,
        state@.next_task_id == 1,
{
}

/// A runtime is there for the process that made it, while it runs. Every way of
/// asking says the same.
pub proof fn lemma_runtime_is_usable_while_it_runs<C>(
    core: RuntimeCore<C>,
    pid: i32,
    matching: bool,
    running: Result<(), RuntimeClosed>,
    queryable: Result<(), NativeError>,
    alive: Result<(), RuntimeClosed>,
    gone: Result<(), RuntimeClosed>,
)
    requires
        call_ensures(RuntimeCore::<C>::process_matches, (&core, pid), matching),
        call_ensures(RuntimeCore::<C>::ensure_running, (&core, pid), running),
        call_ensures(RuntimeCore::<C>::ensure_queryable, (&core, pid), queryable),
        call_ensures(ensure_alive::<C>, (Some(&core), pid), alive),
        call_ensures(ensure_alive::<C>, (None, pid), gone),
    ensures
        matching <==> pid == core.pid,
        running is Ok <==> pid == core.pid && core.state.lifecycle is Running,
        queryable is Ok <==> running is Ok,
        alive is Ok <==> running is Ok,
        gone is Err,
        queryable matches Err(error) ==> error == NativeError::NotInitialized,
{
}

/// Blocking and shutdown are for the owning thread of the owning process; the wrong
/// thread is reported first.
pub proof fn lemma_only_the_owner_may_block_or_shut_down(
    owner: RuntimeOwner,
    thread: u64,
    pid: i32,
    matching: bool,
    blocking: Result<(), BlockOnError>,
    shutting: Result<(), ShutdownError>,
)
    requires
        call_ensures(RuntimeOwner::process_matches, (&owner, pid), matching),
        call_ensures(RuntimeOwner::check_block_on, (&owner, thread, pid), blocking),
        call_ensures(RuntimeOwner::check_shutdown, (&owner, thread, pid), shutting),
    ensures
        matching <==> pid == owner.pid,
        blocking is Ok <==> thread == owner.thread && pid == owner.pid,
        shutting is Ok <==> blocking is Ok,
        thread != owner.thread ==> blocking->Err_0 is WrongThread && shutting->Err_0
            is WrongThread,
        thread == owner.thread && pid != owner.pid ==> blocking->Err_0 is ForkedProcess
            && shutting->Err_0 is ForkedProcess,
{
}

/// Task identifiers are never given out twice: each is larger than the one before,
/// until they are used up.
pub proof fn lemma_task_ids_are_unique<C>(
    core: &mut RuntimeCore<C>,
    first: Result<TaskId, TasksExhausted>,
    next: &mut RuntimeCore<C>,
    second: Result<TaskId, TasksExhausted>,
)
    requires
        old(core).state@.wf(),
        call_ensures(RuntimeCore::<C>::next_task_id, (core,), first),
        old(next).state@ == final(core).state@,
        call_ensures(RuntimeCore::<C>::next_task_id, (next,), second),
    ensures
        first is Err <==> old(core).state.next_task_id == u64::MAX,
        first is Ok && second is Ok ==> second->Ok_0.0 == first->Ok_0.0 + 1,
        first is Ok ==> !old(core).state@.tasks.contains_key(first->Ok_0.0),
        first is Err ==> second is Err,
        final(core).state@.tasks == old(core).state@.tasks,
        final(core).state@.lifecycle == old(core).state@.lifecycle,
{
}

/// A spawn is refused in another process, then for an affinity that does not fit,
/// then by a runtime that is closed; otherwise it succeeds while there are task
/// identifiers.
pub proof fn lemma_spawn_is_refused_for_its_reasons<C>(
    core: &mut RuntimeCore<C>,
    pid: i32,
    config: TaskConfig,
    placed: Result<RawAffinity, NativeError>,
    plan: Result<SpawnPlan, SpawnRefusal>,
)
    requires
        old(core).state@.wf(),
        config.affinity matches Some(affinity) ==> call_ensures(
            Affinity::to_raw,
            (affinity,),
            placed,
        ),
        call_ensures(RuntimeCore::<C>::plan_spawn, (core, pid, config), plan),
    ensures
        ({
            let misplaced = config.affinity is Some && placed is Err;
            let open = old(core).state.lifecycle is Running;
            let refused = |error: SpawnError|
                plan == Err::<SpawnPlan, SpawnRefusal>(SpawnRefusal::Error(error));
            &&& pid != old(core).pid ==> refused(SpawnError::ForkedProcess)
            &&& pid == old(core).pid && misplaced ==> refused(
                SpawnError::Native(placed->Err_0),
            )
            &&& pid == old(core).pid && !misplaced && !open ==> refused(SpawnError::RuntimeClosed)
            &&& pid == old(core).pid && !misplaced && open ==> (plan is Ok
                <==> old(core).state.next_task_id < u64::MAX)
            &&& pid == old(core).pid && !misplaced && open && plan is Err ==> plan->Err_0
                is Exhausted
            &&& plan is Err ==> final(core).state@ == old(core).state@
        }),
{
}

/// A spawn has the attributes it was configured with, and costs one unit by default.
pub proof fn lemma_spawn_has_its_attributes<C>(
    core: &mut RuntimeCore<C>,
    pid: i32,
    config: TaskConfig,
    placed: Result<RawAffinity, NativeError>,
    plan: SpawnPlan,
    next: &mut RuntimeCore<C>,
    other: SpawnPlan,
)
    requires
        old(core).state@.wf(),
        config.affinity matches Some(affinity) ==> call_ensures(
            Affinity::to_raw,
            (affinity,),
            placed,
        ),
        call_ensures(
            RuntimeCore::<C>::plan_spawn,
            (core, pid, config),
            Ok::<SpawnPlan, SpawnRefusal>(plan),
        ),
        old(next).state@ == final(core).state@,
        old(next).pid == final(core).pid,
        call_ensures(
            RuntimeCore::<C>::plan_spawn,
            (next, pid, config),
            Ok::<SpawnPlan, SpawnRefusal>(other),
        ),
    ensures
        plan.name == config.name,
        plan.priority == config.priority,
        config.affinity is None ==> plan.affinity is None,
        config.affinity is Some ==> plan.affinity == Some(placed->Ok_0),
        config.monitoring_cost is None ==> plan.monitoring_cost == 1,
        config.monitoring_cost matches Some(cost) ==> plan.monitoring_cost == cost,
        !old(core).state@.tasks.contains_key(plan.id.0),
        other.id.0 == plan.id.0 + 1,
        final(core).state@.tasks == old(core).state@.tasks,
        final(core).state@.lifecycle == old(core).state@.lifecycle,
{
}

/// A spawned task is registered until it completes, and the runtime is drained when
/// the last one did.
pub proof fn lemma_task_is_registered_until_it_completes<C, R: Copy>(
    core: &mut RuntimeCore<C>,
    gate: &mut NativeGate<R>,
    id: TaskId,
    task: C,
    raw: R,
    step: SpawnStep<R>,
    finishing: &mut RuntimeCore<C>,
    submitting: &mut NativeGate<R>,
    spawned: SpawnStep<R>,
    completing: &mut RuntimeCore<C>,
    drained: bool,
    before: bool,
)
    requires
        old(core).state@.wf(),
        old(core).state@.lifecycle is Running,
        id.0 < old(core).state.next_task_id,
        !old(core).state@.tasks.contains_key(id.0),
        old(gate).wf(),
        old(gate).phase is Building,
        call_ensures(
            RuntimeCore::<C>::prepare_spawn::<R>,
            (core, gate, id, task, raw, Ok::<(), NativeError>(())),
            step,
        ),
        old(finishing).state@ == final(core).state@,
        *old(submitting) == *final(gate),
        call_ensures(
            RuntimeCore::<C>::finish_spawn::<R>,
            (finishing, submitting, id, Ok::<(), NativeError>(())),
            spawned,
        ),
        old(completing).state@ == final(finishing).state@,
        call_ensures(RuntimeCore::<C>::task_completed, (completing, id), drained),
        call_ensures(RuntimeCore::<C>::is_drained, (&*old(core),), before),
    ensures
        step == SpawnStep::Submit(raw),
        spawned == SpawnStep::<R>::Spawned(JoinHandle { id }),
        final(gate).phase is Live && final(gate).task == Some(raw) && final(gate).wake_submitted,
        *final(submitting) == *final(gate),
        final(finishing).state@.tasks.contains_key(id.0),
        final(finishing).state@.tasks[id.0] == task,
        final(completing).state@.tasks == old(core).state@.tasks,
        drained <==> before,
{
    assert(final(completing).state@.tasks =~= old(core).state@.tasks);
}

/// A spawn that fails leaves no task behind: the descriptor that was made is handed
/// out to be destroyed, the error is the native one, and the owner is taken back
/// only from a task that was ready to run.
pub proof fn lemma_failed_spawn_leaves_nothing_behind<C, R: Copy>(
    core: &mut RuntimeCore<C>,
    gate: &mut NativeGate<R>,
    id: TaskId,
    task: C,
    raw: R,
    error: NativeError,
    uncreated: SpawnStep<R>,
    unread: SpawnStep<R>,
    prepared: &mut RuntimeCore<C>,
    live: &mut NativeGate<R>,
    step: SpawnStep<R>,
    finishing: &mut RuntimeCore<C>,
    submitting: &mut NativeGate<R>,
    unsubmitted: SpawnStep<R>,
)
    requires
        old(core).state@.wf(),
        old(core).state@.lifecycle is Running,
        id.0 < old(core).state.next_task_id,
        !old(core).state@.tasks.contains_key(id.0),
        old(gate).wf(),
        old(gate).phase is Building,
        call_ensures(
            RuntimeCore::<C>::created::<R>,
            (&*old(core), Err::<R, NativeError>(error)),
            uncreated,
        ),
        call_ensures(
            RuntimeCore::<C>::prepare_spawn::<R>,
            (core, gate, id, task, raw, Err::<(), NativeError>(error)),
            unread,
        ),
        *old(prepared) == *old(core),
        *old(live) == *old(gate),
        call_ensures(
            RuntimeCore::<C>::prepare_spawn::<R>,
            (prepared, live, id, task, raw, Ok::<(), NativeError>(())),
            step,
        ),
        old(finishing).state@ == final(prepared).state@,
        *old(submitting) == *final(live),
        call_ensures(
            RuntimeCore::<C>::finish_spawn::<R>,
            (finishing, submitting, id, Err::<(), NativeError>(error)),
            unsubmitted,
        ),
    ensures
        uncreated is Failed && uncreated->error == SpawnError::Native(error) && uncreated->destroy
            is None && !uncreated->reclaim_owner,
        unread is Failed && unread->error == SpawnError::Native(error) && unread->destroy == Some(
            raw,
        ) && !unread->reclaim_owner,
        final(core).state@ == old(core).state@ && *final(gate) == *old(gate),
        unsubmitted is Failed && unsubmitted->error == SpawnError::Native(error)
            && unsubmitted->destroy == Some(raw) && unsubmitted->reclaim_owner,
        final(finishing).state@ == old(core).state@,
        final(submitting).task is None && final(submitting).phase is Destroyed,
{
    assert(final(finishing).state@.tasks =~= old(core).state@.tasks);
}

/// A created task goes on to its metadata.
pub proof fn lemma_created_task_is_prepared<C, R>(core: RuntimeCore<C>, raw: R, step: SpawnStep<R>)
    requires
        call_ensures(RuntimeCore::<C>::created::<R>, (&core, Ok::<R, NativeError>(raw)), step),
    ensures
        step == SpawnStep::ReadMetadata(raw),
{
}

/// The root task is submitted once for each poll: by the first wake after the poll
/// began, in the process it runs in, and never after it ended.
pub proof fn lemma_root_is_woken_once_for_each_poll<R: Copy>(
    gate: &mut ParkerGate<R>,
    woken: &mut ParkerGate<R>,
    pid: i32,
    first: Option<R>,
    again: &mut ParkerGate<R>,
    other: i32,
    second: Option<R>,
    closed: &mut ParkerGate<R>,
    polled: &mut ParkerGate<R>,
    late: &mut ParkerGate<R>,
    third: Option<R>,
)
    requires
        call_ensures(ParkerGate::<R>::begin_poll, (gate,), ()),
        *old(woken) == *final(gate),
        call_ensures(ParkerGate::<R>::wake, (woken, pid), first),
        *old(again) == *final(woken),
        call_ensures(ParkerGate::<R>::wake, (again, other), second),
        *old(closed) == *final(again),
        call_ensures(ParkerGate::<R>::close, (closed,), ()),
        *old(polled) == *final(closed),
        call_ensures(ParkerGate::<R>::begin_poll, (polled,), ()),
        *old(late) == *final(polled),
        call_ensures(ParkerGate::<R>::wake, (late, pid), third),
    ensures
        first is Some <==> old(gate).live && pid == old(gate).pid,
        first matches Some(raw) ==> raw == old(gate).raw,
        first is Some ==> second is None,
        first is None && old(gate).live && other == old(gate).pid ==> second == Some(
            old(gate).raw,
        ),
        third is None,
{
}

/// A runtime is blocked on by its owner, while it runs, outside tasks, and once at a
/// time; each reason for a refusal has its error, in this order.
pub proof fn lemma_blocking_is_refused_for_its_reasons<C>(
    core: RuntimeCore<C>,
    thread: u64,
    pid: i32,
    in_task: bool,
    in_block_on: &mut bool,
    result: Result<(), BlockOnError>,
    nested: &mut bool,
    again: Result<(), BlockOnError>,
)
    requires
        call_ensures(
            RuntimeCore::<C>::enter_block_on,
            (&core, thread, pid, in_task, in_block_on),
            result,
        ),
        *old(nested) == *final(in_block_on),
        call_ensures(
            RuntimeCore::<C>::enter_block_on,
            (&core, thread, pid, in_task, nested),
            again,
        ),
    ensures
        ({
            let owner = thread == core.owner_thread && pid == core.pid;
            let open = core.state.lifecycle is Running;
            &&& result is Ok <==> owner && open && !in_task && !*old(in_block_on)
            &&& result is Ok ==> *final(in_block_on) && again is Err && again->Err_0 is Nested
            &&& result is Err ==> *final(in_block_on) == *old(in_block_on)
            &&& thread != core.owner_thread ==> result->Err_0 is WrongThread
            &&& thread == core.owner_thread && pid != core.pid ==> result->Err_0 is ForkedProcess
            &&& owner && !open ==> result->Err_0 is RuntimeClosed
            &&& owner && open && in_task ==> result->Err_0 is AlreadyInTask
            &&& owner && open && !in_task && *old(in_block_on) ==> result->Err_0 is Nested
        }),
{
}

/// The root is attached as a live task that needs no wake for its first poll; a
/// failure to attach, and the end of the call, let the next call in.
pub proof fn lemma_block_on_begins_and_ends<C, R>(
    core: RuntimeCore<C>,
    raw: Result<R, NativeError>,
    in_block_on: &mut bool,
    parker: Result<ParkerGate<R>, BlockOnError>,
    leaving: &mut ParkerGate<R>,
    left: &mut bool,
)
    requires
        call_ensures(RuntimeCore::<C>::attached::<R>, (&core, raw, in_block_on), parker),
        call_ensures(leave_block_on::<R>, (leaving, left), ()),
    ensures
        raw matches Ok(raw) ==> parker is Ok && parker->Ok_0.raw == raw && parker->Ok_0.pid
            == core.pid && parker->Ok_0.live && parker->Ok_0.wake_submitted && *final(in_block_on)
            == *old(in_block_on),
        raw matches Err(error) ==> parker == Err::<ParkerGate<R>, BlockOnError>(
            BlockOnError::Native(error),
        ) && !*final(in_block_on),
        !final(leaving).live && final(leaving).raw == old(leaving).raw,
        !*final(left),
{
}

/// Blocking ends with what the future ended with: its output, once the root is
/// detached, or its panic. It goes on while the future is pending, and ends with the
/// error of a pause or a detachment that failed.
pub proof fn lemma_block_on_returns_the_output<T, P>(
    output: T,
    payload: P,
    error: NativeError,
    detached: Result<(), NativeError>,
    ready: Option<Driven<T, P>>,
    panicked: Option<Driven<T, P>>,
    pending: Option<Driven<T, P>>,
    paused: Option<Driven<T, P>>,
    failed: Option<Driven<T, P>>,
    returned: BlockOutcome<T, P>,
    resumed: BlockOutcome<T, P>,
    refused: BlockOutcome<T, P>,
)
    requires
        call_ensures(after_root_poll::<T, P>, (Polled::Ready(output),), ready),
        call_ensures(after_root_poll::<T, P>, (Polled::Panicked(payload),), panicked),
        call_ensures(after_root_poll::<T, P>, (Polled::Pending,), pending),
        call_ensures(after_pause::<T, P>, (Ok::<(), NativeError>(()),), paused),
        call_ensures(after_pause::<T, P>, (Err::<(), NativeError>(error),), failed),
        call_ensures(finish_block_on::<T, P>, (ready->0, detached), returned),
        call_ensures(finish_block_on::<T, P>, (panicked->0, detached), resumed),
        call_ensures(finish_block_on::<T, P>, (failed->0, detached), refused),
    ensures
        ready is Some && panicked is Some && failed is Some,
        pending is None && paused is None,
        detached is Ok ==> returned == BlockOutcome::<T, P>::Return(
            Ok::<T, BlockOnError>(output),
        ),
        detached matches Err(cause) ==> returned == BlockOutcome::<T, P>::Return(
            Err::<T, BlockOnError>(BlockOnError::Native(cause)),
        ),
        resumed == BlockOutcome::<T, P>::Resume(payload),
        refused == BlockOutcome::<T, P>::Return(
            Err::<T, BlockOnError>(BlockOnError::Native(error)),
        ),
{
}

/// A builder builds with the policy it was last given, outside tasks, exactly if the
/// policy is valid; it begins with the standard one.
pub proof fn lemma_builder_uses_its_policy(
    fresh: RuntimeBuilder,
    standard: IoUringConfig,
    began: Result<IoUringConfig, InitError>,
    config: IoUringConfig,
    builder: RuntimeBuilder,
    in_task: bool,
    result: Result<IoUringConfig, InitError>,
    valid: Result<IoUringConfig, InvalidIoUringConfig>,
)
    requires
        call_ensures(RuntimeBuilder::new, (), fresh) || call_ensures(
            <RuntimeBuilder as Default>::default,
            (),
            fresh,
        ),
        call_ensures(<IoUringConfig as Default>::default, (), standard),
        call_ensures(RuntimeBuilder::begin, (&fresh, false), began),
        call_ensures(RuntimeBuilder::io_uring_config, (fresh, config), builder),
        call_ensures(RuntimeBuilder::begin, (&builder, in_task), result),
        call_ensures(IoUringConfig::validate, (config,), valid),
    ensures
        began == Ok::<IoUringConfig, InitError>(standard),
        in_task ==> result == Err::<IoUringConfig, InitError>(InitError::AlreadyInTask),
        !in_task && valid is Ok ==> result == Ok::<IoUringConfig, InitError>(config),
        !in_task && valid is Err ==> result == Err::<IoUringConfig, InitError>(
            InitError::InvalidIoUringConfig(valid->Err_0),
        ),
{
}

/// A runtime is built in a fixed order: the native library, the type of tasks, the
/// type of timers and their driver, the type of I/O and its driver. A driver is
/// started with the type that was made for it, and the runtime is published last.
pub proof fn lemma_runtime_is_built_in_order<Y: Copy>(
    build: &mut RuntimeBuild<Y>,
    step: BuildStep<Y>,
    resource: Resource<Y>,
    next: BuildStep<Y>,
)
    requires
        old(build).wf(),
        call_ensures(RuntimeBuild::<Y>::next, (&*old(build),), step),
        call_ensures(RuntimeBuild::<Y>::acquire, (build, resource), ()),
        old(build).expects(resource),
        call_ensures(RuntimeBuild::<Y>::next, (&*final(build),), next),
    ensures
        step is InitNative ==> resource is Native && next is CreateTaskType,
        step is CreateTaskType ==> resource is TaskType && next is CreateTimerType,
        step is CreateTimerType ==> resource is TimerType && next == BuildStep::StartTimer(
            resource->TimerType_0,
        ),
        step is StartTimer ==> resource is TimerDriver && next is CreateIoType,
        step is CreateIoType ==> resource is IoType && next == BuildStep::StartIo(
            resource->IoType_0,
        ),
        step is StartIo ==> resource is IoDriver && next is Publish,
        step !is Publish,
{
}

/// A build that fails releases what it acquired, the latest first, and reports the
/// native error.
pub proof fn lemma_failed_build_releases_in_reverse<Y>(
    build: &mut RuntimeBuild<Y>,
    resource: Resource<Y>,
    error: NativeError,
    before: BuildFailure<Y>,
    after: BuildFailure<Y>,
    fresh: RuntimeBuild<Y>,
    empty: BuildFailure<Y>,
)
    requires
        old(build).wf(),
        old(build).expects(resource),
        call_ensures(RuntimeBuild::<Y>::fail, (*old(build), error), before),
        call_ensures(RuntimeBuild::<Y>::acquire, (build, resource), ()),
        call_ensures(RuntimeBuild::<Y>::fail, (*final(build), error), after),
        call_ensures(RuntimeBuild::<Y>::new, (), fresh),
        call_ensures(RuntimeBuild::<Y>::fail, (fresh, error), empty),
    ensures
        empty.release@.len() == 0,
        after.release@ == seq![resource] + before.release@,
        after.error == InitError::Native(error),
        before.error == after.error,
{
    let acquired = old(build).resources();
    assert(acquired.push(resource).reverse() =~= seq![resource] + acquired.reverse());
    assert(Seq::<Resource<Y>>::empty().reverse() =~= Seq::<Resource<Y>>::empty());
}

/// Shutdown is for the owner. It closes the runtime to new work and aborts every
/// task, each once; a second shutdown of a closed runtime has nothing to do.
pub proof fn lemma_shutdown_aborts_every_task<C>(
    core: &mut RuntimeCore<C>,
    thread: u64,
    pid: i32,
    start: Result<ShutdownStart, ShutdownError>,
    owner: Result<(), ShutdownError>,
    running: Result<(), RuntimeClosed>,
    id: u64,
)
    requires
        old(core).state@.wf(),
        call_ensures(RuntimeCore::<C>::begin_shutdown, (core, thread, pid), start),
        call_ensures(
            RuntimeOwner::check_shutdown,
            (
                &RuntimeOwner { thread: old(core).owner_thread, pid: old(core).pid },
                thread,
                pid,
            ),
            owner,
        ),
        call_ensures(RuntimeCore::<C>::ensure_running, (&*final(core), pid), running),
    ensures
        start is Ok <==> thread == old(core).owner_thread && pid == old(core).pid,
        start is Err ==> start->Err_0 == owner->Err_0 && final(core).state@ == old(core).state@,
        start is Ok && old(core).state.lifecycle is Closed ==> start->Ok_0 is AlreadyClosed
            && final(core).state@ == old(core).state@,
        start is Ok && old(core).state.lifecycle !is Closed ==> start->Ok_0 is Abort && (
        start->Ok_0->Abort_0@.contains(id) <==> old(core).state@.tasks.contains_key(id))
            && start->Ok_0->Abort_0@.no_duplicates() && final(core).state@.lifecycle is Closing
            && final(core).state@.tasks == old(core).state@.tasks,
        start is Ok ==> running is Err,
{
    if start is Ok && old(core).state.lifecycle !is Closed {
        assert(start->Ok_0->Abort_0@.to_set().contains(id) <==> old(core).state@.tasks.contains_key(
            id,
        ));
    }
}

/// Teardown begins once a closing runtime has no task left, and undoes the
/// construction step by step, the latest first; the runtime is closed after the last
/// step and not before. A step that fails ends it with its error.
pub proof fn lemma_teardown_undoes_the_construction<C>(
    core: &mut RuntimeCore<C>,
    begin: Option<Teardown>,
    drained: bool,
    performed: Teardown,
    result: Result<(), NativeError>,
    step: TeardownStep,
)
    requires
        old(core).state@.wf(),
        call_ensures(RuntimeCore::<C>::begin_teardown, (&*old(core),), begin),
        call_ensures(RuntimeCore::<C>::is_drained, (&*old(core),), drained),
        begin is Some,
        call_ensures(RuntimeCore::<C>::after_teardown, (core, performed, result), step),
    ensures
        drained && old(core).state.lifecycle is Closing,
        begin->0 is StopIo,
        result matches Err(error) ==> step == TeardownStep::Failed(ShutdownError::Native(error)),
        result is Ok ==> {
            &&& performed is StopIo ==> step == TeardownStep::Perform(Teardown::DestroyIoType)
            &&& performed is DestroyIoType ==> step == TeardownStep::Perform(Teardown::StopTimer)
            &&& performed is StopTimer ==> step == TeardownStep::Perform(
                Teardown::DestroyTimerType,
            )
            &&& performed is DestroyTimerType ==> step == TeardownStep::Perform(
                Teardown::DestroyTaskType,
            )
            &&& performed is DestroyTaskType ==> step == TeardownStep::Perform(
                Teardown::ShutdownNative,
            )
            &&& performed is ShutdownNative ==> step is Closed
        },
        final(core).state@.lifecycle is Closed <==> step is Closed,
        step !is Closed ==> final(core).state@ == old(core).state@,
{
}

/// Teardown does not begin while the runtime runs or a task is left, nor after the
/// runtime was closed.
pub proof fn lemma_teardown_waits_for_the_tasks<C>(
    core: RuntimeCore<C>,
    begin: Option<Teardown>,
    drained: bool,
    id: u64,
)
    requires
        call_ensures(RuntimeCore::<C>::begin_teardown, (&core,), begin),
        call_ensures(RuntimeCore::<C>::is_drained, (&core,), drained),
    ensures
        begin is Some <==> drained && core.state.lifecycle is Closing,
        drained ==> !core.state@.tasks.contains_key(id),
        (forall|other: u64| !#[trigger] core.state@.tasks.contains_key(other)) ==> drained,
{
    if forall|other: u64| !#[trigger] core.state@.tasks.contains_key(other) {
        assert(core.state@.tasks =~= Map::empty());
    }
}

/// A build begins with nothing acquired, by initializing the native library.
pub proof fn lemma_build_begins_with_the_native_library<Y: Copy>(
    fresh: RuntimeBuild<Y>,
    start: BuildStep<Y>,
)
    requires
        call_ensures(RuntimeBuild::<Y>::new, (), fresh),
        call_ensures(RuntimeBuild::<Y>::next, (&fresh,), start),
    ensures
        fresh.wf(),
        fresh.resources().len() == 0,
        start is InitNative,
{
}

} // verus!
