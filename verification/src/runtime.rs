//! Runtime construction, lifecycle, handles, and attached-thread `block_on`.
//!
//! Initialization and shutdown remain on one owner thread because nOS-V tracks
//! per-thread reference counts. Spawn and query operations share the lifecycle
//! state with shutdown.
use vstd::prelude::*;
use crate::affinity::RawAffinity;
use crate::error::{
    BlockOnError, InitError, NativeError, RuntimeClosed, ShutdownError, SpawnError,
};
use crate::io_uring::config::IoUringConfig;
use crate::table::Table;
use crate::task::{JoinHandle, NativeGate, NativePhase, Polled, TaskConfig, TaskId};

verus! {

/// Runtime lifecycle.
#[derive(Clone, Copy, Debug, PartialEq, Eq, Structural)]
pub enum Lifecycle {
    /// New tasks and native queries are accepted.
    Running,
    /// New work is rejected while registered tasks are cooperatively drained.
    Closing,
    /// Drivers and task types have retired and native shutdown has completed.
    Closed,
}

/// Registry state shared by handles and native completion callbacks.
///
/// `C` is the shared scheduling state of a task. Keeping lifecycle and task
/// membership together ensures a spawn either becomes registered before shutdown
/// or observes the closing state.
pub struct RuntimeState<C> {
    /// Current acceptance and shutdown phase.
    pub lifecycle: Lifecycle,
    /// Every submitted task until its completed callback has destroyed native
    /// ownership.
    pub tasks: Table<C>,
    /// Source of collision-free task identifiers.
    pub next_task_id: u64,
}

/// Content of a [`RuntimeState`].
#[verifier::ext_equal]
pub struct RuntimeView<C> {
    pub lifecycle: Lifecycle,
    pub tasks: Map<u64, C>,
    pub next_task_id: u64,
}

impl<C> View for RuntimeState<C> {
    type V = RuntimeView<C>;

    open spec fn view(&self) -> RuntimeView<C> {
        RuntimeView {
            lifecycle: self.lifecycle,
            tasks: self.tasks@,
            next_task_id: self.next_task_id,
        }
    }
}

impl<C> RuntimeView<C> {
    /// No registered task carries an identifier that is still to be given out,
    /// and a closed runtime has no task.
    pub open spec fn wf(self) -> bool {
        &&& forall|id: u64| #[trigger] self.tasks.contains_key(id) ==> id < self.next_task_id
        &&& self.lifecycle == Lifecycle::Closed ==> self.tasks == Map::<u64, C>::empty()
    }

    /// The registry with one more task.
    pub open spec fn registered(self, id: u64, task: C) -> Self {
        RuntimeView { tasks: self.tasks.insert(id, task), ..self }
    }

    /// The registry without a task.
    pub open spec fn unregistered(self, id: u64) -> Self {
        RuntimeView { tasks: self.tasks.remove(id), ..self }
    }

    /// Removing a task keeps the registry well-formed.
    proof fn lemma_unregistered(self, id: u64)
        requires
            self.wf(),
        ensures
            self.unregistered(id).wf(),
    {
        if self.lifecycle == Lifecycle::Closed {
            assert(self.tasks.remove(id) =~= Map::<u64, C>::empty());
        }
    }
}

/// State shared by the runtime, its handles, tasks, and drivers.
///
/// The recorded process makes all capability paths fail closed after `fork`.
pub struct RuntimeCore<C> {
    /// Thread that initialized the native runtime and must shut it down.
    pub owner_thread: u64,
    /// Process in which native descriptors were created.
    pub pid: i32,
    /// Lifecycle and task registry.
    pub state: RuntimeState<C>,
}

/// Thread and process that a runtime belongs to, which never change.
///
/// They are checked before any lock is taken: a forked process may have inherited
/// one that nobody releases.
#[derive(Clone, Copy, Debug, PartialEq, Eq, Structural)]
pub struct RuntimeOwner {
    /// Thread that initialized the native runtime.
    pub thread: u64,
    /// Process in which native descriptors were created.
    pub pid: i32,
}

impl RuntimeOwner {
    /// Why another thread or process may not drive a root future.
    pub open spec fn block_on_error(self, thread: u64, pid: i32) -> Option<BlockOnError> {
        if thread != self.thread {
            Some(BlockOnError::WrongThread)
        } else if pid != self.pid {
            Some(BlockOnError::ForkedProcess)
        } else {
            None
        }
    }

    /// Why another thread or process may not shut the runtime down.
    pub open spec fn shutdown_error(self, thread: u64, pid: i32) -> Option<ShutdownError> {
        if thread != self.thread {
            Some(ShutdownError::WrongThread)
        } else if pid != self.pid {
            Some(ShutdownError::ForkedProcess)
        } else {
            None
        }
    }

    /// Reports whether `pid` is the process that created the runtime.
    ///
    /// A false result must keep the calling path from making any native call
    /// through inherited descriptors.
    pub fn process_matches(&self, pid: i32) -> (matches: bool)
        ensures
            matches == (pid == self.pid),
    {
        self.pid == pid
    }

    /// Checks who drives a root future.
    pub fn check_block_on(&self, thread: u64, pid: i32) -> (result: Result<(), BlockOnError>)
        ensures
            result == (match self.block_on_error(thread, pid) {
                Some(error) => Err::<(), BlockOnError>(error),
                None => Ok(()),
            }),
    {
        if thread != self.thread {
            return Err(BlockOnError::WrongThread);
        }
        if !self.process_matches(pid) {
            return Err(BlockOnError::ForkedProcess);
        }
        Ok(())
    }

    /// Checks who shuts the runtime down.
    pub fn check_shutdown(&self, thread: u64, pid: i32) -> (result: Result<(), ShutdownError>)
        ensures
            result == (match self.shutdown_error(thread, pid) {
                Some(error) => Err::<(), ShutdownError>(error),
                None => Ok(()),
            }),
    {
        if thread != self.thread {
            return Err(ShutdownError::WrongThread);
        }
        if !self.process_matches(pid) {
            return Err(ShutdownError::ForkedProcess);
        }
        Ok(())
    }
}

/// Every task identifier has been used.
#[derive(Clone, Copy, Debug, PartialEq, Eq, Structural)]
pub struct TasksExhausted;

/// Why a spawn does not begin.
#[derive(Clone, Copy, Debug, PartialEq, Eq, Structural)]
pub enum SpawnRefusal {
    /// The caller receives this error.
    Error(SpawnError),
    /// Every task identifier has been used; the process has to stop.
    Exhausted,
}

/// What a spawn installs on its native descriptor.
#[derive(Debug, PartialEq, Eq)]
pub struct SpawnPlan {
    /// Identifier of the new task.
    pub id: TaskId,
    /// Diagnostic name.
    pub name: Option<String>,
    /// Scheduler priority to set.
    pub priority: Option<i32>,
    /// Affinity to set.
    pub affinity: Option<RawAffinity>,
    /// Value of the monitoring-cost callback.
    pub monitoring_cost: u64,
}

/// Next step of a spawn.
#[derive(Debug, PartialEq, Eq)]
pub enum SpawnStep<R> {
    /// Access the metadata of the descriptor.
    ReadMetadata(R),
    /// Submit the registered descriptor.
    Submit(R),
    /// The task is running.
    Spawned(JoinHandle),
    /// The spawn failed; reclaim what is listed and report the error.
    Failed {
        /// Descriptor to destroy.
        destroy: Option<R>,
        /// Whether the metadata holds an owner that no callback will consume.
        reclaim_owner: bool,
        /// Error for the caller.
        error: SpawnError,
    },
}

impl<C> RuntimeState<C> {
    /// Creates the registry of a running runtime.
    pub fn new() -> (state: Self)
        ensures
            state@.wf(),
            state@ == (RuntimeView::<C> {
                lifecycle: Lifecycle::Running,
                tasks: Map::empty(),
                next_task_id: 1,
            }),
    {
        RuntimeState { lifecycle: Lifecycle::Running, tasks: Table::new(), next_task_id: 1 }
    }
}

impl<C> RuntimeCore<C> {
    /// Publishes a running runtime without tasks, which belongs to the thread and
    /// the process that created it.
    pub fn new(owner_thread: u64, pid: i32) -> (core: Self)
        ensures
            core.owner_thread == owner_thread,
            core.pid == pid,
            core.state@.wf(),
            core.state@ == (RuntimeView::<C> {
                lifecycle: Lifecycle::Running,
                tasks: Map::empty(),
                next_task_id: 1,
            }),
    {
        RuntimeCore { owner_thread, pid, state: RuntimeState::new() }
    }

    /// The thread and the process that this runtime belongs to.
    pub open spec fn owned_by(self) -> RuntimeOwner {
        RuntimeOwner { thread: self.owner_thread, pid: self.pid }
    }

    /// Returns the thread and the process that this runtime belongs to.
    pub fn owner(&self) -> (owner: RuntimeOwner)
        ensures
            owner == self.owned_by(),
    {
        RuntimeOwner { thread: self.owner_thread, pid: self.pid }
    }

    /// Why a spawn with this configuration is refused.
    pub open spec fn spawn_error(self, pid: i32, config: TaskConfig) -> Option<SpawnError> {
        if pid != self.pid {
            Some(SpawnError::ForkedProcess)
        } else if config.affinity is Some && config.affinity->0.raw() is None {
            Some(SpawnError::Native(NativeError::InvalidParameter))
        } else if self.state@.lifecycle != Lifecycle::Running {
            Some(SpawnError::RuntimeClosed)
        } else {
            None
        }
    }

    /// Whether the runtime accepts work from process `pid`.
    pub open spec fn accepts(self, pid: i32) -> bool {
        pid == self.pid && self.state@.lifecycle == Lifecycle::Running
    }

    /// Reports whether `pid` is the process that created this core.
    ///
    /// A false result must keep the calling path from making any native call
    /// through inherited descriptors.
    pub fn process_matches(&self, pid: i32) -> (matches: bool)
        ensures
            matches == (pid == self.pid),
    {
        self.owner().process_matches(pid)
    }

    /// Validates the process and open lifecycle for capability access.
    pub fn ensure_running(&self, pid: i32) -> (result: Result<(), RuntimeClosed>)
        ensures
            result == (if self.accepts(pid) {
                Ok::<(), RuntimeClosed>(())
            } else {
                Err(RuntimeClosed)
            }),
    {
        if !self.process_matches(pid) || self.state.lifecycle != Lifecycle::Running {
            Err(RuntimeClosed)
        } else {
            Ok(())
        }
    }

    /// Validates access to a native query, which keeps the lifecycle in place.
    pub fn ensure_queryable(&self, pid: i32) -> (result: Result<(), NativeError>)
        ensures
            result == (if self.accepts(pid) {
                Ok::<(), NativeError>(())
            } else {
                Err(NativeError::NotInitialized)
            }),
    {
        match self.ensure_running(pid) {
            Ok(()) => Ok(()),
            Err(_) => Err(NativeError::NotInitialized),
        }
    }

    /// Allocates the next registry identifier.
    ///
    /// Identifiers never wrap: a collision could replace a live registry entry
    /// and let shutdown proceed while its native descriptor still exists.
    pub fn next_task_id(&mut self) -> (id: Result<TaskId, TasksExhausted>)
        requires
            old(self).state@.wf(),
        ensures
            final(self).state@.wf(),
            final(self).pid == old(self).pid,
            final(self).owner_thread == old(self).owner_thread,
            if old(self).state.next_task_id == u64::MAX {
                &&& id == Err::<TaskId, TasksExhausted>(TasksExhausted)
                &&& final(self).state@ == old(self).state@
            } else {
                &&& id == Ok::<TaskId, TasksExhausted>(TaskId(old(self).state.next_task_id))
                &&& !final(self).state@.tasks.contains_key(old(self).state.next_task_id)
                &&& final(self).state@ == (RuntimeView {
                    next_task_id: (old(self).state.next_task_id + 1) as u64,
                    ..old(self).state@
                })
            },
    {
        let id: u64 = self.state.next_task_id;
        if id == u64::MAX {
            return Err(TasksExhausted);
        }
        self.state.next_task_id = id + 1;
        Ok(TaskId(id))
    }

    /// Removes a fully retired task.
    ///
    /// Returns whether shutdown has to be notified because the registry is empty.
    pub fn task_completed(&mut self, id: TaskId) -> (drained: bool)
        requires
            old(self).state@.wf(),
        ensures
            final(self).state@.wf(),
            final(self).pid == old(self).pid,
            final(self).owner_thread == old(self).owner_thread,
            final(self).state@ == old(self).state@.unregistered(id.0),
            drained == (final(self).state@.tasks == Map::<u64, C>::empty()),
    {
        proof {
            self.state@.lemma_unregistered(id.0);
        }
        self.state.tasks.remove(id.0);
        self.state.tasks.is_empty()
    }

    /// Checks a spawn and assigns its identifier.
    ///
    /// The lifecycle must stay in place until the task is registered or
    /// reclaimed, so that shutdown drains every task that was spawned.
    pub fn plan_spawn(&mut self, pid: i32, config: TaskConfig) -> (plan: Result<
        SpawnPlan,
        SpawnRefusal,
    >)
        requires
            old(self).state@.wf(),
        ensures
            final(self).state@.wf(),
            final(self).pid == old(self).pid,
            final(self).owner_thread == old(self).owner_thread,
            match old(self).spawn_error(pid, config) {
                Some(error) => {
                    &&& plan == Err::<SpawnPlan, SpawnRefusal>(SpawnRefusal::Error(error))
                    &&& final(self).state@ == old(self).state@
                },
                None => if old(self).state.next_task_id == u64::MAX {
                    &&& plan == Err::<SpawnPlan, SpawnRefusal>(SpawnRefusal::Exhausted)
                    &&& final(self).state@ == old(self).state@
                } else {
                    &&& plan == Ok::<SpawnPlan, SpawnRefusal>(
                        SpawnPlan {
                            id: TaskId(old(self).state.next_task_id),
                            name: config.name,
                            priority: config.priority,
                            affinity: match config.affinity {
                                Some(affinity) => affinity.raw(),
                                None => None,
                            },
                            monitoring_cost: match config.monitoring_cost {
                                Some(cost) => cost,
                                None => 1,
                            },
                        },
                    )
                    &&& !final(self).state@.tasks.contains_key(old(self).state.next_task_id)
                    &&& final(self).state@ == (RuntimeView {
                        next_task_id: (old(self).state.next_task_id + 1) as u64,
                        ..old(self).state@
                    })
                },
            },
    {
        if !self.process_matches(pid) {
            return Err(SpawnRefusal::Error(SpawnError::ForkedProcess));
        }
        let affinity: Option<RawAffinity> = match config.affinity {
            Some(affinity) => match affinity.to_raw() {
                Ok(raw) => Some(raw),
                Err(error) => {
                    return Err(SpawnRefusal::Error(SpawnError::Native(error)));
                },
            },
            None => None,
        };
        if self.state.lifecycle != Lifecycle::Running {
            return Err(SpawnRefusal::Error(SpawnError::RuntimeClosed));
        }
        let id: TaskId = match self.next_task_id() {
            Ok(id) => id,
            Err(_) => {
                return Err(SpawnRefusal::Exhausted);
            },
        };
        let monitoring_cost: u64 = match config.monitoring_cost {
            Some(cost) => cost,
            None => 1,
        };
        Ok(SpawnPlan { id, name: config.name, priority: config.priority, affinity, monitoring_cost })
    }

    /// Continues a spawn after its descriptor was created.
    pub fn created<R>(&self, raw: Result<R, NativeError>) -> (step: SpawnStep<R>)
        ensures
            step == (match raw {
                Ok(raw) => SpawnStep::ReadMetadata(raw),
                Err(error) => SpawnStep::Failed {
                    destroy: None,
                    reclaim_owner: false,
                    error: SpawnError::Native(error),
                },
            }),
    {
        match raw {
            Ok(raw) => SpawnStep::ReadMetadata(raw),
            Err(error) => SpawnStep::Failed {
                destroy: None,
                reclaim_owner: false,
                error: SpawnError::Native(error),
            },
        }
    }

    /// Continues a spawn after the metadata of its descriptor was accessed.
    ///
    /// On success the metadata holds the owner and the attributes are set; the
    /// task becomes live and registered before its initial submission.
    pub fn prepare_spawn<R: Copy>(
        &mut self,
        gate: &mut NativeGate<R>,
        id: TaskId,
        task: C,
        raw: R,
        metadata: Result<(), NativeError>,
    ) -> (step: SpawnStep<R>)
        requires
            old(self).state@.wf(),
            old(self).state@.lifecycle == Lifecycle::Running,
            id.0 < old(self).state.next_task_id,
            old(gate).wf(),
            old(gate).phase is Building,
        ensures
            final(self).state@.wf(),
            final(gate).wf(),
            final(self).pid == old(self).pid,
            final(self).owner_thread == old(self).owner_thread,
            match metadata {
                Ok(_) => {
                    &&& step == SpawnStep::Submit(raw)
                    &&& *final(gate) == (NativeGate {
                        task: Some(raw),
                        phase: NativePhase::Live,
                        wake_submitted: true,
                        ..*old(gate)
                    })
                    &&& final(self).state@ == old(self).state@.registered(id.0, task)
                },
                Err(error) => {
                    &&& step == SpawnStep::<R>::Failed {
                        destroy: Some(raw),
                        reclaim_owner: false,
                        error: SpawnError::Native(error),
                    }
                    &&& *final(gate) == *old(gate)
                    &&& final(self).state@ == old(self).state@
                },
            },
    {
        match metadata {
            Ok(_) => {
                gate.install(raw);
                self.state.tasks.insert(id.0, task);
                SpawnStep::Submit(raw)
            },
            Err(error) => SpawnStep::Failed {
                destroy: Some(raw),
                reclaim_owner: false,
                error: SpawnError::Native(error),
            },
        }
    }

    /// Ends a spawn after the initial submission.
    ///
    /// A failed submission cannot have run any callback: the task leaves the
    /// registry, and descriptor and owner are both reclaimed.
    pub fn finish_spawn<R: Copy>(
        &mut self,
        gate: &mut NativeGate<R>,
        id: TaskId,
        submitted: Result<(), NativeError>,
    ) -> (step: SpawnStep<R>)
        requires
            old(self).state@.wf(),
            old(gate).wf(),
        ensures
            final(self).state@.wf(),
            final(gate).wf(),
            final(self).pid == old(self).pid,
            final(self).owner_thread == old(self).owner_thread,
            match submitted {
                Ok(_) => {
                    &&& step == SpawnStep::<R>::Spawned(JoinHandle { id })
                    &&& *final(gate) == *old(gate)
                    &&& final(self).state@ == old(self).state@
                },
                Err(error) => {
                    &&& step == SpawnStep::<R>::Failed {
                        destroy: old(gate).task,
                        reclaim_owner: true,
                        error: SpawnError::Native(error),
                    }
                    &&& *final(gate) == (NativeGate {
                        task: None,
                        phase: NativePhase::Destroyed,
                        polling: false,
                        ..*old(gate)
                    })
                    &&& final(self).state@ == old(self).state@.unregistered(id.0)
                },
            },
    {
        match submitted {
            Ok(_) => SpawnStep::Spawned(JoinHandle { id }),
            Err(error) => {
                proof {
                    self.state@.lemma_unregistered(id.0);
                }
                self.state.tasks.remove(id.0);
                let destroy = gate.rollback();
                SpawnStep::Failed {
                    destroy,
                    reclaim_owner: true,
                    error: SpawnError::Native(error),
                }
            },
        }
    }
}

/// Validates a capability that does not keep its runtime alive.
///
/// `core` is absent once the runtime is gone.
pub fn ensure_alive<C>(core: Option<&RuntimeCore<C>>, pid: i32) -> (result: Result<
    (),
    RuntimeClosed,
>)
    ensures
        result == (if core is Some && core->0.accepts(pid) {
            Ok::<(), RuntimeClosed>(())
        } else {
            Err(RuntimeClosed)
        }),
{
    match core {
        Some(core) => core.ensure_running(pid),
        None => Err(RuntimeClosed),
    }
}

/// A spawn whose submission fails leaves the registry as it found it.
pub proof fn lemma_failed_spawn_leaves_no_task<C>(state: RuntimeView<C>, id: u64, task: C)
    requires
        state.wf(),
        id >= state.next_task_id,
    ensures
        state.registered(id, task).unregistered(id) == state,
{
    assert(!state.tasks.contains_key(id));
    assert(state.registered(id, task).unregistered(id).tasks =~= state.tasks);
}

/// A runtime that is closing or closed starts no task, drives no root future and
/// answers no query.
pub proof fn lemma_closed_runtime_refuses_work<C>(
    core: RuntimeCore<C>,
    thread: u64,
    pid: i32,
    config: TaskConfig,
    in_task: bool,
    nested: bool,
)
    requires
        core.state@.lifecycle != Lifecycle::Running,
    ensures
        core.spawn_error(pid, config) is Some,
        core.block_on_error(thread, pid, in_task, nested) is Some,
        !core.accepts(pid),
{
}

/// A handle inherited through `fork` is refused before anything else is looked at.
pub proof fn lemma_forked_process_is_refused<C>(
    core: RuntimeCore<C>,
    pid: i32,
    config: TaskConfig,
    in_task: bool,
    nested: bool,
)
    requires
        pid != core.pid,
    ensures
        core.spawn_error(pid, config) == Some(SpawnError::ForkedProcess),
        core.block_on_error(core.owner_thread, pid, in_task, nested) == Some(
            BlockOnError::ForkedProcess,
        ),
        core.shutdown_error(core.owner_thread, pid) == Some(ShutdownError::ForkedProcess),
        !core.accepts(pid),
{
}

/// Waker target of the attached `block_on` task.
#[derive(Clone, Copy, Debug, PartialEq, Eq)]
pub struct ParkerGate<R> {
    /// Implicit external task of the attached thread.
    pub raw: R,
    /// Process used to reject fork-inherited wakers.
    pub pid: i32,
    /// Whether a wake is still allowed to submit the attached descriptor.
    pub live: bool,
    /// Whether this poll epoch already has a native wake in flight.
    pub wake_submitted: bool,
}

impl<R> ParkerGate<R> {
    /// Whether a wake from process `pid` submits the attached descriptor.
    pub open spec fn wakes(self, pid: i32) -> bool {
        pid == self.pid && self.live && !self.wake_submitted
    }

    /// Opens a new poll epoch so its first wake may submit exactly once.
    pub fn begin_poll(&mut self)
        ensures
            *final(self) == (ParkerGate { wake_submitted: false, ..*old(self) }),
    {
        self.wake_submitted = false;
    }

    /// Permanently makes late wakers no-ops before detach.
    pub fn close(&mut self)
        ensures
            *final(self) == (ParkerGate { live: false, ..*old(self) }),
    {
        self.live = false;
    }
}

impl<R: Copy> ParkerGate<R> {
    /// Coalesces a wake and returns the attached descriptor to submit.
    pub fn wake(&mut self, pid: i32) -> (submit: Option<R>)
        ensures
            submit == (if old(self).wakes(pid) {
                Some(old(self).raw)
            } else {
                None
            }),
            *final(self) == (ParkerGate {
                wake_submitted: old(self).wake_submitted || old(self).wakes(pid),
                ..*old(self)
            }),
    {
        if self.pid != pid {
            return None;
        }
        if !self.live || self.wake_submitted {
            return None;
        }
        self.wake_submitted = true;
        Some(self.raw)
    }
}

/// A closed parker and a second wake of one epoch submit nothing.
pub proof fn lemma_parker_wakes_once<R>(gate: ParkerGate<R>, pid: i32, other: i32)
    ensures
        !(ParkerGate { live: false, ..gate }).wakes(pid),
        gate.wakes(pid) ==> !(ParkerGate { wake_submitted: true, ..gate }).wakes(other),
        gate.live && pid == gate.pid ==> (ParkerGate { wake_submitted: false, ..gate }).wakes(pid),
{
}

/// How driving the root future ended.
pub enum Driven<T, P> {
    /// The future returned its output.
    Output(T),
    /// A native operation failed.
    Failed(BlockOnError),
    /// The future panicked with this payload.
    Panicked(P),
}

/// What `block_on` does at the end.
pub enum BlockOutcome<T, P> {
    /// Return this result.
    Return(Result<T, BlockOnError>),
    /// Resume the root future's panic.
    Resume(P),
}

impl<C> RuntimeCore<C> {
    /// Why `block_on` is refused.
    pub open spec fn block_on_error(
        self,
        thread: u64,
        pid: i32,
        in_task: bool,
        nested: bool,
    ) -> Option<BlockOnError> {
        if let Some(error) = self.owned_by().block_on_error(thread, pid) {
            Some(error)
        } else if self.state@.lifecycle != Lifecycle::Running {
            Some(BlockOnError::RuntimeClosed)
        } else if in_task {
            Some(BlockOnError::AlreadyInTask)
        } else if nested {
            Some(BlockOnError::Nested)
        } else {
            None
        }
    }

    /// Checks a `block_on` call and marks the thread as inside one.
    ///
    /// `in_block_on` is the calling thread's mark. It is set only by the call
    /// that may proceed, which clears it again.
    pub fn enter_block_on(
        &self,
        thread: u64,
        pid: i32,
        in_task: bool,
        in_block_on: &mut bool,
    ) -> (result: Result<(), BlockOnError>)
        ensures
            match self.block_on_error(thread, pid, in_task, *old(in_block_on)) {
                Some(error) => {
                    &&& result == Err::<(), BlockOnError>(error)
                    &&& *final(in_block_on) == *old(in_block_on)
                },
                None => result == Ok::<(), BlockOnError>(()) && *final(in_block_on),
            },
    {
        if let Err(error) = self.owner().check_block_on(thread, pid) {
            return Err(error);
        }
        if self.state.lifecycle != Lifecycle::Running {
            return Err(BlockOnError::RuntimeClosed);
        }
        if in_task {
            return Err(BlockOnError::AlreadyInTask);
        }
        if *in_block_on {
            return Err(BlockOnError::Nested);
        }
        *in_block_on = true;
        Ok(())
    }

    /// Continues `block_on` after the thread was attached.
    pub fn attached<R>(&self, raw: Result<R, NativeError>, in_block_on: &mut bool) -> (parker:
        Result<ParkerGate<R>, BlockOnError>)
        ensures
            match raw {
                Ok(raw) => {
                    &&& parker == Ok::<ParkerGate<R>, BlockOnError>(
                        ParkerGate { raw, pid: self.pid, live: true, wake_submitted: true },
                    )
                    &&& *final(in_block_on) == *old(in_block_on)
                },
                Err(error) => {
                    &&& parker == Err::<ParkerGate<R>, BlockOnError>(BlockOnError::Native(error))
                    &&& !*final(in_block_on)
                },
            },
    {
        match raw {
            Ok(raw) => Ok(ParkerGate { raw, pid: self.pid, live: true, wake_submitted: true }),
            Err(error) => {
                *in_block_on = false;
                Err(BlockOnError::Native(error))
            },
        }
    }
}

/// Continues `block_on` after the root future was polled.
///
/// `None` means that the attached thread pauses until it is woken.
pub fn after_root_poll<T, P>(polled: Polled<T, P>) -> (driven: Option<Driven<T, P>>)
    ensures
        driven == (match polled {
            Polled::Pending => None,
            Polled::Ready(output) => Some(Driven::Output(output)),
            Polled::Panicked(payload) => Some(Driven::Panicked(payload)),
        }),
{
    match polled {
        Polled::Pending => None,
        Polled::Ready(output) => Some(Driven::Output(output)),
        Polled::Panicked(payload) => Some(Driven::Panicked(payload)),
    }
}

/// Continues `block_on` after the attached thread paused.
///
/// `None` means that the root future is polled again.
pub fn after_pause<T, P>(paused: Result<(), NativeError>) -> (driven: Option<Driven<T, P>>)
    ensures
        driven == (match paused {
            Ok(_) => None,
            Err(error) => Some(Driven::<T, P>::Failed(BlockOnError::Native(error))),
        }),
{
    match paused {
        Ok(_) => None,
        Err(error) => Some(Driven::Failed(BlockOnError::Native(error))),
    }
}

/// Closes the parker and clears the thread's mark before detach.
pub fn leave_block_on<R>(parker: &mut ParkerGate<R>, in_block_on: &mut bool)
    ensures
        *final(parker) == (ParkerGate { live: false, ..*old(parker) }),
        !*final(in_block_on),
{
    parker.close();
    *in_block_on = false;
}

/// Ends `block_on` after the thread was detached.
///
/// A detach failure is reported only when the root future succeeded: its own
/// failure, or its panic, comes first.
pub fn finish_block_on<T, P>(driven: Driven<T, P>, detached: Result<(), NativeError>) -> (outcome:
    BlockOutcome<T, P>)
    ensures
        outcome == (match driven {
            Driven::Output(output) => match detached {
                Ok(_) => BlockOutcome::Return(Ok(output)),
                Err(error) => BlockOutcome::Return(Err(BlockOnError::Native(error))),
            },
            Driven::Failed(error) => BlockOutcome::Return(Err(error)),
            Driven::Panicked(payload) => BlockOutcome::Resume(payload),
        }),
{
    match driven {
        Driven::Output(output) => match detached {
            Ok(_) => BlockOutcome::Return(Ok(output)),
            Err(error) => BlockOutcome::Return(Err(BlockOnError::Native(error))),
        },
        Driven::Failed(error) => BlockOutcome::Return(Err(error)),
        Driven::Panicked(payload) => BlockOutcome::Resume(payload),
    }
}

/// Builder for runtime facilities.
///
/// It does not change nOS-V's process-global configuration.
#[derive(Clone, Copy, Debug, PartialEq, Eq, Structural)]
pub struct RuntimeBuilder {
    io_uring: IoUringConfig,
}

impl Default for RuntimeBuilder {
    /// A builder with safe defaults.
    fn default() -> (builder: Self)
        ensures
            builder.ring() == IoUringConfig::standard(),
            builder.ring().problem() is None,
    {
        RuntimeBuilder { io_uring: IoUringConfig::default() }
    }
}

impl RuntimeBuilder {
    /// Configuration of the runtime's ring.
    pub closed spec fn ring(self) -> IoUringConfig {
        self.io_uring
    }

    /// Constructs a builder with safe defaults.
    ///
    /// This function performs no native call and may be called in any context.
    pub fn new() -> (builder: Self)
        ensures
            builder.ring() == IoUringConfig::standard(),
            builder.ring().problem() is None,
    {
        RuntimeBuilder::default()
    }

    /// Sets the configuration of the runtime's ring.
    pub fn io_uring_config(self, config: IoUringConfig) -> (builder: Self)
        ensures
            builder.ring() == config,
    {
        RuntimeBuilder { io_uring: config }
    }

    /// Checks that construction may begin and returns the ring configuration.
    ///
    /// `in_task` tells whether the calling thread executes a native task.
    pub fn begin(&self, in_task: bool) -> (result: Result<IoUringConfig, InitError>)
        ensures
            result == (if in_task {
                Err::<IoUringConfig, InitError>(InitError::AlreadyInTask)
            } else {
                match self.ring().problem() {
                    Some(problem) => Err(InitError::InvalidIoUringConfig(problem)),
                    None => Ok(self.ring()),
                }
            }),
    {
        if in_task {
            return Err(InitError::AlreadyInTask);
        }
        match self.io_uring.validate() {
            Ok(config) => Ok(config),
            Err(problem) => Err(InitError::InvalidIoUringConfig(problem)),
        }
    }
}

/// A resource that runtime construction acquires.
///
/// `Y` is a native task type.
#[derive(Clone, Copy, Debug, PartialEq, Eq)]
pub enum Resource<Y> {
    /// The native runtime, initialized on the owner thread.
    Native,
    /// The type of all spawned tasks.
    TaskType(Y),
    /// The type of the timer driver.
    TimerType(Y),
    /// The running timer driver.
    TimerDriver,
    /// The type of the I/O driver.
    IoType(Y),
    /// The running I/O driver.
    IoDriver,
}

/// What runtime construction acquires next.
#[derive(Clone, Copy, Debug, PartialEq, Eq)]
pub enum BuildStep<Y> {
    /// Initialize the native runtime.
    InitNative,
    /// Create the type of spawned tasks.
    CreateTaskType,
    /// Create the type of the timer driver.
    CreateTimerType,
    /// Start the timer driver with this type.
    StartTimer(Y),
    /// Create the type of the I/O driver.
    CreateIoType,
    /// Start the I/O driver with this type.
    StartIo(Y),
    /// Publish the runtime.
    Publish,
}

/// A failed construction: what to release, in this order, and the error.
#[derive(Debug, PartialEq, Eq)]
pub struct BuildFailure<Y> {
    /// Acquired resources, last acquired first.
    pub release: Vec<Resource<Y>>,
    /// Error for the caller.
    pub error: InitError,
}

/// Progress of runtime construction.
///
/// Construction is transactional: a failure at any step releases everything
/// acquired so far.
#[derive(Debug, PartialEq, Eq)]
pub struct RuntimeBuild<Y> {
    acquired: Vec<Resource<Y>>,
}

impl<Y> RuntimeBuild<Y> {
    /// Resources acquired so far, in order.
    pub closed spec fn resources(self) -> Seq<Resource<Y>> {
        self.acquired@
    }

    /// The resources are acquired in their fixed order.
    pub open spec fn wf(self) -> bool {
        let r = self.resources();
        &&& r.len() <= 6
        &&& r.len() > 0 ==> r[0] is Native
        &&& r.len() > 1 ==> r[1] is TaskType
        &&& r.len() > 2 ==> r[2] is TimerType
        &&& r.len() > 3 ==> r[3] is TimerDriver
        &&& r.len() > 4 ==> r[4] is IoType
        &&& r.len() > 5 ==> r[5] is IoDriver
    }

    /// What is acquired next.
    pub open spec fn step(self) -> BuildStep<Y> {
        let r = self.resources();
        if r.len() == 0 {
            BuildStep::InitNative
        } else if r.len() == 1 {
            BuildStep::CreateTaskType
        } else if r.len() == 2 {
            BuildStep::CreateTimerType
        } else if r.len() == 3 {
            BuildStep::StartTimer(r[2]->TimerType_0)
        } else if r.len() == 4 {
            BuildStep::CreateIoType
        } else if r.len() == 5 {
            BuildStep::StartIo(r[4]->IoType_0)
        } else {
            BuildStep::Publish
        }
    }

    /// Whether `resource` is what the next step acquires.
    pub open spec fn expects(self, resource: Resource<Y>) -> bool {
        match self.step() {
            BuildStep::InitNative => resource is Native,
            BuildStep::CreateTaskType => resource is TaskType,
            BuildStep::CreateTimerType => resource is TimerType,
            BuildStep::StartTimer(_) => resource is TimerDriver,
            BuildStep::CreateIoType => resource is IoType,
            BuildStep::StartIo(_) => resource is IoDriver,
            BuildStep::Publish => false,
        }
    }

    /// Begins construction with nothing acquired.
    pub fn new() -> (build: Self)
        ensures
            build.wf(),
            build.resources() == Seq::<Resource<Y>>::empty(),
    {
        RuntimeBuild { acquired: Vec::new() }
    }

    /// Records that the next step acquired `resource`.
    pub fn acquire(&mut self, resource: Resource<Y>)
        requires
            old(self).wf(),
            old(self).expects(resource),
        ensures
            final(self).wf(),
            final(self).resources() == old(self).resources().push(resource),
    {
        self.acquired.push(resource);
    }

    /// Ends construction because the next step failed.
    pub fn fail(self, error: NativeError) -> (failure: BuildFailure<Y>)
        ensures
            failure.error == InitError::Native(error),
            failure.release@ == self.resources().reverse(),
    {
        let mut acquired = self.acquired;
        let mut release: Vec<Resource<Y>> = Vec::new();
        let ghost all = acquired@;
        while acquired.len() > 0
            invariant
                acquired@.len() + release@.len() == all.len(),
                acquired@ == all.take(acquired@.len() as int),
                forall|i: int|
                    0 <= i < release@.len() ==> #[trigger] release@[i] == all[all.len() - 1 - i],
            decreases acquired.len(),
        {
            let last = acquired.pop().unwrap();
            release.push(last);
            assert(acquired@ =~= all.take(acquired@.len() as int));
        }
        assert(release@ =~= all.reverse());
        BuildFailure { release, error: InitError::Native(error) }
    }
}

impl<Y: Copy> RuntimeBuild<Y> {
    /// Returns what construction acquires next.
    pub fn next(&self) -> (step: BuildStep<Y>)
        requires
            self.wf(),
        ensures
            step == self.step(),
    {
        let count: usize = self.acquired.len();
        if count == 0 {
            BuildStep::InitNative
        } else if count == 1 {
            BuildStep::CreateTaskType
        } else if count == 2 {
            BuildStep::CreateTimerType
        } else if count == 3 {
            match self.acquired[2] {
                Resource::TimerType(timer) => BuildStep::StartTimer(timer),
                _ => BuildStep::Publish,
            }
        } else if count == 4 {
            BuildStep::CreateIoType
        } else if count == 5 {
            match self.acquired[4] {
                Resource::IoType(io) => BuildStep::StartIo(io),
                _ => BuildStep::Publish,
            }
        } else {
            BuildStep::Publish
        }
    }
}

/// A failed construction releases exactly what was acquired, last first; the
/// native runtime is shut down last of all.
pub proof fn lemma_failed_build_is_rolled_back<Y>(build: RuntimeBuild<Y>)
    requires
        build.wf(),
    ensures
        build.resources().reverse().len() == build.resources().len(),
        forall|i: int|
            0 <= i < build.resources().len() ==> build.resources().reverse()[i]
                == #[trigger] build.resources()[build.resources().len() - 1 - i],
        build.resources().len() > 0 ==> build.resources().reverse().last() is Native,
{
}

/// What a shutdown call does first.
#[derive(Debug, PartialEq, Eq)]
pub enum ShutdownStart {
    /// The runtime is closed already.
    AlreadyClosed,
    /// Abort these tasks, then wait until the registry is empty.
    Abort(Vec<u64>),
}

/// Steps that retire the native resources of a drained runtime, in this order.
#[derive(Clone, Copy, Debug, PartialEq, Eq, Structural)]
pub enum Teardown {
    /// Stop the I/O driver and wait until it is retired.
    StopIo,
    /// Destroy the type of the I/O driver.
    DestroyIoType,
    /// Stop the timer driver and wait until it is retired.
    StopTimer,
    /// Destroy the type of the timer driver.
    DestroyTimerType,
    /// Destroy the type of spawned tasks.
    DestroyTaskType,
    /// Shut the native runtime down on the owner thread.
    ShutdownNative,
}

/// Progress of a teardown.
#[derive(Clone, Copy, Debug, PartialEq, Eq, Structural)]
pub enum TeardownStep {
    /// Perform this step next.
    Perform(Teardown),
    /// The runtime is closed.
    Closed,
    /// A step failed; the runtime stays closing.
    Failed(ShutdownError),
}

impl Teardown {
    /// The step that follows this one.
    pub open spec fn following(self) -> TeardownStep {
        match self {
            Teardown::StopIo => TeardownStep::Perform(Teardown::DestroyIoType),
            Teardown::DestroyIoType => TeardownStep::Perform(Teardown::StopTimer),
            Teardown::StopTimer => TeardownStep::Perform(Teardown::DestroyTimerType),
            Teardown::DestroyTimerType => TeardownStep::Perform(Teardown::DestroyTaskType),
            Teardown::DestroyTaskType => TeardownStep::Perform(Teardown::ShutdownNative),
            Teardown::ShutdownNative => TeardownStep::Closed,
        }
    }
}

impl<C> RuntimeCore<C> {
    /// Why shutdown is refused.
    pub open spec fn shutdown_error(self, thread: u64, pid: i32) -> Option<ShutdownError> {
        self.owned_by().shutdown_error(thread, pid)
    }

    /// Closes spawning and lists the tasks to abort.
    ///
    /// Shutdown of a runtime that is closing resumes the drain.
    pub fn begin_shutdown(&mut self, thread: u64, pid: i32) -> (start: Result<
        ShutdownStart,
        ShutdownError,
    >)
        requires
            old(self).state@.wf(),
        ensures
            final(self).state@.wf(),
            final(self).pid == old(self).pid,
            final(self).owner_thread == old(self).owner_thread,
            match old(self).shutdown_error(thread, pid) {
                Some(error) => {
                    &&& start == Err::<ShutdownStart, ShutdownError>(error)
                    &&& final(self).state@ == old(self).state@
                },
                None => if old(self).state@.lifecycle == Lifecycle::Closed {
                    &&& start == Ok::<ShutdownStart, ShutdownError>(ShutdownStart::AlreadyClosed)
                    &&& final(self).state@ == old(self).state@
                } else {
                    &&& start matches Ok(ShutdownStart::Abort(ids))
                    &&& ids@.no_duplicates()
                    &&& ids@.to_set() == old(self).state@.tasks.dom()
                    &&& final(self).state@ == (RuntimeView {
                        lifecycle: Lifecycle::Closing,
                        ..old(self).state@
                    })
                },
            },
    {
        if let Err(error) = self.owner().check_shutdown(thread, pid) {
            return Err(error);
        }
        if self.state.lifecycle == Lifecycle::Closed {
            return Ok(ShutdownStart::AlreadyClosed);
        }
        self.state.lifecycle = Lifecycle::Closing;
        Ok(ShutdownStart::Abort(self.state.tasks.keys()))
    }

    /// Reports whether every registered task has retired.
    pub fn is_drained(&self) -> (drained: bool)
        ensures
            drained == (self.state@.tasks == Map::<u64, C>::empty()),
    {
        self.state.tasks.is_empty()
    }

    /// Begins a teardown once every registered task has retired.
    pub fn begin_teardown(&self) -> (step: Option<Teardown>)
        ensures
            step == (if self.state@.lifecycle == Lifecycle::Closing && self.state@.tasks == Map::<
                u64,
                C,
            >::empty() {
                Some(Teardown::StopIo)
            } else {
                None
            }),
    {
        if self.state.lifecycle == Lifecycle::Closing && self.is_drained() {
            Some(Teardown::StopIo)
        } else {
            None
        }
    }

    /// Continues a teardown after `performed`.
    ///
    /// The runtime is closed only once the native shutdown succeeded.
    pub fn after_teardown(&mut self, performed: Teardown, result: Result<(), NativeError>) -> (step:
        TeardownStep)
        requires
            old(self).state@.wf(),
            old(self).state@.lifecycle == Lifecycle::Closing,
            old(self).state@.tasks == Map::<u64, C>::empty(),
        ensures
            final(self).state@.wf(),
            final(self).pid == old(self).pid,
            final(self).owner_thread == old(self).owner_thread,
            step == (match result {
                Ok(_) => performed.following(),
                Err(error) => TeardownStep::Failed(ShutdownError::Native(error)),
            }),
            final(self).state@ == (if step == TeardownStep::Closed {
                RuntimeView { lifecycle: Lifecycle::Closed, ..old(self).state@ }
            } else {
                old(self).state@
            }),
    {
        match result {
            Ok(_) => match performed {
                Teardown::StopIo => TeardownStep::Perform(Teardown::DestroyIoType),
                Teardown::DestroyIoType => TeardownStep::Perform(Teardown::StopTimer),
                Teardown::StopTimer => TeardownStep::Perform(Teardown::DestroyTimerType),
                Teardown::DestroyTimerType => TeardownStep::Perform(Teardown::DestroyTaskType),
                Teardown::DestroyTaskType => TeardownStep::Perform(Teardown::ShutdownNative),
                Teardown::ShutdownNative => {
                    self.state.lifecycle = Lifecycle::Closed;
                    TeardownStep::Closed
                },
            },
            Err(error) => TeardownStep::Failed(ShutdownError::Native(error)),
        }
    }
}

/// The step that retires a resource of a runtime.
pub open spec fn retired_by<Y>(resource: Resource<Y>) -> Teardown {
    match resource {
        Resource::Native => Teardown::ShutdownNative,
        Resource::TaskType(_) => Teardown::DestroyTaskType,
        Resource::TimerType(_) => Teardown::DestroyTimerType,
        Resource::TimerDriver => Teardown::StopTimer,
        Resource::IoType(_) => Teardown::DestroyIoType,
        Resource::IoDriver => Teardown::StopIo,
    }
}

/// Teardown retires everything that construction acquired, in the opposite order,
/// and only then is the runtime closed.
pub proof fn lemma_teardown_reverses_construction<Y>(build: RuntimeBuild<Y>, i: int)
    requires
        build.wf(),
        build.step() is Publish,
        0 <= i < build.resources().len(),
    ensures
        build.resources().len() == 6,
        retired_by(build.resources().last()) == Teardown::StopIo,
        retired_by(build.resources()[i]).following() == (if i == 0 {
            TeardownStep::Closed
        } else {
            TeardownStep::Perform(retired_by(build.resources()[i - 1]))
        }),
{
}

} // verus!
