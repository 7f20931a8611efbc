//! Preparation of the ring and scheduling of the driver loop.
use vstd::prelude::*;
use crate::error::InitError;
use crate::io::{IoError, IoErrorKind};
use crate::io_uring::config::IoUringConfig;
use crate::io_uring::context::CqeContext;
use crate::io_uring::driver::DriverData;
use crate::io_uring::model::DriverView;
use crate::park::{DriverGate, DriverPark, ParkMode};

verus! {

/// A validated ring prepared before native runtime initialization.
///
/// Building the ring first lets runtime construction reject configuration or
/// kernel capability errors without partly initializing nOS-V.
#[derive(Clone, Copy, Debug, PartialEq, Eq, Structural)]
pub struct PreparedRing {
    config: IoUringConfig,
}

impl PreparedRing {
    /// Scheduling and buffering policy retained by the driver.
    pub closed spec fn policy(self) -> IoUringConfig {
        self.config
    }

    /// Returns the scheduling and buffering policy retained by the driver.
    pub fn config(&self) -> (config: IoUringConfig)
        ensures
            config == self.policy(),
    {
        self.config
    }

    /// Validates the configuration with which a ring is to be created.
    pub fn new(config: IoUringConfig) -> (result: Result<Self, InitError>)
        ensures
            match (result, config.problem()) {
                (Ok(prepared), None) => prepared.policy() == config,
                (Err(error), Some(problem)) => error == InitError::InvalidIoUringConfig(problem),
                _ => false,
            },
    {
        match config.validate() {
            Ok(config) => Ok(PreparedRing { config }),
            Err(problem) => Err(InitError::InvalidIoUringConfig(problem)),
        }
    }

    /// Checks the created ring.
    ///
    /// `nodrop` tells whether the kernel provides `IORING_FEAT_NODROP`, without
    /// which completions could be lost.
    pub fn created(&self, nodrop: Result<bool, IoError>) -> (result: Result<(), InitError>)
        ensures
            result == (match nodrop {
                Ok(true) => Ok::<(), InitError>(()),
                Ok(false) => Err(
                    InitError::IoUring(
                        IoError::Simple {
                            kind: IoErrorKind::Unsupported,
                            message: "kernel io_uring does not provide IORING_FEAT_NODROP",
                        },
                    ),
                ),
                Err(error) => Err(InitError::IoUring(error)),
            }),
    {
        match nodrop {
            Ok(true) => Ok(()),
            Ok(false) => Err(
                InitError::IoUring(
                    IoError::Simple {
                        kind: IoErrorKind::Unsupported,
                        message: "kernel io_uring does not provide IORING_FEAT_NODROP",
                    },
                ),
            ),
            Err(error) => Err(InitError::IoUring(error)),
        }
    }

    /// Checks the probed operations of the ring.
    ///
    /// `cancel` tells whether the kernel supports `IORING_OP_ASYNC_CANCEL`,
    /// without which nothing could be retired explicitly.
    pub fn probed(&self, cancel: Result<bool, IoError>) -> (result: Result<(), InitError>)
        ensures
            result == (match cancel {
                Ok(true) => Ok::<(), InitError>(()),
                Ok(false) => Err(
                    InitError::IoUring(
                        IoError::Simple {
                            kind: IoErrorKind::Unsupported,
                            message: "kernel io_uring does not support IORING_OP_ASYNC_CANCEL",
                        },
                    ),
                ),
                Err(error) => Err(InitError::IoUring(error)),
            }),
    {
        match cancel {
            Ok(true) => Ok(()),
            Ok(false) => Err(
                InitError::IoUring(
                    IoError::Simple {
                        kind: IoErrorKind::Unsupported,
                        message: "kernel io_uring does not support IORING_OP_ASYNC_CANCEL",
                    },
                ),
            ),
            Err(error) => Err(InitError::IoUring(error)),
        }
    }
}

/// Scheduling action selected after a driver pass.
#[derive(Clone, Copy, Debug, PartialEq, Eq, Structural)]
pub enum RunDecision {
    /// Shutdown is requested and no kernel or queued work remains.
    Stop,
    /// Work is immediately available, so yield without an idle delay.
    Yield,
    /// Operations are in flight, so wait until the next polling deadline.
    Wait,
    /// No work exists, so pause until a producer notification.
    Pause,
}

/// What the driver does after a pass.
#[derive(Clone, Copy, Debug, PartialEq, Eq, Structural)]
pub enum RunStep {
    /// Drop the ring and return from the run callback.
    Stop,
    /// Run another pass.
    Continue,
    /// Yield, then run another pass.
    Yield,
    /// Wait for the polling interval, then run another pass.
    Wait,
    /// Pause until notified, then run another pass.
    Pause,
}

impl<W> DriverView<W> {
    /// How the driver proceeds from queue state and CQ backlog.
    pub open spec fn decision(self, backlog: bool) -> RunDecision {
        let active = self.contexts != Map::<u64, CqeContext>::empty() || self.staged.len() > 0
            || self.cancel_queue.len() > 0;
        if self.shutdown && !active {
            RunDecision::Stop
        } else if backlog || self.staged.len() > 0 || self.cancel_queue.len() > 0 {
            RunDecision::Yield
        } else if active {
            RunDecision::Wait
        } else {
            RunDecision::Pause
        }
    }
}

/// Reports whether the CQ may hold more than the `reaped` entries taken from it.
pub fn has_backlog(reaped: usize, reap_size: usize, cq_empty: bool) -> (backlog: bool)
    ensures
        backlog == (reaped == reap_size || !cq_empty),
{
    reaped == reap_size || !cq_empty
}

impl<W> DriverData<W> {
    /// Chooses how the driver should proceed from queue state and CQ backlog.
    pub fn decide(&self, backlog: bool) -> (decision: RunDecision)
        ensures
            decision == self@.decision(backlog),
    {
        let queued = self.staged.len() > 0 || self.cancel_queue.len() > 0;
        let active = !self.contexts.is_empty() || queued;
        if self.shutdown && !active {
            RunDecision::Stop
        } else if backlog || queued {
            RunDecision::Yield
        } else if active {
            RunDecision::Wait
        } else {
            RunDecision::Pause
        }
    }

    /// Decides what the driver does after a pass.
    ///
    /// Work announced since the last pass keeps a driver that would park
    /// running.
    pub fn after_pass<R>(&self, gate: &mut DriverGate<R>, backlog: bool) -> (step: RunStep)
        requires
            old(gate).wf(),
            old(gate).raw is Some,
        ensures
            final(gate).wf(),
            ({
                let decision = self@.decision(backlog);
                let mode = match decision {
                    RunDecision::Wait => ParkMode::Wait,
                    RunDecision::Pause => ParkMode::Pause,
                    _ => ParkMode::Yield,
                };
                if decision == RunDecision::Stop {
                    &&& step == RunStep::Stop
                    &&& *final(gate) == (DriverGate { phase: DriverPark::Terminal, ..*old(gate) })
                } else {
                    &&& *final(gate) == old(gate).after_park(mode)
                    &&& step == (if old(gate).notified {
                        RunStep::Continue
                    } else {
                        match decision {
                            RunDecision::Wait => RunStep::Wait,
                            RunDecision::Pause => RunStep::Pause,
                            _ => RunStep::Yield,
                        }
                    })
                }
            }),
    {
        match self.decide(backlog) {
            RunDecision::Stop => {
                gate.stop();
                RunStep::Stop
            },
            RunDecision::Yield => if gate.park(ParkMode::Yield) {
                RunStep::Yield
            } else {
                RunStep::Continue
            },
            RunDecision::Wait => if gate.park(ParkMode::Wait) {
                RunStep::Wait
            } else {
                RunStep::Continue
            },
            RunDecision::Pause => if gate.park(ParkMode::Pause) {
                RunStep::Pause
            } else {
                RunStep::Continue
            },
        }
    }
}

} // verus!
