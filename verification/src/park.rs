//! Parking and waking of the stackful driver tasks.
//!
//! The timer and I/O drivers are native tasks that park themselves when they
//! have nothing to do. nOS-V distinguishes waking an indefinite pause from
//! interrupting a deadline wait. Tracking that distinction under one gate lets
//! producers race either operation without losing a wake.
use vstd::prelude::*;
use crate::error::NativeError;

verus! {

/// Native scheduling state of a driver task.
#[derive(Clone, Copy, Debug, PartialEq, Eq, Structural)]
pub enum DriverPark {
    /// The native descriptor is being constructed and cannot be woken.
    Building,
    /// The driver callback is executing or scheduled to continue.
    Running,
    /// The idle driver is paused indefinitely.
    Paused,
    /// The active driver is sleeping until its deadline.
    DeadlineWait,
    /// A wake submission has been issued but has not resumed the callback.
    WakePending,
    /// The run loop stopped and will not park again.
    Terminal,
    /// The completion callback destroyed the native descriptor.
    Destroyed,
}

/// How a driver intends to give up its worker.
#[derive(Clone, Copy, Debug, PartialEq, Eq, Structural)]
pub enum ParkMode {
    /// Yield and continue immediately.
    Yield,
    /// Wait until a deadline.
    Wait,
    /// Pause until a producer notification.
    Pause,
}

/// Native task descriptor and lost-wakeup prevention state.
#[derive(Clone, Copy, Debug, PartialEq, Eq)]
pub struct DriverGate<R> {
    /// Driver task descriptor while one exists.
    pub raw: Option<R>,
    /// Current scheduling phase of the driver task.
    pub phase: DriverPark,
    /// Work was announced before or while the driver tried to park.
    pub notified: bool,
}

/// A wake to submit to the native scheduler.
#[derive(Clone, Copy, Debug, PartialEq, Eq)]
pub struct DriverWake<R> {
    /// Descriptor of the parked driver.
    pub raw: R,
    /// Whether the driver is in a deadline wait, which takes its own submit mode.
    pub deadline: bool,
}

/// A driver completed without having reached its terminal phase.
#[derive(Clone, Copy, Debug, PartialEq, Eq, Structural)]
pub struct EarlyCompletion;

impl<R> DriverGate<R> {
    /// A descriptor exists exactly between construction and destruction.
    pub open spec fn wf(self) -> bool {
        self.raw is None <==> (self.phase == DriverPark::Building || self.phase
            == DriverPark::Destroyed)
    }

    /// The driver sits in a native park operation.
    pub open spec fn parked(self) -> bool {
        self.phase == DriverPark::Paused || self.phase == DriverPark::DeadlineWait
    }

    /// Gate after work was announced.
    pub open spec fn after_notify(self) -> Self {
        DriverGate {
            notified: true,
            phase: if self.parked() {
                DriverPark::WakePending
            } else {
                self.phase
            },
            ..self
        }
    }

    /// The wake that announcing work has to submit.
    pub open spec fn notify_wake(self) -> Option<DriverWake<R>> {
        if self.parked() {
            Some(
                DriverWake {
                    raw: self.raw->0,
                    deadline: self.phase == DriverPark::DeadlineWait,
                },
            )
        } else {
            None
        }
    }

    /// Gate after the driver tried to park.
    pub open spec fn after_park(self, mode: ParkMode) -> Self {
        if self.notified {
            DriverGate { notified: false, phase: DriverPark::Running, ..self }
        } else {
            DriverGate {
                phase: match mode {
                    ParkMode::Yield => DriverPark::Running,
                    ParkMode::Wait => DriverPark::DeadlineWait,
                    ParkMode::Pause => DriverPark::Paused,
                },
                ..self
            }
        }
    }

    /// Gate after the native park operation returned.
    pub open spec fn after_resume(self) -> Self {
        DriverGate { phase: DriverPark::Running, ..self }
    }

    /// Work announced before the driver parks keeps it from parking.
    pub proof fn lemma_notified_driver_does_not_park(self, mode: ParkMode)
        requires
            self.wf(),
            self.phase == DriverPark::Running,
        ensures
            !self.after_notify().after_park(mode).parked(),
            self.after_notify().after_park(mode).phase == DriverPark::Running,
    {
    }

    /// Work announced while the driver is parked is submitted exactly once and
    /// makes the driver run another pass before it parks again.
    pub proof fn lemma_parked_driver_is_woken_once(self, mode: ParkMode)
        requires
            self.wf(),
            self.parked(),
        ensures
            self.notify_wake() is Some,
            self.after_notify().notify_wake() is None,
            self.after_notify().after_notify() == self.after_notify(),
            !self.after_notify().after_resume().after_park(mode).parked(),
    {
    }

    /// No wake is submitted for a driver that has no descriptor.
    pub proof fn lemma_no_wake_without_descriptor(self)
        requires
            self.wf(),
            self.raw is None,
        ensures
            self.notify_wake() is None,
    {
    }

    /// Creates the parking state of a driver without a descriptor.
    pub fn building() -> (gate: Self)
        ensures
            gate.wf(),
            gate == (DriverGate::<R> {
                raw: None,
                phase: DriverPark::Building,
                notified: false,
            }),
    {
        DriverGate { raw: None, phase: DriverPark::Building, notified: false }
    }

    /// Installs the created descriptor before its initial submission.
    pub fn install(&mut self, raw: R)
        ensures
            final(self).wf(),
            *final(self) == (DriverGate {
                raw: Some(raw),
                phase: DriverPark::Running,
                notified: old(self).notified,
            }),
    {
        self.raw = Some(raw);
        self.phase = DriverPark::Running;
    }

    /// Takes back the descriptor whose initial submission failed.
    pub fn rollback(&mut self) -> (raw: Option<R>)
        ensures
            final(self).wf(),
            raw == old(self).raw,
            *final(self) == (DriverGate::<R> {
                raw: None,
                phase: DriverPark::Destroyed,
                notified: old(self).notified,
            }),
    {
        let raw = self.raw.take();
        self.phase = DriverPark::Destroyed;
        raw
    }

    /// Marks the driver as running again after a native park operation.
    pub fn resumed(&mut self)
        requires
            old(self).wf(),
            old(self).raw is Some,
        ensures
            final(self).wf(),
            *final(self) == old(self).after_resume(),
    {
        self.phase = DriverPark::Running;
    }

    /// Marks the run loop as stopped.
    pub fn stop(&mut self)
        requires
            old(self).wf(),
            old(self).raw is Some,
        ensures
            final(self).wf(),
            *final(self) == (DriverGate { phase: DriverPark::Terminal, ..*old(self) }),
    {
        self.phase = DriverPark::Terminal;
    }

    /// Releases the terminal descriptor for destruction.
    ///
    /// Fails without a change when the run loop has not stopped.
    pub fn retire(&mut self) -> (raw: Result<R, EarlyCompletion>)
        requires
            old(self).wf(),
        ensures
            final(self).wf(),
            if old(self).phase == DriverPark::Terminal {
                &&& raw == Ok::<R, EarlyCompletion>(old(self).raw->0)
                &&& *final(self) == (DriverGate {
                    raw: None,
                    phase: DriverPark::Destroyed,
                    ..*old(self)
                })
            } else {
                &&& raw == Err::<R, EarlyCompletion>(EarlyCompletion)
                &&& *final(self) == *old(self)
            },
    {
        if self.phase != DriverPark::Terminal {
            return Err(EarlyCompletion);
        }
        let raw = self.raw.take().unwrap();
        self.phase = DriverPark::Destroyed;
        Ok(raw)
    }

    /// Decides whether the driver parks.
    ///
    /// `false` means that work was announced since the last pass: the driver
    /// consumes the announcement and runs another pass instead.
    pub fn park(&mut self, mode: ParkMode) -> (parks: bool)
        requires
            old(self).wf(),
            old(self).raw is Some,
        ensures
            final(self).wf(),
            parks == !old(self).notified,
            *final(self) == old(self).after_park(mode),
    {
        if self.notified {
            self.notified = false;
            self.phase = DriverPark::Running;
            false
        } else {
            self.phase = match mode {
                ParkMode::Yield => DriverPark::Running,
                ParkMode::Wait => DriverPark::DeadlineWait,
                ParkMode::Pause => DriverPark::Paused,
            };
            true
        }
    }
}

impl<R: Copy> DriverGate<R> {
    /// Announces work and returns the wake to submit, if the driver is parked.
    ///
    /// `notified` closes the race between a producer finding the driver running
    /// and the driver deciding to park. `WakePending` coalesces further wakes
    /// until the submitted one resumes the callback.
    pub fn notify(&mut self) -> (wake: Option<DriverWake<R>>)
        requires
            old(self).wf(),
        ensures
            final(self).wf(),
            wake == old(self).notify_wake(),
            *final(self) == old(self).after_notify(),
    {
        self.notified = true;
        let deadline = match self.phase {
            DriverPark::Paused => false,
            DriverPark::DeadlineWait => true,
            _ => {
                return None;
            },
        };
        self.phase = DriverPark::WakePending;
        Some(DriverWake { raw: self.raw.unwrap(), deadline })
    }
}

/// Next step while a driver task is being started.
#[derive(Clone, Copy, Debug, PartialEq, Eq)]
pub enum StartStep<R> {
    /// Read the metadata of the created descriptor.
    ReadMetadata(R),
    /// Submit the descriptor, whose metadata now holds the driver's owner.
    Submit(R),
    /// The driver is running.
    Started,
    /// Starting failed; destroy the descriptor and reclaim the owner first.
    Failed {
        /// Descriptor to destroy.
        destroy: Option<R>,
        /// Whether the metadata holds an owner that no callback will consume.
        reclaim_owner: bool,
        /// Why starting failed.
        error: NativeError,
    },
}

impl<R: Copy> DriverGate<R> {
    /// Continues after the native task was created.
    pub fn created(result: Result<R, NativeError>) -> (step: StartStep<R>)
        ensures
            step == (match result {
                Ok(raw) => StartStep::ReadMetadata(raw),
                Err(error) => StartStep::Failed { destroy: None, reclaim_owner: false, error },
            }),
    {
        match result {
            Ok(raw) => StartStep::ReadMetadata(raw),
            Err(error) => StartStep::Failed { destroy: None, reclaim_owner: false, error },
        }
    }

    /// Continues after the metadata of `raw` was read and, on success, filled.
    pub fn metadata_read(&mut self, raw: R, result: Result<(), NativeError>) -> (step: StartStep<R>)
        requires
            old(self).wf(),
        ensures
            final(self).wf(),
            match result {
                Ok(_) => {
                    &&& step == StartStep::Submit(raw)
                    &&& *final(self) == (DriverGate {
                        raw: Some(raw),
                        phase: DriverPark::Running,
                        notified: old(self).notified,
                    })
                },
                Err(error) => {
                    &&& step == StartStep::<R>::Failed {
                        destroy: Some(raw),
                        reclaim_owner: false,
                        error,
                    }
                    &&& *final(self) == *old(self)
                },
            },
    {
        match result {
            Ok(_) => {
                self.install(raw);
                StartStep::Submit(raw)
            },
            Err(error) => StartStep::Failed { destroy: Some(raw), reclaim_owner: false, error },
        }
    }

    /// Continues after the initial submission.
    ///
    /// A failed submission cannot have run any callback, so descriptor and
    /// owner are both reclaimed.
    pub fn submitted(&mut self, result: Result<(), NativeError>) -> (step: StartStep<R>)
        requires
            old(self).wf(),
        ensures
            final(self).wf(),
            match result {
                Ok(_) => {
                    &&& step is Started
                    &&& *final(self) == *old(self)
                },
                Err(error) => {
                    &&& step == StartStep::<R>::Failed {
                        destroy: old(self).raw,
                        reclaim_owner: true,
                        error,
                    }
                    &&& *final(self) == (DriverGate::<R> {
                        raw: None,
                        phase: DriverPark::Destroyed,
                        notified: old(self).notified,
                    })
                },
            },
    {
        match result {
            Ok(_) => StartStep::Started,
            Err(error) => {
                let destroy = self.rollback();
                StartStep::Failed { destroy, reclaim_owner: true, error }
            },
        }
    }
}

} // verus!
