//! The device lifecycle state machine: the current lifecycle state, the two
//! liveness flags, the transition function over power, health and
//! recreation events, and the per-frame rendering decision.

use vstd::prelude::*;
use crate::wait::{WaitOutcome, WaitOutcomeView};

verus! {

/// Where the device stands in its life.
#[derive(Debug, Clone, Copy, PartialEq, Eq, Structural)]
pub enum LifecycleState {
    /// The device is believed usable. The initial state.
    Healthy,
    /// The system announced that it is about to sleep.
    Suspending,
    /// The system woke up again; the device has to be recreated.
    SuspendedAwaitingResume,
    /// The device was lost, or a recreation failed.
    Lost,
    /// A recreation is in flight.
    Recreating,
}

/// What the render loop may do this frame.
#[derive(Debug, Clone, Copy, PartialEq, Eq, Structural)]
pub enum Decision {
    /// Render normally.
    Render,
    /// Do not touch the device this frame.
    SkipFrame,
    /// Destroy and recreate the device first, then render.
    RequireRecreationThenRender,
}

/// The two liveness flags, as one snapshot.
#[derive(Debug, Clone, Copy, PartialEq, Eq, Structural)]
pub struct LivenessFlags {
    /// A suspend was announced and no resume has followed yet.
    pub is_suspending: bool,
    /// The device has to be recreated before it is used again.
    pub needs_recreation: bool,
}

/// An input of the state machine.
#[derive(Debug, Clone, PartialEq, Eq)]
pub enum LifecycleEvent {
    /// The system prepares for sleep (`true`) or has resumed (`false`).
    PowerPrepareSleep(bool),
    /// A health probe or a wait during rendering finished with this outcome.
    HealthCheck(WaitOutcome),
    /// A recreation finished; `true` on success.
    RecreationResult(bool),
}

/// Mathematical model of a [`LifecycleEvent`].
pub enum LifecycleEventView {
    PowerPrepareSleep(bool),
    HealthCheck(WaitOutcomeView),
    RecreationResult(bool),
}

impl View for LifecycleEvent {
    type V = LifecycleEventView;

    open spec fn view(&self) -> LifecycleEventView {
        match self {
            LifecycleEvent::PowerPrepareSleep(start) => LifecycleEventView::PowerPrepareSleep(
                *start,
            ),
            LifecycleEvent::HealthCheck(outcome) => LifecycleEventView::HealthCheck(outcome@),
            LifecycleEvent::RecreationResult(ok) => LifecycleEventView::RecreationResult(*ok),
        }
    }
}

/// Mathematical model of the state machine: the lifecycle state and both
/// flags.
pub struct Lifecycle {
    pub state: LifecycleState,
    pub is_suspending: bool,
    pub needs_recreation: bool,
}

impl Lifecycle {
    /// The machine of a freshly created device.
    pub open spec fn initial() -> Lifecycle {
        Lifecycle {
            state: LifecycleState::Healthy,
            is_suspending: false,
            needs_recreation: false,
        }
    }

    /// How the flags are tied to the state.
    ///
    /// A healthy device has no flag set; a suspending one is suspending and
    /// needs no recreation yet; a lost or resumed device needs recreation.
    /// While a recreation is in flight the flags only latch the power
    /// signals that arrive, so nothing is demanded of them.
    pub open spec fn wf(self) -> bool {
        match self.state {
            LifecycleState::Healthy => !self.is_suspending && !self.needs_recreation,
            LifecycleState::Suspending => self.is_suspending && !self.needs_recreation,
            LifecycleState::SuspendedAwaitingResume => self.needs_recreation,
            LifecycleState::Lost => self.needs_recreation,
            LifecycleState::Recreating => true,
        }
    }

    /// The per-frame decision. The suspend flag is consulted first, then
    /// the need for recreation; rendering is allowed only when healthy.
    pub open spec fn decision(self) -> Decision {
        if self.is_suspending || self.state is Recreating {
            Decision::SkipFrame
        } else if self.needs_recreation {
            Decision::RequireRecreationThenRender
        } else if self.state is Healthy {
            Decision::Render
        } else {
            Decision::SkipFrame
        }
    }

    /// The state a device settles in once nothing asks for its recreation.
    pub open spec fn resting_state(is_suspending: bool) -> LifecycleState {
        if is_suspending {
            LifecycleState::Suspending
        } else {
            LifecycleState::Healthy
        }
    }

    /// A power notification. A suspend announcement raises the suspend flag
    /// and takes a healthy device to `Suspending`. A resume lowers the flag,
    /// demands recreation, and takes a healthy or suspending device to
    /// `SuspendedAwaitingResume`. A lost device stays lost, and a
    /// recreation in flight is not interrupted: the flags latch the signal.
    pub open spec fn power_signal(self, start: bool) -> Lifecycle {
        if start {
            Lifecycle {
                state: if self.state is Healthy {
                    LifecycleState::Suspending
                } else {
                    self.state
                },
                is_suspending: true,
                needs_recreation: self.needs_recreation,
            }
        } else {
            Lifecycle {
                state: if self.state is Healthy || self.state is Suspending {
                    LifecycleState::SuspendedAwaitingResume
                } else {
                    self.state
                },
                is_suspending: false,
                needs_recreation: true,
            }
        }
    }

    /// Writing the recreation flag. Raising it on a healthy or suspending
    /// device declares the device lost; lowering it on a lost or resumed
    /// device declares it usable again.
    pub open spec fn with_needs_recreation(self, value: bool) -> Lifecycle {
        if value {
            Lifecycle {
                state: if self.state is Healthy || self.state is Suspending {
                    LifecycleState::Lost
                } else {
                    self.state
                },
                is_suspending: self.is_suspending,
                needs_recreation: true,
            }
        } else {
            Lifecycle {
                state: if self.state is Lost || self.state is SuspendedAwaitingResume {
                    Self::resting_state(self.is_suspending)
                } else {
                    self.state
                },
                is_suspending: self.is_suspending,
                needs_recreation: false,
            }
        }
    }

    /// The outcome of a health check. Only a lost device changes anything:
    /// it raises the recreation flag. Signaled and timed-out waits are
    /// normal, and a backend error is assumed to be transient.
    pub open spec fn health_checked(self, outcome: WaitOutcomeView) -> Lifecycle {
        if outcome is DeviceLost {
            self.with_needs_recreation(true)
        } else {
            self
        }
    }

    /// The start of a recreation, which is admitted exactly when the
    /// decision asks for one. The recreation flag is lowered so that a
    /// resume arriving meanwhile can be told apart.
    pub open spec fn begin_recreation(self) -> Lifecycle {
        if self.decision() is RequireRecreationThenRender {
            Lifecycle {
                state: LifecycleState::Recreating,
                is_suspending: self.is_suspending,
                needs_recreation: false,
            }
        } else {
            self
        }
    }

    /// The end of a recreation.
    ///
    /// A failure leaves the device lost and in need of recreation. A
    /// success clears the need for a lost or resumed device. A recreation
    /// that was in flight settles by the latched signals: a resume that
    /// arrived meanwhile demands another recreation, a suspend that arrived
    /// meanwhile leaves the device suspending.
    pub open spec fn recreation_result(self, ok: bool) -> Lifecycle {
        if !ok {
            Lifecycle {
                state: LifecycleState::Lost,
                is_suspending: self.is_suspending,
                needs_recreation: true,
            }
        } else if self.state is Recreating {
            Lifecycle {
                state: if self.needs_recreation {
                    LifecycleState::SuspendedAwaitingResume
                } else {
                    Self::resting_state(self.is_suspending)
                },
                is_suspending: self.is_suspending,
                needs_recreation: self.needs_recreation,
            }
        } else {
            self.with_needs_recreation(false)
        }
    }

    /// The transition function: every state and every event have exactly
    /// one successor.
    pub open spec fn next(self, event: LifecycleEventView) -> Lifecycle {
        match event {
            LifecycleEventView::PowerPrepareSleep(start) => self.power_signal(start),
            LifecycleEventView::HealthCheck(outcome) => self.health_checked(outcome),
            LifecycleEventView::RecreationResult(ok) => self.recreation_result(ok),
        }
    }
}

/// The lifecycle state machine of one device.
///
/// The fields are private: the state and the flags change only through the
/// transitions below, which keep them consistent.
#[derive(Debug)]
pub struct DeviceStateManager {
    state: LifecycleState,
    is_suspending: bool,
    needs_recreation: bool,
}

impl View for DeviceStateManager {
    type V = Lifecycle;

    closed spec fn view(&self) -> Lifecycle {
        Lifecycle {
            state: self.state,
            is_suspending: self.is_suspending,
            needs_recreation: self.needs_recreation,
        }
    }
}

impl DeviceStateManager {
    /// The invariant of the type: the flags are consistent with the state.
    #[verifier::type_invariant]
    pub open spec fn consistent(self) -> bool {
        self@.wf()
    }

    /// A manager for a healthy device with no flag set.
    pub fn new() -> (manager: DeviceStateManager)
        ensures
            manager@ == Lifecycle::initial(),
    {
        DeviceStateManager {
            state: LifecycleState::Healthy,
            is_suspending: false,
            needs_recreation: false,
        }
    }

    /// The current lifecycle state.
    pub fn state(&self) -> (state: LifecycleState)
        ensures
            state == self@.state,
            self@.wf(),
    {
        proof {
            use_type_invariant(self);
        }
        self.state
    }

    /// Whether a suspend was announced and not yet followed by a resume.
    pub fn is_suspending(&self) -> (flag: bool)
        ensures
            flag == self@.is_suspending,
    {
        self.is_suspending
    }

    /// Whether the device has to be recreated before it is used again.
    pub fn needs_recreation(&self) -> (flag: bool)
        ensures
            flag == self@.needs_recreation,
    {
        self.needs_recreation
    }

    /// Both flags in one snapshot.
    pub fn flags(&self) -> (flags: LivenessFlags)
        ensures
            flags.is_suspending == self@.is_suspending,
            flags.needs_recreation == self@.needs_recreation,
    {
        LivenessFlags {
            is_suspending: self.is_suspending,
            needs_recreation: self.needs_recreation,
        }
    }

    /// Writes the recreation flag and moves the state along with it.
    pub fn set_needs_recreation(&mut self, value: bool)
        ensures
            final(self)@ == old(self)@.with_needs_recreation(value),
            final(self)@.wf(),
        no_unwind
    {
        proof {
            use_type_invariant(&*self);
        }
        let state: LifecycleState = if value {
            match self.state {
                LifecycleState::Healthy | LifecycleState::Suspending => LifecycleState::Lost,
                other => other,
            }
        } else {
            match self.state {
                LifecycleState::Lost | LifecycleState::SuspendedAwaitingResume => {
                    if self.is_suspending {
                        LifecycleState::Suspending
                    } else {
                        LifecycleState::Healthy
                    }
                },
                other => other,
            }
        };
        *self = DeviceStateManager {
            state,
            is_suspending: self.is_suspending,
            needs_recreation: value,
        };
    }

    /// Takes in a power notification: `true` before the system sleeps,
    /// `false` after it has resumed.
    pub fn on_power_signal(&mut self, start: bool)
        ensures
            final(self)@ == old(self)@.power_signal(start),
            final(self)@.wf(),
        no_unwind
    {
        proof {
            use_type_invariant(&*self);
        }
        if start {
            let state: LifecycleState = match self.state {
                LifecycleState::Healthy => LifecycleState::Suspending,
                other => other,
            };
            *self = DeviceStateManager {
                state,
                is_suspending: true,
                needs_recreation: self.needs_recreation,
            };
        } else {
            let state: LifecycleState = match self.state {
                LifecycleState::Healthy | LifecycleState::Suspending => {
                    LifecycleState::SuspendedAwaitingResume
                },
                other => other,
            };
            *self = DeviceStateManager { state, is_suspending: false, needs_recreation: true };
        }
    }

    /// Takes in the outcome of a health check.
    pub fn on_health_checked(&mut self, outcome: &WaitOutcome)
        ensures
            final(self)@ == old(self)@.health_checked(outcome@),
            final(self)@.wf(),
        no_unwind
    {
        match outcome {
            WaitOutcome::DeviceLost => {
                self.set_needs_recreation(true);
            },
            _ => {
                proof {
                    use_type_invariant(&*self);
                }
            },
        }
    }

    /// Marks the start of a recreation. Returns whether one was admitted;
    /// where it was not, nothing changes.
    pub fn begin_recreation(&mut self) -> (admitted: bool)
        ensures
            admitted == (old(self)@.decision() is RequireRecreationThenRender),
            final(self)@ == old(self)@.begin_recreation(),
            final(self)@.wf(),
        no_unwind
    {
        proof {
            use_type_invariant(&*self);
        }
        match self.may_render() {
            Decision::RequireRecreationThenRender => {
                *self = DeviceStateManager {
                    state: LifecycleState::Recreating,
                    is_suspending: self.is_suspending,
                    needs_recreation: false,
                };
                true
            },
            _ => false,
        }
    }

    /// Takes in the end of a recreation; `ok` tells whether it succeeded.
    pub fn on_recreation_result(&mut self, ok: bool)
        ensures
            final(self)@ == old(self)@.recreation_result(ok),
            final(self)@.wf(),
        no_unwind
    {
        proof {
            use_type_invariant(&*self);
        }
        if !ok {
            *self = DeviceStateManager {
                state: LifecycleState::Lost,
                is_suspending: self.is_suspending,
                needs_recreation: true,
            };
        } else {
            match self.state {
                LifecycleState::Recreating => {
                    let state: LifecycleState = if self.needs_recreation {
                        LifecycleState::SuspendedAwaitingResume
                    } else if self.is_suspending {
                        LifecycleState::Suspending
                    } else {
                        LifecycleState::Healthy
                    };
                    *self = DeviceStateManager {
                        state,
                        is_suspending: self.is_suspending,
                        needs_recreation: self.needs_recreation,
                    };
                },
                _ => {
                    self.set_needs_recreation(false);
                },
            }
        }
    }

    /// Applies one event through the transition function.
    pub fn on_event(&mut self, event: &LifecycleEvent)
        ensures
            final(self)@ == old(self)@.next(event@),
            final(self)@.wf(),
        no_unwind
    {
        match event {
            LifecycleEvent::PowerPrepareSleep(start) => self.on_power_signal(*start),
            LifecycleEvent::HealthCheck(outcome) => self.on_health_checked(outcome),
            LifecycleEvent::RecreationResult(ok) => self.on_recreation_result(*ok),
        }
    }

    /// Decides what the render loop may do this frame.
    pub fn may_render(&self) -> (decision: Decision)
        ensures
            decision == self@.decision(),
        no_unwind
    {
        if self.is_suspending {
            Decision::SkipFrame
        } else {
            match self.state {
                LifecycleState::Recreating => Decision::SkipFrame,
                LifecycleState::Healthy => {
                    if self.needs_recreation {
                        Decision::RequireRecreationThenRender
                    } else {
                        Decision::Render
                    }
                },
                _ => {
                    if self.needs_recreation {
                        Decision::RequireRecreationThenRender
                    } else {
                        Decision::SkipFrame
                    }
                },
            }
        }
    }
}

} // verus!
