//! The recovery coordinator: what has to happen when a device is lost, and
//! the per-frame protocol that ties the health probe, the lifecycle state
//! machine and device recreation together.

use vstd::prelude::*;
use crate::device::{check_health, health_view, recreate, DeviceExt};
use crate::error::{BladeError, BladeErrorView};
use crate::lifecycle::{
    Decision, DeviceStateManager, Lifecycle, LifecycleEvent, LifecycleEventView,
};
use crate::wait::{WaitOutcome, WaitOutcomeView};

verus! {

/// The host application, as the coordinator sees it: the provider of state
/// snapshots, their persistence, and user notification.
///
/// No method promises anything about its result, and the coordinator never
/// looks inside a snapshot.
pub trait RecoveryHost {
    /// Enough application state to resume after a destructive recreation.
    type Snapshot;

    /// Captures the current application state.
    fn capture_snapshot(&mut self) -> Self::Snapshot;

    /// Persists a snapshot at `path`. Returns whether it was written.
    fn save_snapshot(&mut self, snapshot: &Self::Snapshot, path: &str) -> bool;

    /// Asks for `message` to be shown to the user.
    fn notify_user(&mut self, message: &str);
}

/// The work that one device loss asks of the host: where to save the
/// snapshot and what to tell the user.
#[derive(Debug, Clone, PartialEq, Eq)]
pub struct RecoveryPlan {
    /// Where the state snapshot has to be written.
    pub save_path: String,
    /// The notification for the user.
    pub message: String,
}

/// Mathematical model of a [`RecoveryPlan`].
pub struct RecoveryPlanView {
    pub save_path: Seq<char>,
    pub message: Seq<char>,
}

impl View for RecoveryPlan {
    type V = RecoveryPlanView;

    open spec fn view(&self) -> RecoveryPlanView {
        RecoveryPlanView { save_path: self.save_path@, message: self.message@ }
    }
}

/// The view of a plan that may be absent.
pub open spec fn plan_view(plan: Option<RecoveryPlan>) -> Option<RecoveryPlanView> {
    match plan {
        Some(p) => Some(p@),
        None => None,
    }
}

/// Whether the result of a health check reports the device lost.
pub open spec fn health_reports_loss(health: Result<(), BladeErrorView>) -> bool {
    health is Err && health->Err_0 is DeviceLost
}

/// The notification of a device loss whose snapshot goes to `path`.
pub open spec fn loss_message(path: Seq<char>) -> Seq<char> {
    "GPU device loss detected. Your work has been saved to "@ + path
        + ". A restart is required only if the device cannot be recreated."@
}

/// Mathematical model of the coordinator.
pub struct Coordinator {
    /// The lifecycle state machine.
    pub lifecycle: Lifecycle,
    /// Where snapshots are saved.
    pub crash_save_path: Seq<char>,
    /// Whether the current loss has already been handled.
    pub loss_handled: bool,
}

impl Coordinator {
    /// The coordinator of a freshly created device.
    pub open spec fn initial(path: Seq<char>) -> Coordinator {
        Coordinator { lifecycle: Lifecycle::initial(), crash_save_path: path, loss_handled: false }
    }

    /// The lifecycle is consistent, and a loss counts as handled only while
    /// the device awaits or undergoes recreation.
    pub open spec fn wf(self) -> bool {
        &&& self.lifecycle.wf()
        &&& self.loss_handled ==> (self.lifecycle.state is Lost
            || self.lifecycle.state is SuspendedAwaitingResume
            || self.lifecycle.state is Recreating)
    }

    /// The plan that a device loss calls for now: none if this loss has
    /// been handled already.
    pub open spec fn loss_plan(self) -> Option<RecoveryPlanView> {
        if self.loss_handled {
            None
        } else {
            Some(
                RecoveryPlanView {
                    save_path: self.crash_save_path,
                    message: loss_message(self.crash_save_path),
                },
            )
        }
    }

    /// The coordinator after a device loss was taken note of.
    pub open spec fn loss_noted(self) -> Coordinator {
        Coordinator {
            lifecycle: self.lifecycle.with_needs_recreation(true),
            crash_save_path: self.crash_save_path,
            loss_handled: true,
        }
    }

    /// The coordinator after a power notification.
    pub open spec fn power_signal(self, start: bool) -> Coordinator {
        Coordinator {
            lifecycle: self.lifecycle.power_signal(start),
            crash_save_path: self.crash_save_path,
            loss_handled: self.loss_handled,
        }
    }

    /// The coordinator after a health check with the given outcome.
    pub open spec fn health_checked(self, outcome: WaitOutcomeView) -> Coordinator {
        if outcome is DeviceLost {
            self.loss_noted()
        } else {
            self
        }
    }

    /// The plan that a health check with the given outcome calls for.
    pub open spec fn health_plan(self, outcome: WaitOutcomeView) -> Option<RecoveryPlanView> {
        if outcome is DeviceLost {
            self.loss_plan()
        } else {
            None
        }
    }

    /// The coordinator after the start of a recreation.
    pub open spec fn begin_recreation(self) -> Coordinator {
        Coordinator {
            lifecycle: self.lifecycle.begin_recreation(),
            crash_save_path: self.crash_save_path,
            loss_handled: self.loss_handled,
        }
    }

    /// The coordinator after a recreation ended. A success closes the
    /// current loss, so that the next one is handled afresh.
    pub open spec fn recreation_result(self, ok: bool) -> Coordinator {
        Coordinator {
            lifecycle: self.lifecycle.recreation_result(ok),
            crash_save_path: self.crash_save_path,
            loss_handled: self.loss_handled && !ok,
        }
    }

    /// The coordinator after one event.
    pub open spec fn step(self, event: LifecycleEventView) -> Coordinator {
        match event {
            LifecycleEventView::PowerPrepareSleep(start) => self.power_signal(start),
            LifecycleEventView::HealthCheck(outcome) => self.health_checked(outcome),
            LifecycleEventView::RecreationResult(ok) => self.recreation_result(ok),
        }
    }

    /// The plan that one event calls for: only a health check can ask the
    /// host for work.
    pub open spec fn step_plan(self, event: LifecycleEventView) -> Option<RecoveryPlanView> {
        match event {
            LifecycleEventView::HealthCheck(outcome) => self.health_plan(outcome),
            _ => None,
        }
    }
}

/// How one frame of the render loop ended.
#[derive(Debug, Clone, PartialEq, Eq)]
pub enum FrameOutcome {
    /// The frame was rendered.
    Rendered,
    /// The frame was skipped without touching the device.
    Skipped,
    /// The device was found lost after the frame's work was submitted.
    DeviceLost,
    /// The device had to be recreated and could not be: a fatal error.
    RecreationFailed(BladeError),
}

/// The deadline of the wait that ends a frame, in nanoseconds: one second.
pub const FRAME_WAIT_TIMEOUT_NS: u64 = 1_000_000_000;

/// The recovery coordinator of one device.
#[derive(Debug)]
pub struct GPUIDeviceLossHandler {
    state_manager: DeviceStateManager,
    crash_save_path: String,
    loss_handled: bool,
}

impl View for GPUIDeviceLossHandler {
    type V = Coordinator;

    closed spec fn view(&self) -> Coordinator {
        Coordinator {
            lifecycle: self.state_manager@,
            crash_save_path: self.crash_save_path@,
            loss_handled: self.loss_handled,
        }
    }
}

impl GPUIDeviceLossHandler {
    /// The invariant of the type.
    #[verifier::type_invariant]
    pub open spec fn consistent(self) -> bool {
        self@.wf()
    }

    /// A coordinator for a healthy device, which saves snapshots at
    /// `crash_save_path`.
    pub fn new(crash_save_path: String) -> (handler: GPUIDeviceLossHandler)
        ensures
            handler@ == Coordinator::initial(crash_save_path@),
    {
        GPUIDeviceLossHandler {
            state_manager: DeviceStateManager::new(),
            crash_save_path,
            loss_handled: false,
        }
    }

    /// The lifecycle state machine of the device.
    pub fn state_manager(&self) -> (manager: &DeviceStateManager)
        ensures
            manager@ == self@.lifecycle,
            self@.wf(),
    {
        proof {
            use_type_invariant(self);
        }
        &self.state_manager
    }

    /// Where snapshots are saved.
    pub fn crash_save_path(&self) -> (path: &str)
        ensures
            path@ == self@.crash_save_path,
    {
        self.crash_save_path.as_str()
    }

    /// Decides what the render loop may do this frame.
    pub fn may_render(&self) -> (decision: Decision)
        ensures
            decision == self@.lifecycle.decision(),
    {
        self.state_manager.may_render()
    }

    /// Takes in a power notification: `true` before the system sleeps,
    /// `false` after it has resumed.
    pub fn on_power_signal(&mut self, start: bool)
        ensures
            final(self)@ == old(self)@.power_signal(start),
            final(self)@.wf(),
    {
        proof {
            use_type_invariant(&*self);
        }
        self.state_manager.on_power_signal(start);
    }

    /// Takes note of a device loss: marks the device for recreation and
    /// returns the work that the host has to do. The first note of a loss
    /// returns a plan; until a recreation succeeds, further notes of it
    /// return none.
    pub fn note_device_loss(&mut self) -> (plan: Option<RecoveryPlan>)
        ensures
            plan_view(plan) == old(self)@.loss_plan(),
            final(self)@ == old(self)@.loss_noted(),
            final(self)@.wf(),
    {
        proof {
            use_type_invariant(&*self);
        }
        self.state_manager.set_needs_recreation(true);
        if self.loss_handled {
            None
        } else {
            self.loss_handled = true;
            let save_path = self.crash_save_path.clone();
            let message = String::from_str(
                "GPU device loss detected. Your work has been saved to ",
            ).concat(self.crash_save_path.as_str()).concat(
                ". A restart is required only if the device cannot be recreated.",
            );
            Some(RecoveryPlan { save_path, message })
        }
    }

    /// Takes in the outcome of a health check. A lost device is taken note
    /// of; every other outcome changes nothing and asks for no work.
    pub fn on_health_checked(&mut self, outcome: &WaitOutcome) -> (plan: Option<RecoveryPlan>)
        ensures
            plan_view(plan) == old(self)@.health_plan(outcome@),
            final(self)@ == old(self)@.health_checked(outcome@),
            final(self)@.wf(),
    {
        match outcome {
            WaitOutcome::DeviceLost => self.note_device_loss(),
            _ => {
                proof {
                    use_type_invariant(&*self);
                }
                None
            },
        }
    }

    /// Marks the start of a recreation. Returns whether one was admitted;
    /// where it was not, nothing changes.
    pub fn begin_recreation(&mut self) -> (admitted: bool)
        ensures
            admitted == (old(self)@.lifecycle.decision() is RequireRecreationThenRender),
            final(self)@ == old(self)@.begin_recreation(),
            final(self)@.wf(),
    {
        proof {
            use_type_invariant(&*self);
        }
        self.state_manager.begin_recreation()
    }

    /// Takes in the end of a recreation; `ok` tells whether it succeeded.
    pub fn on_recreation_result(&mut self, ok: bool)
        ensures
            final(self)@ == old(self)@.recreation_result(ok),
            final(self)@.wf(),
    {
        proof {
            use_type_invariant(&*self);
        }
        if ok {
            self.loss_handled = false;
        }
        self.state_manager.on_recreation_result(ok);
    }

    /// Applies one event and returns the work that it asks of the host.
    pub fn on_event(&mut self, event: &LifecycleEvent) -> (plan: Option<RecoveryPlan>)
        ensures
            plan_view(plan) == old(self)@.step_plan(event@),
            final(self)@ == old(self)@.step(event@),
            final(self)@.wf(),
    {
        match event {
            LifecycleEvent::PowerPrepareSleep(start) => {
                self.on_power_signal(*start);
                None
            },
            LifecycleEvent::HealthCheck(outcome) => self.on_health_checked(outcome),
            LifecycleEvent::RecreationResult(ok) => {
                self.on_recreation_result(*ok);
                None
            },
        }
    }

    /// Handles a device loss: notes it, and on the first note of this loss
    /// has the host capture a snapshot, persist it and notify the user.
    /// A snapshot that cannot be persisted does not stop the sequence.
    /// Returns whether the host was asked to act.
    pub fn handle_device_loss<H: RecoveryHost>(&mut self, host: &mut H) -> (acted: bool)
        ensures
            acted == !old(self)@.loss_handled,
            final(self)@ == old(self)@.loss_noted(),
            final(self)@.wf(),
    {
        match self.note_device_loss() {
            Some(plan) => {
                let snapshot = host.capture_snapshot();
                let _ = host.save_snapshot(&snapshot, plan.save_path.as_str());
                host.notify_user(plan.message.as_str());
                true
            },
            None => false,
        }
    }

    /// Takes in the result of a health check that was made because the
    /// decision was to render. Returns whether the frame may be rendered:
    /// a lost device has its loss handled and stops the frame; a healthy
    /// device, and one whose check failed for any other reason, lets the
    /// frame proceed and changes nothing.
    pub fn settle_health_check<H: RecoveryHost>(
        &mut self,
        health: Result<(), BladeError>,
        host: &mut H,
    ) -> (healthy: bool)
        ensures
            healthy == !health_reports_loss(health_view(health)),
            final(self)@ == (if health_reports_loss(health_view(health)) {
                old(self)@.loss_noted()
            } else {
                old(self)@
            }),
            final(self)@.wf(),
    {
        match health {
            Err(BladeError::DeviceLost) => {
                self.handle_device_loss(host);
                false
            },
            _ => {
                proof {
                    use_type_invariant(&*self);
                }
                true
            },
        }
    }

    /// Checks the device before a frame. Returns whether the frame may be
    /// rendered.
    ///
    /// The device is probed only where the decision is to render; while it
    /// is suspending, awaits recreation or is being recreated the answer is
    /// `false` and nothing changes. Where the probe finds the device lost,
    /// the loss is handled and the answer is `false`; every other outcome
    /// of the probe lets the frame proceed.
    pub fn check_device_health<D: DeviceExt, H: RecoveryHost>(
        &mut self,
        device: &D,
        host: &mut H,
    ) -> (healthy: bool)
        ensures
            !(old(self)@.lifecycle.decision() is Render) ==> !healthy,
            healthy ==> final(self)@ == old(self)@,
            !healthy ==> final(self)@ == (if old(self)@.lifecycle.decision() is Render {
                old(self)@.loss_noted()
            } else {
                old(self)@
            }),
            final(self)@.wf(),
    {
        proof {
            use_type_invariant(&*self);
        }
        match self.state_manager.may_render() {
            Decision::Render => {
                let health = check_health(device);
                self.settle_health_check(health, host)
            },
            _ => false,
        }
    }

    /// Handles the error of a wait during rendering. Returns whether
    /// rendering may continue: a lost device is handled and stops it, a
    /// timeout is normal, and every other error is assumed to be transient.
    pub fn handle_wait_for_error<H: RecoveryHost>(
        &mut self,
        error: BladeError,
        host: &mut H,
    ) -> (go_on: bool)
        ensures
            go_on == !(error@ is DeviceLost),
            final(self)@ == (if error@ is DeviceLost {
                old(self)@.loss_noted()
            } else {
                old(self)@
            }),
            final(self)@.wf(),
    {
        match error {
            BladeError::DeviceLost => {
                self.handle_device_loss(host);
                false
            },
            _ => {
                proof {
                    use_type_invariant(&*self);
                }
                true
            },
        }
    }

    /// Destroys and recreates the device, and records how it went. On
    /// success the device no longer needs recreation; on failure it stays
    /// lost and the error is returned for the host to treat as fatal.
    /// There is no retry.
    pub fn recreate<D: DeviceExt>(&mut self, device: &mut D) -> (r: Result<(), BladeError>)
        ensures
            final(self)@ == old(self)@.recreation_result(r is Ok),
            final(self)@.wf(),
    {
        proof {
            use_type_invariant(&*self);
        }
        self.begin_recreation();
        let r = recreate(device);
        match &r {
            Ok(_) => self.on_recreation_result(true),
            Err(_) => self.on_recreation_result(false),
        }
        r
    }
}

/// Runs one frame of a render loop under the coordinator.
///
/// While the decision is to skip, the device is not touched. Where the
/// device needs recreation, or the probe before the frame finds it lost, it
/// is recreated first, and a failure ends the frame as fatal. Then the frame
/// is rendered and waited for; a wait that reports the device lost has the
/// loss handled, and every other result of the wait counts as rendered.
pub fn example_render_loop<D: DeviceExt, H: RecoveryHost>(
    device: &mut D,
    handler: &mut GPUIDeviceLossHandler,
    host: &mut H,
) -> (outcome: FrameOutcome)
    ensures
        final(handler)@.wf(),
        outcome is Skipped <==> old(handler)@.lifecycle.decision() is SkipFrame,
        outcome is Skipped ==> final(handler)@ == old(handler)@,
        outcome is Rendered ==> final(handler)@ == Coordinator::initial(
            old(handler)@.crash_save_path,
        ),
        outcome is DeviceLost ==> final(handler)@ == Coordinator::initial(
            old(handler)@.crash_save_path,
        ).loss_noted(),
        outcome is RecreationFailed ==> final(handler)@ == (if old(
            handler,
        )@.lifecycle.decision() is Render {
            old(handler)@.loss_noted()
        } else {
            old(handler)@
        }).recreation_result(false),
{
    proof {
        use_type_invariant(&*handler);
    }
    if !handler.check_device_health(&*device, host) {
        match handler.may_render() {
            Decision::RequireRecreationThenRender => {
                match handler.recreate(device) {
                    Ok(_) => {},
                    Err(e) => {
                        return FrameOutcome::RecreationFailed(e);
                    },
                }
            },
            _ => {
                return FrameOutcome::Skipped;
            },
        }
    }
    device.render_frame();
    let waited: Result<bool, BladeError> = match device.create_sync_fence() {
        Ok(fence) => {
            let r = fence.wait_for(&*device, FRAME_WAIT_TIMEOUT_NS);
            device.destroy_sync_fence(fence);
            r
        },
        Err(e) => Err(e),
    };
    match waited {
        Ok(_) => FrameOutcome::Rendered,
        Err(e) => {
            if handler.handle_wait_for_error(e, host) {
                FrameOutcome::Rendered
            } else {
                FrameOutcome::DeviceLost
            }
        },
    }
}

} // verus!
