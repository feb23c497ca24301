//! The device boundary and the health probe.
//!
//! The core owns no backend code. What it needs from a live device is the
//! small interface [`DeviceExt`]; nothing is assumed of how a device answers,
//! so every function here is verified for every possible answer.

use vstd::prelude::*;
use crate::error::{BladeError, BladeErrorView};
use crate::wait::{
    classify, classify_wait_code, outcome_as_result, wait_result_view, WaitOutcome,
    WaitOutcomeView,
};

verus! {

/// The deadline of a health probe, in nanoseconds: a probe never blocks.
pub const PROBE_TIMEOUT_NS: u64 = 0;

/// A synchronization object of a device, named by the raw handles of the
/// device and of the object itself.
#[derive(Debug, Clone, Copy, PartialEq, Eq, Structural)]
pub struct SyncFence {
    /// Handle of the device that owns the object.
    pub device: u64,
    /// Handle of the object.
    pub fence: u64,
}

/// What the recovery core asks of a device.
///
/// No method promises anything about its result: a device may be dead.
pub trait DeviceExt {
    /// Creates a minimal synchronization object.
    fn create_sync_fence(&self) -> Result<SyncFence, BladeError>;

    /// Waits on `fence` for at most `timeout_ns` nanoseconds and returns the
    /// raw result code of the backend.
    fn wait_fence(&self, fence: &SyncFence, timeout_ns: u64) -> i32;

    /// Releases a synchronization object.
    fn destroy_sync_fence(&self, fence: SyncFence);

    /// Waits until the device has finished all submitted work.
    fn wait_idle(&mut self) -> Result<(), BladeError>;

    /// Tears the device down and constructs a replacement with the same
    /// configuration.
    fn rebuild(&mut self) -> Result<(), BladeError>;

    /// Submits the rendering work of one frame.
    fn render_frame(&mut self);
}

/// The result of a fallible wait that ended with the raw code `code`.
pub open spec fn wait_result(code: int) -> Result<bool, BladeErrorView> {
    outcome_as_result(classify(code))
}

/// The outcome of a probe, from what creating the object and waiting on it
/// gave: the raw code of the wait, or the error of the creation. A failed
/// creation counts as a lost device, whatever the error: against a dead
/// device it is itself evidence of loss.
pub open spec fn probe_result(wait: Result<i32, BladeErrorView>) -> WaitOutcomeView {
    match wait {
        Ok(code) => classify(code as int),
        Err(_) => WaitOutcomeView::DeviceLost,
    }
}

/// The view of what creating a probe object and waiting on it gave.
pub open spec fn raw_wait_view(wait: Result<i32, BladeError>) -> Result<i32, BladeErrorView> {
    match wait {
        Ok(code) => Ok(code),
        Err(e) => Err(e@),
    }
}

/// The health of a device after a probe: only a lost device fails it.
pub open spec fn health_result(outcome: WaitOutcomeView) -> Result<(), BladeErrorView> {
    if outcome is DeviceLost {
        Err(BladeErrorView::DeviceLost)
    } else {
        Ok(())
    }
}

/// The view of a health result.
pub open spec fn health_view(r: Result<(), BladeError>) -> Result<(), BladeErrorView> {
    match r {
        Ok(_) => Ok(()),
        Err(e) => Err(e@),
    }
}

/// Interprets the raw code of a wait as the result of a fallible wait.
pub fn wait_result_of_code(code: i32) -> (r: Result<bool, BladeError>)
    ensures
        wait_result_view(r) == wait_result(code as int),
{
    classify_wait_code(code).into_result()
}

/// Classifies what a probe observed.
pub fn probe_outcome(wait: Result<i32, BladeError>) -> (outcome: WaitOutcome)
    ensures
        outcome@ == probe_result(raw_wait_view(wait)),
{
    match wait {
        Ok(code) => classify_wait_code(code),
        Err(_) => WaitOutcome::DeviceLost,
    }
}

/// Judges the health of a device by the outcome of a probe: an error
/// exactly when the device is lost. Timeouts are normal and backend errors
/// are assumed to be transient.
pub fn health_of(outcome: &WaitOutcome) -> (r: Result<(), BladeError>)
    ensures
        health_view(r) == health_result(outcome@),
{
    match outcome {
        WaitOutcome::DeviceLost => Err(BladeError::DeviceLost),
        _ => Ok(()),
    }
}

impl SyncFence {
    /// Waits on this object through its device and classifies the raw code.
    ///
    /// Whatever the device answers, the result is the interpretation of
    /// some raw code: `Ok(true)` when signaled, `Ok(false)` on timeout, a
    /// lost device, or a backend error with the code as diagnostic.
    pub fn wait_for<D: DeviceExt>(&self, device: &D, timeout_ns: u64) -> (r: Result<
        bool,
        BladeError,
    >)
        ensures
            exists|code: i32| wait_result_view(r) == #[trigger] wait_result(code as int),
    {
        let code: i32 = device.wait_fence(self, timeout_ns);
        let r = wait_result_of_code(code);
        assert(wait_result_view(r) == wait_result(code as int));
        r
    }
}

/// Probes the liveness of a device: creates a minimal synchronization
/// object, waits on it without blocking, releases it, and classifies what
/// came back.
pub fn probe<D: DeviceExt>(device: &D) -> (outcome: WaitOutcome)
    ensures
        exists|wait: Result<i32, BladeErrorView>| outcome@ == #[trigger] probe_result(wait),
{
    let wait: Result<i32, BladeError> = match device.create_sync_fence() {
        Ok(fence) => {
            let code: i32 = device.wait_fence(&fence, PROBE_TIMEOUT_NS);
            device.destroy_sync_fence(fence);
            Ok(code)
        },
        Err(e) => Err(e),
    };
    let ghost observed = raw_wait_view(wait);
    let outcome = probe_outcome(wait);
    assert(outcome@ == probe_result(observed));
    outcome
}

/// Checks whether a device is healthy. Fails exactly when the probe finds
/// the device lost, and then with `DeviceLost`.
pub fn check_health<D: DeviceExt>(device: &D) -> (r: Result<(), BladeError>)
    ensures
        r is Err ==> r->Err_0@ is DeviceLost,
{
    let outcome = probe(device);
    health_of(&outcome)
}

/// Prepares a device for teardown: waits for it to go idle. A failed wait
/// is tolerated, since the device may already be unusable.
pub fn destroy<D: DeviceExt>(device: &mut D) {
    let _ = device.wait_idle();
}

/// The result of a recreation, from what waiting for idle and constructing
/// the replacement gave: that of the construction. A failed idle wait is
/// tolerated, since the device may already be unusable.
pub fn recreation_outcome(
    idle: Result<(), BladeError>,
    rebuilt: Result<(), BladeError>,
) -> (r: Result<(), BladeError>)
    ensures
        health_view(r) == health_view(rebuilt),
{
    let _ = idle;
    rebuilt
}

/// Destroys a device and constructs its replacement: waits for the device
/// to go idle, has the replacement constructed whatever the wait gave, and
/// returns the result of the construction.
pub fn recreate<D: DeviceExt>(device: &mut D) -> Result<(), BladeError> {
    let idle = device.wait_idle();
    let rebuilt = device.rebuild();
    recreation_outcome(idle, rebuilt)
}

} // verus!
