use device_recovery::device::{health_of, probe_outcome, wait_result_of_code};
use device_recovery::error::BladeError;
use device_recovery::wait::WaitOutcome;

#[test]
fn message_of_each_variant() {
    assert_eq!(BladeError::DeviceLost.message(), "Device lost");
    assert_eq!(BladeError::Timeout.message(), "Timed out");
    assert_eq!(
        BladeError::InvalidOperation(String::from("fence destroyed")).message(),
        "Invalid operation: fence destroyed"
    );
    assert_eq!(
        BladeError::BackendError(String::from("Vulkan error: -3")).message(),
        "Backend error: Vulkan error: -3"
    );
}

#[test]
fn message_with_empty_detail() {
    assert_eq!(
        BladeError::InvalidOperation(String::new()).message(),
        "Invalid operation: "
    );
    assert_eq!(BladeError::BackendError(String::new()).message(), "Backend error: ");
}

#[test]
fn only_device_lost_is_device_lost() {
    assert!(BladeError::DeviceLost.is_device_lost());
    assert!(!BladeError::Timeout.is_device_lost());
    assert!(!BladeError::InvalidOperation(String::from("x")).is_device_lost());
    assert!(!BladeError::BackendError(String::from("x")).is_device_lost());
}

#[test]
fn wait_result_of_each_kind_of_code() {
    assert_eq!(wait_result_of_code(0), Ok(true));
    assert_eq!(wait_result_of_code(2), Ok(false));
    assert_eq!(wait_result_of_code(-4), Err(BladeError::DeviceLost));
    assert_eq!(
        wait_result_of_code(-2),
        Err(BladeError::BackendError(String::from("Vulkan error: -2")))
    );
}

#[test]
fn probe_outcome_of_a_wait() {
    assert_eq!(probe_outcome(Ok(0)), WaitOutcome::Signaled);
    assert_eq!(probe_outcome(Ok(2)), WaitOutcome::TimedOut);
    assert_eq!(probe_outcome(Ok(-4)), WaitOutcome::DeviceLost);
    assert_eq!(
        probe_outcome(Ok(7)),
        WaitOutcome::BackendError(String::from("Vulkan error: 7"))
    );
}

#[test]
fn failed_creation_counts_as_device_lost() {
    assert_eq!(
        probe_outcome(Err(BladeError::BackendError(String::from("out of memory")))),
        WaitOutcome::DeviceLost
    );
    assert_eq!(probe_outcome(Err(BladeError::Timeout)), WaitOutcome::DeviceLost);
    assert_eq!(
        probe_outcome(Err(BladeError::InvalidOperation(String::from("x")))),
        WaitOutcome::DeviceLost
    );
    assert_eq!(probe_outcome(Err(BladeError::DeviceLost)), WaitOutcome::DeviceLost);
}

#[test]
fn health_fails_only_on_device_lost() {
    assert_eq!(health_of(&WaitOutcome::Signaled), Ok(()));
    assert_eq!(health_of(&WaitOutcome::TimedOut), Ok(()));
    assert_eq!(
        health_of(&WaitOutcome::BackendError(String::from("Vulkan error: 1"))),
        Ok(())
    );
    assert_eq!(health_of(&WaitOutcome::DeviceLost), Err(BladeError::DeviceLost));
}
