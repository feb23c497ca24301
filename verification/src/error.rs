//! The error taxonomy shared by the wait classifier, the health probe and
//! device recreation.

use vstd::prelude::*;

verus! {

/// Failure of a device operation.
#[derive(Debug, Clone, PartialEq, Eq)]
pub enum BladeError {
    /// The device is permanently unusable until it is destroyed and recreated.
    DeviceLost,
    /// A wait reached its deadline. This is an expected outcome, not a fault.
    Timeout,
    /// The caller misused the interface, e.g. waited on a destroyed object.
    InvalidOperation(String),
    /// An ambiguous backend fault that is not assumed to be fatal.
    BackendError(String),
}

/// Mathematical model of a [`BladeError`]: the variant, with any detail text
/// as a sequence of characters.
pub enum BladeErrorView {
    DeviceLost,
    Timeout,
    InvalidOperation(Seq<char>),
    BackendError(Seq<char>),
}

impl View for BladeError {
    type V = BladeErrorView;

    open spec fn view(&self) -> BladeErrorView {
        match self {
            BladeError::DeviceLost => BladeErrorView::DeviceLost,
            BladeError::Timeout => BladeErrorView::Timeout,
            BladeError::InvalidOperation(detail) => BladeErrorView::InvalidOperation(detail@),
            BladeError::BackendError(detail) => BladeErrorView::BackendError(detail@),
        }
    }
}

/// The human-readable text of an error.
pub open spec fn error_text(e: BladeErrorView) -> Seq<char> {
    match e {
        BladeErrorView::DeviceLost => "Device lost"@,
        BladeErrorView::Timeout => "Timed out"@,
        BladeErrorView::InvalidOperation(detail) => "Invalid operation: "@ + detail,
        BladeErrorView::BackendError(detail) => "Backend error: "@ + detail,
    }
}

impl BladeError {
    /// Whether this error reports a lost device.
    pub fn is_device_lost(&self) -> (lost: bool)
        ensures
            lost == (self@ is DeviceLost),
    {
        match self {
            BladeError::DeviceLost => true,
            _ => false,
        }
    }

    /// Renders the error as text: a fixed phrase per variant, followed by the
    /// detail where the variant carries one.
    pub fn message(&self) -> (text: String)
        ensures
            text@ == error_text(self@),
    {
        match self {
            BladeError::DeviceLost => String::from_str("Device lost"),
            BladeError::Timeout => String::from_str("Timed out"),
            BladeError::InvalidOperation(detail) => {
                String::from_str("Invalid operation: ").concat(detail.as_str())
            },
            BladeError::BackendError(detail) => {
                String::from_str("Backend error: ").concat(detail.as_str())
            },
        }
    }
}

} // verus!
