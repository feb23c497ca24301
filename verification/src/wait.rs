//! The wait outcome classifier: raw backend result codes of a
//! synchronization wait, normalized into one small taxonomy.

use vstd::prelude::*;
use crate::error::{BladeError, BladeErrorView};

verus! {

/// Raw code of a wait that returned because the object was signaled.
pub const RAW_SUCCESS: i32 = 0;

/// Raw code of a wait whose deadline elapsed first.
pub const RAW_TIMEOUT: i32 = 2;

/// Raw code reported once the device has been lost or reset.
pub const RAW_DEVICE_LOST: i32 = -4;

/// The normalized result of exactly one synchronization wait.
#[derive(Debug, Clone, PartialEq, Eq)]
pub enum WaitOutcome {
    /// The object was signaled before the deadline.
    Signaled,
    /// The deadline elapsed. Never treated as an error.
    TimedOut,
    /// The backend reported that the device is lost.
    DeviceLost,
    /// Any other backend failure, with a diagnostic.
    BackendError(String),
}

/// Mathematical model of a [`WaitOutcome`].
pub enum WaitOutcomeView {
    Signaled,
    TimedOut,
    DeviceLost,
    BackendError(Seq<char>),
}

impl View for WaitOutcome {
    type V = WaitOutcomeView;

    open spec fn view(&self) -> WaitOutcomeView {
        match self {
            WaitOutcome::Signaled => WaitOutcomeView::Signaled,
            WaitOutcome::TimedOut => WaitOutcomeView::TimedOut,
            WaitOutcome::DeviceLost => WaitOutcomeView::DeviceLost,
            WaitOutcome::BackendError(detail) => WaitOutcomeView::BackendError(detail@),
        }
    }
}

/// The character that writes the decimal digit `d`.
pub open spec fn digit_char(d: nat) -> char {
    if d == 0 {
        '0'
    } else if d == 1 {
        '1'
    } else if d == 2 {
        '2'
    } else if d == 3 {
        '3'
    } else if d == 4 {
        '4'
    } else if d == 5 {
        '5'
    } else if d == 6 {
        '6'
    } else if d == 7 {
        '7'
    } else if d == 8 {
        '8'
    } else {
        '9'
    }
}

/// The decimal numeral of `n`, most significant digit first, without
/// leading zeros.
pub open spec fn decimal_digits(n: nat) -> Seq<char>
    decreases n,
{
    if n < 10 {
        seq![digit_char(n)]
    } else {
        decimal_digits(n / 10).push(digit_char(n % 10))
    }
}

/// The decimal numeral of a signed integer: a minus sign for negative
/// values, then the digits of the magnitude.
pub open spec fn signed_decimal(v: int) -> Seq<char> {
    if v < 0 {
        seq!['-'] + decimal_digits((-v) as nat)
    } else {
        decimal_digits(v as nat)
    }
}

/// The diagnostic attached to a raw code that has no dedicated outcome.
pub open spec fn backend_detail(code: int) -> Seq<char> {
    "Vulkan error: "@ + signed_decimal(code)
}

/// What a raw backend code means.
pub open spec fn classify(code: int) -> WaitOutcomeView {
    if code == RAW_SUCCESS {
        WaitOutcomeView::Signaled
    } else if code == RAW_TIMEOUT {
        WaitOutcomeView::TimedOut
    } else if code == RAW_DEVICE_LOST {
        WaitOutcomeView::DeviceLost
    } else {
        WaitOutcomeView::BackendError(backend_detail(code))
    }
}

/// A wait outcome in the shape of a fallible wait: whether the object was
/// signaled, or the error that prevented an answer.
pub open spec fn outcome_as_result(o: WaitOutcomeView) -> Result<bool, BladeErrorView> {
    match o {
        WaitOutcomeView::Signaled => Ok(true),
        WaitOutcomeView::TimedOut => Ok(false),
        WaitOutcomeView::DeviceLost => Err(BladeErrorView::DeviceLost),
        WaitOutcomeView::BackendError(detail) => Err(BladeErrorView::BackendError(detail)),
    }
}

/// The view of a fallible wait result.
pub open spec fn wait_result_view(r: Result<bool, BladeError>) -> Result<bool, BladeErrorView> {
    match r {
        Ok(signaled) => Ok(signaled),
        Err(e) => Err(e@),
    }
}

fn digit_str(d: u32) -> (s: &'static str)
    requires
        d < 10,
    ensures
        s@ == seq![digit_char(d as nat)],
{
    proof {
        reveal_strlit("0");
        reveal_strlit("1");
        reveal_strlit("2");
        reveal_strlit("3");
        reveal_strlit("4");
        reveal_strlit("5");
        reveal_strlit("6");
        reveal_strlit("7");
        reveal_strlit("8");
        reveal_strlit("9");
    }
    let s: &'static str = if d == 0 {
        "0"
    } else if d == 1 {
        "1"
    } else if d == 2 {
        "2"
    } else if d == 3 {
        "3"
    } else if d == 4 {
        "4"
    } else if d == 5 {
        "5"
    } else if d == 6 {
        "6"
    } else if d == 7 {
        "7"
    } else if d == 8 {
        "8"
    } else {
        "9"
    };
    assert(s@ =~= seq![digit_char(d as nat)]);
    s
}

fn push_decimal(n: u32, out: &mut String)
    ensures
        final(out)@ == old(out)@ + decimal_digits(n as nat),
    decreases n,
{
    if n >= 10 {
        push_decimal(n / 10, out);
    }
    out.append(digit_str(n % 10));
    assert(out@ =~= old(out)@ + decimal_digits(n as nat));
}

/// Writes the diagnostic for a raw code: a fixed prefix and the code in
/// decimal.
pub fn format_backend_detail(code: i32) -> (text: String)
    ensures
        text@ == backend_detail(code as int),
{
    let mut text = String::from_str("Vulkan error: ");
    if code < 0 {
        text.append("-");
        proof {
            reveal_strlit("-");
        }
        let magnitude: u32 = (-(code as i64)) as u32;
        push_decimal(magnitude, &mut text);
    } else {
        push_decimal(code as u32, &mut text);
    }
    assert(text@ =~= backend_detail(code as int));
    text
}

/// Classifies the raw result code of a synchronization wait.
///
/// Success means signaled, an elapsed deadline means timed out, the
/// device-lost code means device lost, and every other code is a backend
/// error that carries the code as its diagnostic. The classifier has no
/// side effects.
pub fn classify_wait_code(code: i32) -> (outcome: WaitOutcome)
    ensures
        outcome@ == classify(code as int),
{
    if code == RAW_SUCCESS {
        WaitOutcome::Signaled
    } else if code == RAW_TIMEOUT {
        WaitOutcome::TimedOut
    } else if code == RAW_DEVICE_LOST {
        WaitOutcome::DeviceLost
    } else {
        WaitOutcome::BackendError(format_backend_detail(code))
    }
}

impl WaitOutcome {
    /// Converts the outcome into the result of a fallible wait: `Ok(true)`
    /// when signaled, `Ok(false)` on timeout, and an error otherwise.
    pub fn into_result(self) -> (r: Result<bool, BladeError>)
        ensures
            wait_result_view(r) == outcome_as_result(self@),
    {
        match self {
            WaitOutcome::Signaled => Ok(true),
            WaitOutcome::TimedOut => Ok(false),
            WaitOutcome::DeviceLost => Err(BladeError::DeviceLost),
            WaitOutcome::BackendError(detail) => Err(BladeError::BackendError(detail)),
        }
    }
}

} // verus!
