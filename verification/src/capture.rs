//! Evaluation of source-device capture.
//!
//! At startup the daemon opens every configured device and requests an
//! exclusive kernel grab on each, so that no other consumer sees its
//! events. Capture is all or nothing: the first device that cannot be
//! opened or grabbed aborts the whole startup, and a grab refused because
//! the device is busy is reported distinctly from other grab failures.

use vstd::prelude::*;

verus! {

/// Kernel errno meaning the resource is busy; a grab that fails with it
/// shows another process already holds the device.
pub const ERRNO_BUSY: i32 = 16;

/// What one open-and-grab attempt on a source device came to.
#[derive(Clone, Copy, Debug, PartialEq, Eq, Structural)]
pub enum GrabOutcome {
    /// Open and exclusive grab both succeeded; holds the descriptor.
    Grabbed(i32),
    /// The device could not be opened; holds the errno.
    OpenFailed(i32),
    /// The device opened but the exclusive grab was refused; holds the
    /// errno.
    GrabFailed(i32),
}

/// Why a capture attempt was fatal, in the classes the diagnostics
/// distinguish.
#[derive(Clone, Copy, Debug, PartialEq, Eq, Structural)]
pub enum CaptureFault {
    /// The device path could not be opened at all.
    Unreachable(i32),
    /// Another process already holds the exclusive grab.
    Busy,
    /// The grab failed for a reason other than contention.
    GrabRefused(i32),
}

/// The evaluation of a whole capture attempt: either every device is
/// grabbed, or the first failing device aborts the startup.
#[derive(Debug)]
pub enum CaptureResult {
    /// Every device was grabbed; holds their descriptors in device order.
    AllGrabbed(Vec<i32>),
    /// The startup must abort: the device at `index` failed as `fault`
    /// says, and no later device was touched.
    Fatal { index: usize, fault: CaptureFault },
}

/// Whether an attempt ended with the device grabbed.
pub open spec fn is_grabbed(o: GrabOutcome) -> bool {
    o matches GrabOutcome::Grabbed(_)
}

/// The descriptor of a successful attempt.
pub open spec fn grabbed_fd(o: GrabOutcome) -> i32
    recommends
        is_grabbed(o),
{
    match o {
        GrabOutcome::Grabbed(fd) => fd,
        GrabOutcome::OpenFailed(e) => e,
        GrabOutcome::GrabFailed(e) => e,
    }
}

/// The fault class of a failed attempt: an open failure is a distinct
/// class, and a grab failure splits into busy versus everything else.
pub open spec fn fault_of(o: GrabOutcome) -> CaptureFault
    recommends
        !is_grabbed(o),
{
    match o {
        GrabOutcome::Grabbed(fd) => CaptureFault::GrabRefused(fd),
        GrabOutcome::OpenFailed(e) => CaptureFault::Unreachable(e),
        GrabOutcome::GrabFailed(e) => if e == ERRNO_BUSY {
            CaptureFault::Busy
        } else {
            CaptureFault::GrabRefused(e)
        },
    }
}

/// Evaluates the attempts on the configured device list, in order.
/// Either every device was grabbed and the result carries all their
/// descriptors, or the result is fatal, names the first failing device
/// and classifies its fault; no partial success exists.
pub fn evaluate_capture(outcomes: &Vec<GrabOutcome>) -> (r: CaptureResult)
    ensures
        (r is AllGrabbed) <==> (forall|i: int|
            0 <= i < outcomes@.len() ==> is_grabbed(outcomes@[i])),
        r matches CaptureResult::AllGrabbed(fds) ==> fds@.len() == outcomes@.len() && (forall|
            i: int,
        |
            0 <= i < fds@.len() ==> fds@[i] == grabbed_fd(outcomes@[i])),
        r matches CaptureResult::Fatal { index, fault } ==> {
            &&& index < outcomes@.len()
            &&& !is_grabbed(outcomes@[index as int])
            &&& (forall|i: int| 0 <= i < index ==> is_grabbed(outcomes@[i]))
            &&& fault == fault_of(outcomes@[index as int])
        },
{
    let mut fds: Vec<i32> = Vec::new();
    let mut i: usize = 0;
    while i < outcomes.len()
        invariant
            i <= outcomes@.len(),
            fds@.len() == i,
            forall|j: int| 0 <= j < i ==> is_grabbed(outcomes@[j]),
            forall|j: int| 0 <= j < i ==> fds@[j] == grabbed_fd(outcomes@[j]),
        decreases outcomes@.len() - i,
    {
        match outcomes[i] {
            GrabOutcome::Grabbed(fd) => {
                fds.push(fd);
            },
            GrabOutcome::OpenFailed(e) => {
                return CaptureResult::Fatal { index: i, fault: CaptureFault::Unreachable(e) };
            },
            GrabOutcome::GrabFailed(e) => {
                let fault = if e == ERRNO_BUSY {
                    CaptureFault::Busy
                } else {
                    CaptureFault::GrabRefused(e)
                };
                return CaptureResult::Fatal { index: i, fault };
            },
        }
        i = i + 1;
    }
    CaptureResult::AllGrabbed(fds)
}

} // verus!
