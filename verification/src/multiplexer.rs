//! The event multiplexer: the decisions of the single-threaded readiness
//! loop.
//!
//! Each iteration first drains pending job messages, then waits on the
//! source devices with a bounded timeout, and services the ready devices
//! in ascending device-index order. Two control flags, set only from
//! engine-invoked capabilities, end a session: an exit request ends the
//! run, a reload request restarts the engine while the grabbed devices
//! and the virtual device stay untouched.

use crate::event::{decode_event, decoded_event, InputEvent, EVENT_RECORD_SIZE};
use vstd::prelude::*;

verus! {

/// Process exit code of a graceful, engine-requested shutdown.
pub const EXIT_CODE_OK: i32 = 0;

/// Process exit code of any fatal startup or runtime error.
pub const EXIT_CODE_FATAL: i32 = 1;

/// The control flags of one multiplexer session. Both start clear; the
/// engine's native capabilities set them, and the loop head only reads
/// them.
#[derive(Clone, Copy, Debug, PartialEq, Eq, Structural)]
pub struct LoopFlags {
    pub exit_requested: bool,
    pub reload_requested: bool,
}

/// How one multiplexer session ended.
#[derive(Clone, Copy, Debug, PartialEq, Eq, Structural)]
pub enum SessionEnd {
    /// The engine asked for a reload; the session unwinds and a fresh
    /// engine is started over the same devices.
    ReloadRequested,
    /// The engine asked the whole process to exit.
    ExitRequested,
    /// An unrecoverable device or engine error ended the session.
    Failed,
}

impl LoopFlags {
    /// Fresh flags at the start of a session: nothing requested yet.
    pub fn new() -> (r: Self)
        ensures
            !r.exit_requested,
            !r.reload_requested,
    {
        LoopFlags { exit_requested: false, reload_requested: false }
    }

    /// The exit capability: marks the session as ending the run.
    pub fn request_exit(&mut self)
        ensures
            final(self).exit_requested,
            final(self).reload_requested == old(self).reload_requested,
    {
        self.exit_requested = true;
    }

    /// The reload capability: marks the session as restarting the engine.
    pub fn request_reload(&mut self)
        ensures
            final(self).reload_requested,
            final(self).exit_requested == old(self).exit_requested,
    {
        self.reload_requested = true;
    }

    /// The loop-head decision: an exit request ends the session first,
    /// then a reload request; with neither flag set the loop iterates.
    pub fn poll_control(&self) -> (r: Option<SessionEnd>)
        ensures
            r == Some(SessionEnd::ExitRequested) <==> self.exit_requested,
            r == Some(SessionEnd::ReloadRequested) <==> !self.exit_requested
                && self.reload_requested,
            r is None <==> !self.exit_requested && !self.reload_requested,
    {
        if self.exit_requested {
            Some(SessionEnd::ExitRequested)
        } else if self.reload_requested {
            Some(SessionEnd::ReloadRequested)
        } else {
            None
        }
    }
}

/// Bound of the readiness wait in microseconds: long enough to idle,
/// short enough that the control flags and queued job messages are
/// serviced promptly even with no device activity.
pub const POLL_TIMEOUT_MICROS: i64 = 200_000;

/// The largest descriptor of a device list, or zero for an empty list.
pub open spec fn max_fd(devices: Seq<i32>) -> int
    decreases devices.len(),
{
    if devices.len() == 0 {
        0
    } else if devices.last() >= max_fd(devices.drop_last()) {
        devices.last() as int
    } else {
        max_fd(devices.drop_last())
    }
}

/// The descriptor bound handed to the readiness wait: one past the
/// largest device descriptor.
pub fn readiness_bound(devices: &Vec<i32>) -> (r: i32)
    requires
        forall|i: int|
            0 <= i < devices@.len() ==> (0 <= #[trigger] devices@[i] && devices@[i] < i32::MAX),
    ensures
        r == max_fd(devices@) + 1,
{
    let mut bound: i32 = 0;
    let mut i: usize = 0;
    while i < devices.len()
        invariant
            i <= devices@.len(),
            forall|j: int|
                0 <= j < devices@.len() ==> (0 <= #[trigger] devices@[j] && devices@[j]
                    < i32::MAX),
            0 <= bound < i32::MAX,
            bound == max_fd(devices@.take(i as int)),
        decreases devices@.len() - i,
    {
        proof {
            assert(devices@.take(i + 1).drop_last() =~= devices@.take(i as int));
        }
        if devices[i] > bound {
            bound = devices[i];
        }
        i = i + 1;
    }
    proof {
        assert(devices@.take(devices@.len() as int) =~= devices@);
    }
    bound + 1
}

/// How many devices a readiness wakeup reports ready.
pub open spec fn ready_count(ready: Seq<bool>) -> nat
    decreases ready.len(),
{
    if ready.len() == 0 {
        0
    } else {
        ready_count(ready.drop_last()) + if ready.last() {
            1nat
        } else {
            0nat
        }
    }
}

/// Orders one readiness wakeup: the indices of the ready devices, each
/// exactly once, in ascending device-index order. The per-event callback
/// is invoked once per entry of this order, so exactly once per ready
/// device.
pub fn dispatch_order(ready: &Vec<bool>) -> (r: Vec<usize>)
    ensures
        r@.len() == ready_count(ready@),
        forall|i: int, j: int| 0 <= i < j < r@.len() ==> r@[i] < r@[j],
        forall|i: int| 0 <= i < r@.len() ==> r@[i] < ready@.len() && ready@[r@[i] as int],
        forall|d: int| 0 <= d < ready@.len() && ready@[d] ==> r@.contains(d as usize),
{
    let mut r: Vec<usize> = Vec::new();
    let mut d: usize = 0;
    while d < ready.len()
        invariant
            d <= ready@.len(),
            r@.len() == ready_count(ready@.take(d as int)),
            forall|i: int, j: int| 0 <= i < j < r@.len() ==> r@[i] < r@[j],
            forall|i: int| 0 <= i < r@.len() ==> r@[i] < d && ready@[r@[i] as int],
            forall|e: int| 0 <= e < d && ready@[e] ==> r@.contains(e as usize),
        decreases ready@.len() - d,
    {
        proof {
            assert(ready@.take(d + 1).drop_last() =~= ready@.take(d as int));
        }
        let ghost r0 = r@;
        if ready[d] {
            r.push(d);
            proof {
                assert forall|e: int| 0 <= e < d + 1 && ready@[e] implies r@.contains(
                    e as usize,
                ) by {
                    if e == d {
                        assert(r@[r0.len() as int] == d);
                    } else {
                        let i = choose|i: int| 0 <= i < r0.len() && r0[i] == e as usize;
                        assert(r@[i] == e as usize);
                    }
                }
            }
        }
        d = d + 1;
    }
    proof {
        assert(ready@.take(ready@.len() as int) =~= ready@);
    }
    r
}

/// What one read from a ready source device produced, as the unverified
/// shell reports it.
#[derive(Debug)]
pub enum DeviceRead {
    /// The read itself failed; holds the errno.
    Failed(i32),
    /// The read returned these bytes.
    Data(Vec<u8>),
}

/// What the loop does with one device read.
#[derive(Clone, Copy, Debug, PartialEq, Eq, Structural)]
pub enum ReadAction {
    /// A failed read is unrecoverable and ends the session.
    Fatal(i32),
    /// A short read is noise and is silently skipped.
    Skip,
    /// A full record is decoded and dispatched to the event callback.
    Dispatch(InputEvent),
}

/// Classifies one device read: an error is fatal, a short read is
/// skipped without any callback, and a full record dispatches exactly
/// the event it holds.
pub fn classify_read(read: &DeviceRead) -> (r: ReadAction)
    ensures
        read matches DeviceRead::Failed(e) ==> r == ReadAction::Fatal(*e),
        read matches DeviceRead::Data(d) ==> (d@.len() < EVENT_RECORD_SIZE ==> r
            == ReadAction::Skip) && (d@.len() >= EVENT_RECORD_SIZE ==> r == ReadAction::Dispatch(
            decoded_event(d@),
        )),
{
    match read {
        DeviceRead::Failed(e) => ReadAction::Fatal(*e),
        DeviceRead::Data(d) => match decode_event(d) {
            Some(ev) => ReadAction::Dispatch(ev),
            None => ReadAction::Skip,
        },
    }
}

/// What the run does after a session ends.
#[derive(Clone, Copy, Debug, PartialEq, Eq, Structural)]
pub enum RunAction {
    /// Start a fresh engine over the same devices and virtual device.
    Restart,
    /// Tear the virtual device down and exit the process gracefully.
    DestroyAndExit,
    /// Tear the virtual device down and exit reporting the failure.
    DestroyAndFail,
}

/// The run-level state around the sessions: the grabbed source
/// descriptors, stable for the whole process lifetime, and whether the
/// virtual device has been torn down.
#[derive(Debug)]
pub struct EngineRun {
    pub devices: Vec<i32>,
    pub virtual_device_destroyed: bool,
}

impl EngineRun {
    /// A run over freshly grabbed devices; the virtual device is live.
    pub fn new(devices: Vec<i32>) -> (r: Self)
        ensures
            r.devices == devices,
            !r.virtual_device_destroyed,
    {
        EngineRun { devices, virtual_device_destroyed: false }
    }

    /// Decides what follows a finished session. A reload restarts the
    /// engine and touches neither the grabbed devices nor the virtual
    /// device; exit and failure tear the virtual device down. The
    /// precondition and the flag together make a second teardown
    /// impossible: the virtual device is destroyed at most once per run.
    pub fn on_session_end(&mut self, end: SessionEnd) -> (r: RunAction)
        requires
            !old(self).virtual_device_destroyed,
        ensures
            final(self).devices == old(self).devices,
            final(self).virtual_device_destroyed <==> !(r is Restart),
            end == SessionEnd::ReloadRequested <==> r == RunAction::Restart,
            end == SessionEnd::ExitRequested <==> r == RunAction::DestroyAndExit,
            end == SessionEnd::Failed <==> r == RunAction::DestroyAndFail,
    {
        match end {
            SessionEnd::ReloadRequested => RunAction::Restart,
            SessionEnd::ExitRequested => {
                self.virtual_device_destroyed = true;
                RunAction::DestroyAndExit
            },
            SessionEnd::Failed => {
                self.virtual_device_destroyed = true;
                RunAction::DestroyAndFail
            },
        }
    }
}

/// The process exit code after the session that ended the run: zero for
/// the engine-requested exit, one for a failure.
pub fn session_exit_code(end: &SessionEnd) -> (r: i32)
    requires
        *end != SessionEnd::ReloadRequested,
    ensures
        *end == SessionEnd::ExitRequested ==> r == EXIT_CODE_OK,
        *end == SessionEnd::Failed ==> r == EXIT_CODE_FATAL,
{
    match end {
        SessionEnd::ExitRequested => EXIT_CODE_OK,
        _ => EXIT_CODE_FATAL,
    }
}

} // verus!
