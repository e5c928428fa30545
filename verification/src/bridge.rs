//! The bridge between the core and the pluggable logic engine: the
//! fixed set of native capabilities the core exposes, and the entry
//! points the engine must register before the loop starts.
//!
//! Every crossing is a thin synchronous call. None of the exposed
//! capabilities blocks on external work: an execution request returns
//! at once, and the process itself runs under the supervisor.

use vstd::prelude::*;

verus! {

/// A native capability the core exposes to engine code.
#[derive(Clone, Copy, Debug, PartialEq, Eq, Structural)]
pub enum Capability {
    /// Inject one event into the virtual device.
    SendEvent,
    /// Start an external program asynchronously under a caller-chosen
    /// ident.
    Execute,
    /// Write bytes to a running job's standard input.
    WriteStdin,
    /// Request an engine reload at the next loop head.
    Reload,
    /// Request a graceful process exit at the next loop head.
    Exit,
}

/// The global name under which a capability is bound for engine code.
pub fn capability_name(c: &Capability) -> (r: &'static str)
    ensures
        *c == Capability::SendEvent ==> r@ == "__send_event"@,
        *c == Capability::Execute ==> r@ == "__async_execute"@,
        *c == Capability::WriteStdin ==> r@ == "__process_write_stdin"@,
        *c == Capability::Reload ==> r@ == "__reload"@,
        *c == Capability::Exit ==> r@ == "__exit"@,
{
    match c {
        Capability::SendEvent => "__send_event",
        Capability::Execute => "__async_execute",
        Capability::WriteStdin => "__process_write_stdin",
        Capability::Reload => "__reload",
        Capability::Exit => "__exit",
    }
}

/// An entry point the engine must define by the time its source has
/// been executed.
#[derive(Clone, Copy, Debug, PartialEq, Eq, Structural)]
pub enum EntryPoint {
    /// The per-event callback: (device index, type, code, value).
    OnEvent,
    /// The job-completion callback: (ident, message kind, payload).
    ExecCallback,
}

/// The global name under which an entry point must be registered.
pub fn entry_point_name(e: &EntryPoint) -> (r: &'static str)
    ensures
        *e == EntryPoint::OnEvent ==> r@ == "__on_event"@,
        *e == EntryPoint::ExecCallback ==> r@ == "__exec_callback"@,
{
    match e {
        EntryPoint::OnEvent => "__on_event",
        EntryPoint::ExecCallback => "__exec_callback",
    }
}

/// Checks after the engine source ran that both required entry points
/// exist, in lookup order; a missing one is named and is fatal at
/// startup.
pub fn startup_entry_check(has_on_event: bool, has_exec_callback: bool) -> (r: Result<
    (),
    EntryPoint,
>)
    ensures
        r is Ok <==> has_on_event && has_exec_callback,
        r == Err::<(), EntryPoint>(EntryPoint::OnEvent) <==> !has_on_event,
        r == Err::<(), EntryPoint>(EntryPoint::ExecCallback) <==> has_on_event
            && !has_exec_callback,
{
    if !has_on_event {
        Err(EntryPoint::OnEvent)
    } else if !has_exec_callback {
        Err(EntryPoint::ExecCallback)
    } else {
        Ok(())
    }
}

} // verus!
