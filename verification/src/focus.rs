//! Focus resolver: which process owns the input focus.

use vstd::prelude::*;

verus! {

/// Identifier of a process, as the operating system hands it out.
pub type ProcessId = i32;

/// The process whose selection is read: the frontmost application when there
/// is one, otherwise the calling process itself.
pub open spec fn focus_owner(frontmost: Option<ProcessId>, current: ProcessId) -> ProcessId {
    match frontmost {
        Some(pid) => pid,
        None => current,
    }
}

/// Resolves the process that owns the input focus. There is no error path:
/// some identifier always comes back.
pub fn resolve_focus(frontmost: Option<ProcessId>, current: ProcessId) -> (pid: ProcessId)
    ensures
        pid == focus_owner(frontmost, current),
{
    match frontmost {
        Some(pid) => pid,
        None => current,
    }
}

} // verus!
