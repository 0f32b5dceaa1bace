//! Fatal-failure handling: the last-resort path.
//!
//! The core's part is to decide that a failure is fatal, record it, and say
//! exactly what the reset collaborator must be asked for.  Emitting the
//! diagnostic line and performing the reset are the collaborators' work; if
//! the reset request itself cannot complete, the backend parks the hart
//! rather than resume it.

use vstd::prelude::*;
use crate::hart::Hart;
use crate::dispatch::TrapRecord;

verus! {

/// What the reset collaborator is asked to do.
#[derive(Clone, Copy, PartialEq, Eq, Structural, Debug)]
pub enum ResetType {
    /// Power the platform off.
    Shutdown,
    /// Full reboot from power-on state.
    ColdReboot,
    /// Reboot without cycling power.
    WarmReboot,
}

/// Why the reset collaborator is asked.
#[derive(Clone, Copy, PartialEq, Eq, Structural, Debug)]
pub enum ResetReason {
    /// An orderly, requested shutdown or reboot.
    Requested,
    /// The firmware decided the system has failed.
    SystemFailure,
}

/// Everything the diagnostic and reset collaborators need about one fatal
/// failure: the failing hart, the trap that could not be handled, and the
/// reset request.
#[derive(Clone, Copy, PartialEq, Eq, Structural, Debug)]
pub struct FatalReport {
    /// Hart the failure was decided on.
    pub hart_id: u64,
    /// The trap record attached to the escalation.
    pub record: TrapRecord,
    /// Always a shutdown: a failed machine is not rebooted into unknown
    /// state.
    pub reset_type: ResetType,
    /// Always a system failure, distinguishing this from a requested
    /// shutdown.
    pub reset_reason: ResetReason,
}

/// Escalate: mark the hart failed — it never resumes supervisor code — count
/// the escalation, and hand back the report the collaborators act on.
/// The supervisor-visible registers are left exactly as the trap captured
/// them, so nothing partially-failed becomes observable.
pub fn fatal_failure(h: &mut Hart, record: TrapRecord) -> (report: FatalReport)
    requires
        old(h).fatal_reports < u64::MAX,
    ensures
        *final(h) == (Hart {
            failed: true,
            fatal_reports: (old(h).fatal_reports + 1) as u64,
            ..*old(h)
        }),
        report == (FatalReport {
            hart_id: old(h).hart_id,
            record,
            reset_type: ResetType::Shutdown,
            reset_reason: ResetReason::SystemFailure,
        }),
{
    h.failed = true;
    h.fatal_reports = h.fatal_reports + 1;
    FatalReport {
        hart_id: h.hart_id,
        record,
        reset_type: ResetType::Shutdown,
        reset_reason: ResetReason::SystemFailure,
    }
}

} // verus!
