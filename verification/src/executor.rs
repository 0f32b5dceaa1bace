//! The privilege-transition executor: the one-way jump into the supervisor
//! and the recurring supervisor-to-firmware round trip on every retained
//! trap.
//!
//! Hardware capture of a trap and the privilege-downgrading return are
//! modeled as explicit transitions on the hart state, so every path through
//! the executor — entry staging, dispatch, result injection, resume,
//! escalation — is stated over plain values.

use vstd::prelude::*;
use crate::hart::{ExecState, Hart, Privilege, REG_A0, REG_A1};
use crate::dispatch::{
    classify, emulate_timer_read, forward_soft_interrupt, redelegate_page_fault, set_return_pair,
    spec_classify, timer_high_half, timer_low_half, transfer_to_supervisor, Rule, TrapRecord,
};
use crate::fatal::{fatal_failure, FatalReport, ResetReason, ResetType};

verus! {

/// What one pass through the executor ended in.
#[derive(Clone, Copy, PartialEq, Eq, Structural, Debug)]
pub enum Outcome {
    /// The trap was handled and the hart resumed supervisor execution.
    Resumed,
    /// A supervisor ecall: the SBI boundary must decide the reply, then
    /// resume the hart through [`complete_sbi_call`].
    SbiCall(TrapRecord),
    /// No rule matched: the hart is failed and the attached report names the
    /// reset request; control never returns to the supervisor.
    Failed(FatalReport),
}

/// The trap record the executor reconstructs from a hart's capture
/// registers.
pub open spec fn record_of(h: Hart) -> TrapRecord {
    TrapRecord {
        hart_id: h.hart_id,
        is_interrupt: h.mcause_is_interrupt,
        code: h.mcause_code,
        fault_value: h.mtval,
        origin: h.mpp,
        pc: h.mepc,
    }
}

/// Stage the initial supervisor entry: resume privilege supervisor, resume
/// address the fixed entry point, hart id and hardware-description blob
/// address in the two argument registers.  Leaves the hart one privileged
/// return away from supervisor mode; a hart makes this transition exactly
/// once, since it leaves the boot stage for good.
pub fn prepare_supervisor_entry(h: &mut Hart, entry: u64, dtb_addr: u64)
    requires
        old(h).wf(),
        old(h).exec_state == ExecState::Booting,
    ensures
        *final(h) == (Hart {
            exec_state: ExecState::EnteringSupervisor,
            mepc: entry,
            mpp: Privilege::Supervisor,
            regs: final(h).regs,
            ..*old(h)
        }),
        final(h).regs@ == old(h).regs@.update(REG_A0 as int, old(h).hart_id).update(
            REG_A1 as int,
            dtb_addr,
        ),
        final(h).wf(),
{
    let id = h.hart_id;
    set_return_pair(h, id, dtb_addr);
    h.mepc = entry;
    h.mpp = Privilege::Supervisor;
    h.exec_state = ExecState::EnteringSupervisor;
}

/// The privilege-downgrading return: the hart continues at the staged resume
/// address in supervisor mode.  A failed hart never takes it.
pub fn privileged_return(h: &mut Hart)
    requires
        old(h).exec_state != ExecState::Booting,
        old(h).mpp == Privilege::Supervisor,
        !old(h).failed,
    ensures
        *final(h) == (Hart { exec_state: ExecState::InSupervisor, ..*old(h) }),
{
    h.exec_state = ExecState::InSupervisor;
}

/// Hardware capture of a trap taken in supervisor mode: cause, faulting
/// value, interrupted address and originating privilege land in the capture
/// registers, atomically, before the firmware runs.
pub fn take_trap(h: &mut Hart, is_interrupt: bool, code: u64, fault_value: u64, pc: u64)
    requires
        old(h).exec_state == ExecState::InSupervisor,
    ensures
        *final(h) == (Hart {
            mcause_is_interrupt: is_interrupt,
            mcause_code: code,
            mtval: fault_value,
            mepc: pc,
            mpp: Privilege::Supervisor,
            ..*old(h)
        }),
{
    h.mcause_is_interrupt = is_interrupt;
    h.mcause_code = code;
    h.mtval = fault_value;
    h.mepc = pc;
    h.mpp = Privilege::Supervisor;
}

/// One full pass over a captured trap: reconstruct the record, route it to
/// exactly one dispatch rule, and resume the hart — except that an ecall is
/// handed out to the SBI boundary, and an unrecognized cause is never
/// resumed past but escalates, exactly once, to the fatal-failure handler.
///
/// `timer` is the hardware timer's current reading, supplied by the
/// machine-mode-only timer interface.
pub fn handle_trap(h: &mut Hart, timer: u64) -> (o: Outcome)
    requires
        old(h).wf(),
        old(h).exec_state == ExecState::InSupervisor,
        !old(h).failed,
        old(h).mpp == Privilege::Supervisor,
        old(h).mepc + 4 <= u64::MAX,
        old(h).fatal_reports < u64::MAX,
    ensures
        final(h).wf(),
        spec_classify(record_of(*old(h))) == Rule::ForwardSoftInterrupt ==> (o == Outcome::Resumed
            && *final(h) == (Hart { msip: false, ssip: true, ..*old(h) })),
        spec_classify(record_of(*old(h))) == Rule::SbiCall ==> (o == Outcome::SbiCall(record_of(*old(h)))
            && *final(h) == *old(h)),
        spec_classify(record_of(*old(h))) == Rule::EmulateTimerRead ==> (o == Outcome::Resumed && *final(h)
            == (Hart { regs: final(h).regs, mepc: (old(h).mepc + 4) as u64, ..*old(h) }) && final(h).regs@
            == old(h).regs@.update(REG_A0 as int, timer_low_half(timer)).update(
            REG_A1 as int,
            timer_high_half(timer),
        )),
        (spec_classify(record_of(*old(h))) == Rule::RedelegatePageFault || spec_classify(record_of(*old(h)))
            == Rule::TransferToSupervisor) ==> (o == Outcome::Resumed && *final(h) == (Hart {
            scause_is_interrupt: old(h).mcause_is_interrupt,
            scause_code: old(h).mcause_code,
            stval: old(h).mtval,
            sepc: old(h).mepc,
            sstatus_spp: old(h).mpp,
            mepc: old(h).stvec,
            ..*old(h)
        })),
        spec_classify(record_of(*old(h))) == Rule::Fatal ==> (o == Outcome::Failed(FatalReport {
            hart_id: old(h).hart_id,
            record: record_of(*old(h)),
            reset_type: ResetType::Shutdown,
            reset_reason: ResetReason::SystemFailure,
        }) && *final(h) == (Hart {
            failed: true,
            fatal_reports: (old(h).fatal_reports + 1) as u64,
            ..*old(h)
        })),
{
    let record = TrapRecord {
        hart_id: h.hart_id,
        is_interrupt: h.mcause_is_interrupt,
        code: h.mcause_code,
        fault_value: h.mtval,
        origin: h.mpp,
        pc: h.mepc,
    };
    match classify(&record) {
        Rule::ForwardSoftInterrupt => {
            forward_soft_interrupt(h);
            privileged_return(h);
            Outcome::Resumed
        },
        Rule::SbiCall => Outcome::SbiCall(record),
        Rule::EmulateTimerRead => {
            emulate_timer_read(h, timer);
            privileged_return(h);
            Outcome::Resumed
        },
        Rule::RedelegatePageFault => {
            redelegate_page_fault(h);
            privileged_return(h);
            Outcome::Resumed
        },
        Rule::TransferToSupervisor => {
            transfer_to_supervisor(h);
            privileged_return(h);
            Outcome::Resumed
        },
        Rule::Fatal => {
            let report = fatal_failure(h, record);
            Outcome::Failed(report)
        },
    }
}

/// Inject the SBI boundary's reply — the (status, value) pair, in the two
/// conventional registers — advance the resume address past the ecall, and
/// resume the hart.
pub fn complete_sbi_call(h: &mut Hart, status: u64, value: u64)
    requires
        old(h).wf(),
        old(h).exec_state == ExecState::InSupervisor,
        !old(h).failed,
        old(h).mpp == Privilege::Supervisor,
        old(h).mepc + 4 <= u64::MAX,
    ensures
        *final(h) == (Hart { regs: final(h).regs, mepc: (old(h).mepc + 4) as u64, ..*old(h) }),
        final(h).regs@ == old(h).regs@.update(REG_A0 as int, status).update(REG_A1 as int, value),
        final(h).wf(),
{
    set_return_pair(h, status, value);
    h.mepc = h.mepc + 4;
    privileged_return(h);
}

} // verus!
