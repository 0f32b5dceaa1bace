//! Trap dispatch and emulation: the closed set of rules applied to
//! firmware-retained traps.
//!
//! A trap is classified by its cause into exactly one rule: forwarding the
//! inter-hart software interrupt, handing the supervisor ecall to the SBI
//! boundary, emulating a timer-read instruction, re-synthesizing a page fault
//! the delegation hardware cannot express, reflecting the remaining
//! non-delegable exceptions, or escalating to the fatal-failure handler.

use vstd::prelude::*;
use vstd::pervasive::VecAdditionalExecFns;
use crate::hart::{Hart, Privilege, REG_A0, REG_A1};

verus! {

/// Machine software interrupt: the inter-hart signal (interrupt cause 3).
pub const CAUSE_MACHINE_SOFT_INTERRUPT: u64 = 3;

/// Instruction access fault (exception cause 1).
pub const CAUSE_INSTRUCTION_ACCESS_FAULT: u64 = 1;

/// Illegal instruction (exception cause 2); carries the instruction bits.
pub const CAUSE_ILLEGAL_INSTRUCTION: u64 = 2;

/// Misaligned load (exception cause 4).
pub const CAUSE_LOAD_MISALIGNED: u64 = 4;

/// Load access fault (exception cause 5).
pub const CAUSE_LOAD_ACCESS_FAULT: u64 = 5;

/// Misaligned store (exception cause 6).
pub const CAUSE_STORE_MISALIGNED: u64 = 6;

/// Store access fault (exception cause 7).
pub const CAUSE_STORE_ACCESS_FAULT: u64 = 7;

/// Environment call from supervisor mode (exception cause 9): the SBI path.
pub const CAUSE_SUPERVISOR_ECALL: u64 = 9;

/// Instruction page fault (exception cause 12).
pub const CAUSE_INSTRUCTION_PAGE_FAULT: u64 = 12;

/// Load page fault (exception cause 13).
pub const CAUSE_LOAD_PAGE_FAULT: u64 = 13;

/// Store page fault (exception cause 15).
pub const CAUSE_STORE_PAGE_FAULT: u64 = 15;

/// Fixed bits of the timer-read instruction: a csrrs of the time counter
/// with source x0, any destination.
pub const TIMER_READ_BITS: u64 = 0xC010_2073;

/// Mask selecting every instruction bit except the destination register.
pub const TIMER_READ_MASK: u64 = 0xFFFF_F07F;

/// One retained trap, as captured at firmware entry: cause, faulting value,
/// originating privilege and interrupted address.  Lives for exactly one
/// dispatch call.
#[derive(Clone, Copy, PartialEq, Eq, Structural, Debug)]
pub struct TrapRecord {
    /// Hart the trap was taken on.
    pub hart_id: u64,
    /// Whether the cause is an interrupt rather than an exception.
    pub is_interrupt: bool,
    /// Cause code.
    pub code: u64,
    /// Faulting address, or the bits of the trapping instruction.
    pub fault_value: u64,
    /// Privilege the trap came from.
    pub origin: Privilege,
    /// Address of the interrupted or trapping instruction.
    pub pc: u64,
}

/// The closed set of handling rules; every retained cause maps to exactly
/// one.
#[derive(Clone, Copy, PartialEq, Eq, Structural, Debug)]
pub enum Rule {
    /// Relay the inter-hart software interrupt to the supervisor.
    ForwardSoftInterrupt,
    /// Hand the supervisor ecall to the SBI call boundary.
    SbiCall,
    /// Emulate the machine-only timer-read instruction.
    EmulateTimerRead,
    /// Re-synthesize a page fault the delegation hardware cannot express.
    RedelegatePageFault,
    /// Reflect a non-delegable exception to the supervisor's trap vector.
    TransferToSupervisor,
    /// No rule matches: escalate to the fatal-failure handler.
    Fatal,
}

/// Whether the instruction bits are a timer-read, whatever its destination
/// register.
pub open spec fn is_timer_read(instr: u64) -> bool {
    instr & TIMER_READ_MASK == TIMER_READ_BITS
}

/// The dispatch policy: cause to rule.
pub open spec fn spec_classify(r: TrapRecord) -> Rule {
    if r.is_interrupt {
        if r.code == CAUSE_MACHINE_SOFT_INTERRUPT {
            Rule::ForwardSoftInterrupt
        } else {
            Rule::Fatal
        }
    } else if r.code == CAUSE_SUPERVISOR_ECALL {
        Rule::SbiCall
    } else if r.code == CAUSE_ILLEGAL_INSTRUCTION && is_timer_read(r.fault_value) {
        Rule::EmulateTimerRead
    } else if r.code == CAUSE_INSTRUCTION_PAGE_FAULT || r.code == CAUSE_LOAD_PAGE_FAULT || r.code
        == CAUSE_STORE_PAGE_FAULT {
        Rule::RedelegatePageFault
    } else if r.code == CAUSE_INSTRUCTION_ACCESS_FAULT || r.code == CAUSE_ILLEGAL_INSTRUCTION || r.code
        == CAUSE_LOAD_MISALIGNED || r.code == CAUSE_LOAD_ACCESS_FAULT || r.code == CAUSE_STORE_MISALIGNED
        || r.code == CAUSE_STORE_ACCESS_FAULT {
        Rule::TransferToSupervisor
    } else {
        Rule::Fatal
    }
}

/// Select the one rule for a record.
pub fn classify(r: &TrapRecord) -> (rule: Rule)
    ensures
        rule == spec_classify(*r),
{
    if r.is_interrupt {
        if r.code == CAUSE_MACHINE_SOFT_INTERRUPT {
            Rule::ForwardSoftInterrupt
        } else {
            Rule::Fatal
        }
    } else if r.code == CAUSE_SUPERVISOR_ECALL {
        Rule::SbiCall
    } else if r.code == CAUSE_ILLEGAL_INSTRUCTION && (r.fault_value & TIMER_READ_MASK) == TIMER_READ_BITS {
        Rule::EmulateTimerRead
    } else if r.code == CAUSE_INSTRUCTION_PAGE_FAULT || r.code == CAUSE_LOAD_PAGE_FAULT || r.code
        == CAUSE_STORE_PAGE_FAULT {
        Rule::RedelegatePageFault
    } else if r.code == CAUSE_INSTRUCTION_ACCESS_FAULT || r.code == CAUSE_ILLEGAL_INSTRUCTION || r.code
        == CAUSE_LOAD_MISALIGNED || r.code == CAUSE_LOAD_ACCESS_FAULT || r.code == CAUSE_STORE_MISALIGNED
        || r.code == CAUSE_STORE_ACCESS_FAULT {
        Rule::TransferToSupervisor
    } else {
        Rule::Fatal
    }
}

/// Forward the inter-hart software interrupt: clear the firmware-visible
/// pending bit, set the supervisor-visible one, and leave everything else —
/// the register file above all — untouched, so the firmware acts as a pure
/// relay.
pub fn forward_soft_interrupt(h: &mut Hart)
    ensures
        *final(h) == (Hart { msip: false, ssip: true, ..*old(h) }),
{
    h.msip = false;
    h.ssip = true;
}

/// Reflect the captured trap to the supervisor: copy cause, faulting value
/// and interrupted address bit-for-bit into the supervisor trap report
/// registers, record the originating privilege, and stage the resume at the
/// supervisor's trap vector in supervisor mode.  The register file is left
/// untouched, so the synthesized trap is indistinguishable from a
/// hardware-delegated one.
pub fn transfer_to_supervisor(h: &mut Hart)
    ensures
        *final(h) == (Hart {
            scause_is_interrupt: old(h).mcause_is_interrupt,
            scause_code: old(h).mcause_code,
            stval: old(h).mtval,
            sepc: old(h).mepc,
            sstatus_spp: old(h).mpp,
            mepc: old(h).stvec,
            mpp: Privilege::Supervisor,
            ..*old(h)
        }),
{
    h.scause_is_interrupt = h.mcause_is_interrupt;
    h.scause_code = h.mcause_code;
    h.stval = h.mtval;
    h.sepc = h.mepc;
    h.sstatus_spp = h.mpp;
    h.mepc = h.stvec;
    h.mpp = Privilege::Supervisor;
}

/// Re-synthesize a page fault the delegation hardware cannot express, by the
/// same mechanism as [`transfer_to_supervisor`]: the faulting virtual
/// address reaches the supervisor bit-exact in its trap report register.
pub fn redelegate_page_fault(h: &mut Hart)
    requires
        !old(h).mcause_is_interrupt,
        old(h).mcause_code == CAUSE_INSTRUCTION_PAGE_FAULT || old(h).mcause_code == CAUSE_LOAD_PAGE_FAULT
            || old(h).mcause_code == CAUSE_STORE_PAGE_FAULT,
    ensures
        *final(h) == (Hart {
            scause_is_interrupt: old(h).mcause_is_interrupt,
            scause_code: old(h).mcause_code,
            stval: old(h).mtval,
            sepc: old(h).mepc,
            sstatus_spp: old(h).mpp,
            mepc: old(h).stvec,
            mpp: Privilege::Supervisor,
            ..*old(h)
        }),
{
    transfer_to_supervisor(h);
}

/// Low half of the split timer value: what goes into the first return
/// register.
pub open spec fn timer_low_half(t: u64) -> u64 {
    t & 0xFFFF_FFFF
}

/// High half of the split timer value: what goes into the second return
/// register.
pub open spec fn timer_high_half(t: u64) -> u64 {
    t >> 32
}

/// The 64-bit reading a supervisor reassembles from the two-register return.
pub open spec fn timer_joined(lo: u64, hi: u64) -> int {
    hi * 0x1_0000_0000 + lo
}

/// Emulate the machine-only timer-read instruction: split the hardware timer
/// value into the two argument registers per the return convention, and
/// advance the resume address past the trapping instruction so it is never
/// retried.  Everything else is untouched.
pub fn emulate_timer_read(h: &mut Hart, timer: u64)
    requires
        old(h).wf(),
        old(h).mepc + 4 <= u64::MAX,
    ensures
        *final(h) == (Hart {
            regs: final(h).regs,
            mepc: (old(h).mepc + 4) as u64,
            ..*old(h)
        }),
        final(h).regs@ == old(h).regs@.update(REG_A0 as int, timer_low_half(timer)).update(
            REG_A1 as int,
            timer_high_half(timer),
        ),
        final(h).wf(),
{
    let lo = timer & 0xFFFF_FFFF;
    let hi = timer >> 32;
    set_return_pair(h, lo, hi);
    h.mepc = h.mepc + 4;
}

/// Place a value pair in the two argument registers — the return convention
/// shared by the timer emulation and the SBI call boundary.
pub fn set_return_pair(h: &mut Hart, first: u64, second: u64)
    requires
        old(h).wf(),
    ensures
        *final(h) == (Hart { regs: final(h).regs, ..*old(h) }),
        final(h).regs@ == old(h).regs@.update(REG_A0 as int, first).update(REG_A1 as int, second),
        final(h).wf(),
{
    h.regs.set(REG_A0, first);
    h.regs.set(REG_A1, second);
}

/// Splitting loses nothing: the supervisor reassembles exactly the value the
/// hardware timer gave.
pub proof fn lemma_timer_split_round_trip(t: u64)
    ensures
        timer_joined(timer_low_half(t), timer_high_half(t)) == t,
{
    assert((t >> 32) * 0x1_0000_0000 + (t & 0xFFFF_FFFF) == t) by (bit_vector);
}

/// Emulated timer reads are non-decreasing: a hardware timer that did not go
/// backwards between two reads yields reassembled values that did not either.
pub proof fn lemma_timer_reads_monotonic(t1: u64, t2: u64)
    requires
        t1 <= t2,
    ensures
        timer_joined(timer_low_half(t1), timer_high_half(t1)) <= timer_joined(
            timer_low_half(t2),
            timer_high_half(t2),
        ),
{
    lemma_timer_split_round_trip(t1);
    lemma_timer_split_round_trip(t2);
}

} // verus!
