//! The recurring trap round trip: forwarding, reflection, redelegation,
//! timer emulation, the SBI return convention, and the fatal path.

use nezha_sbi::boot::{boot_machine, SUPERVISOR_ENTRY};
use nezha_sbi::delegation::{MEDELEG_MASK, MIDELEG_MASK};
use nezha_sbi::dispatch::{classify, Rule, TrapRecord};
use nezha_sbi::executor::{complete_sbi_call, handle_trap, take_trap, Outcome};
use nezha_sbi::fatal::{ResetReason, ResetType};
use nezha_sbi::hart::{ExecState, Hart, Privilege, REG_A0, REG_A1};

const DTB_ADDR: u64 = 0x4180_0000;
const STACK_BASE: u64 = 0x4001_0000;
const STVEC: u64 = 0x4030_0000;

/// A csrrs of the time counter into a0: the timer-read instruction.
const RDTIME_A0: u64 = 0xC010_2573;

fn record(is_interrupt: bool, code: u64, fault_value: u64) -> TrapRecord {
    TrapRecord { hart_id: 0, is_interrupt, code, fault_value, origin: Privilege::Supervisor, pc: 0x4002_0000 }
}

fn booted_hart() -> Hart {
    let mut m = boot_machine(1, STACK_BASE, SUPERVISOR_ENTRY, DTB_ADDR);
    let mut h = m.harts.pop().unwrap();
    h.stvec = STVEC;
    h
}

#[test]
fn dispatch_selects_exactly_the_documented_rule() {
    assert_eq!(classify(&record(true, 3, 0)), Rule::ForwardSoftInterrupt);
    assert_eq!(classify(&record(false, 9, 0)), Rule::SbiCall);
    assert_eq!(classify(&record(false, 2, RDTIME_A0)), Rule::EmulateTimerRead);
    // the same timer-read bits with a different destination register
    assert_eq!(classify(&record(false, 2, 0xC010_2A73)), Rule::EmulateTimerRead);
    assert_eq!(classify(&record(false, 2, 0x0000_0000)), Rule::TransferToSupervisor);
    for code in [12u64, 13, 15] {
        assert_eq!(classify(&record(false, code, 0x1000)), Rule::RedelegatePageFault);
    }
    for code in [1u64, 4, 5, 6, 7] {
        assert_eq!(classify(&record(false, code, 0x1000)), Rule::TransferToSupervisor);
    }
    // nothing else matches: unknown exception, unknown interrupt
    assert_eq!(classify(&record(false, 24, 0)), Rule::Fatal);
    assert_eq!(classify(&record(true, 11, 0)), Rule::Fatal);
}

#[test]
fn every_dispatched_cause_is_retained_by_the_policy() {
    // interrupt rule: machine software interrupt, not in the interrupt mask
    assert_eq!((MIDELEG_MASK >> 3) & 1, 0);
    // exception rules: none of their causes is in the exception mask
    for code in [1u64, 2, 4, 5, 6, 7, 9, 12, 13, 15] {
        assert_eq!((MEDELEG_MASK >> code) & 1, 0, "cause {} must stay retained", code);
    }
}

#[test]
fn soft_interrupt_forwarded_pending_bits_only() {
    let mut h = booted_hart();
    h.msip = true;
    let regs_before = h.regs.clone();
    take_trap(&mut h, true, 3, 0, 0x4002_0400);
    let o = handle_trap(&mut h, 0);
    assert_eq!(o, Outcome::Resumed);
    // firmware-visible pending bit cleared, supervisor-visible one set
    assert!(!h.msip);
    assert!(h.ssip);
    // the interrupted register file and resume address are untouched
    assert_eq!(h.regs, regs_before);
    assert_eq!(h.mepc, 0x4002_0400);
    assert_eq!(h.exec_state, ExecState::InSupervisor);
}

#[test]
fn reflected_trap_bit_identical() {
    let mut h = booted_hart();
    // a load access fault: hardware cannot delegate it, firmware reflects it
    take_trap(&mut h, false, 5, 0xDEAD_BEEF_0BAD_F00D, 0x4002_0AB0);
    let o = handle_trap(&mut h, 0);
    assert_eq!(o, Outcome::Resumed);
    // cause, faulting address and interrupted address reach the supervisor
    // exactly as hardware captured them
    assert!(!h.scause_is_interrupt);
    assert_eq!(h.scause_code, 5);
    assert_eq!(h.stval, 0xDEAD_BEEF_0BAD_F00D);
    assert_eq!(h.sepc, 0x4002_0AB0);
    assert_eq!(h.sstatus_spp, Privilege::Supervisor);
    // the hart resumes at the supervisor's trap vector
    assert_eq!(h.mepc, STVEC);
    assert_eq!(h.exec_state, ExecState::InSupervisor);
}

#[test]
fn page_fault_redelegated_bit_identical() {
    let mut h = booted_hart();
    // a store page fault with a virtual address the hardware captured
    take_trap(&mut h, false, 15, 0x0000_003F_FFFF_F123, 0x4002_0C00);
    let o = handle_trap(&mut h, 0);
    assert_eq!(o, Outcome::Resumed);
    assert!(!h.scause_is_interrupt);
    assert_eq!(h.scause_code, 15);
    assert_eq!(h.stval, 0x0000_003F_FFFF_F123);
    assert_eq!(h.sepc, 0x4002_0C00);
    assert_eq!(h.mepc, STVEC);
}

#[test]
fn timer_read_emulated_split_and_advances() {
    let mut h = booted_hart();
    let timer: u64 = 0x0000_0012_8000_0007;
    take_trap(&mut h, false, 2, RDTIME_A0, 0x4002_0D00);
    let o = handle_trap(&mut h, timer);
    assert_eq!(o, Outcome::Resumed);
    // split per the two-register return convention
    assert_eq!(h.regs[REG_A0], 0x8000_0007);
    assert_eq!(h.regs[REG_A1], 0x12);
    assert_eq!((h.regs[REG_A1] << 32) | h.regs[REG_A0], timer);
    // the resume address strictly advances past the trapping instruction
    assert_eq!(h.mepc, 0x4002_0D04);
    assert_eq!(h.exec_state, ExecState::InSupervisor);
}

#[test]
fn timer_reads_non_decreasing() {
    let mut h = booted_hart();
    let mut last: u64 = 0;
    for (i, timer) in [7u64, 7, 1000, 0xFFFF_FFFF, 0x1_0000_0000].iter().enumerate() {
        let pc = 0x4002_0D00 + 8 * i as u64;
        take_trap(&mut h, false, 2, RDTIME_A0, pc);
        let o = handle_trap(&mut h, *timer);
        assert_eq!(o, Outcome::Resumed);
        assert_eq!(h.mepc, pc + 4);
        let read = (h.regs[REG_A1] << 32) | h.regs[REG_A0];
        assert!(read >= last);
        last = read;
    }
}

#[test]
fn non_timer_illegal_instruction_is_reflected() {
    let mut h = booted_hart();
    // an illegal instruction that is not the timer read goes to the
    // supervisor's own handler
    take_trap(&mut h, false, 2, 0xFFFF_FFFF, 0x4002_0E00);
    let o = handle_trap(&mut h, 0);
    assert_eq!(o, Outcome::Resumed);
    assert_eq!(h.scause_code, 2);
    assert_eq!(h.stval, 0xFFFF_FFFF);
    assert_eq!(h.mepc, STVEC);
}

#[test]
fn sbi_call_returns_by_convention() {
    let mut h = booted_hart();
    take_trap(&mut h, false, 9, 0, 0x4002_0F00);
    let o = handle_trap(&mut h, 0);
    match o {
        Outcome::SbiCall(record) => {
            assert!(!record.is_interrupt);
            assert_eq!(record.code, 9);
            assert_eq!(record.hart_id, 0);
            assert_eq!(record.pc, 0x4002_0F00);
        }
        other => panic!("expected an SBI call, got {:?}", other),
    }
    // the boundary decided (status, value); the executor injects and resumes
    complete_sbi_call(&mut h, 0, 0x1234_5678);
    assert_eq!(h.regs[REG_A0], 0);
    assert_eq!(h.regs[REG_A1], 0x1234_5678);
    assert_eq!(h.mepc, 0x4002_0F04);
    assert_eq!(h.exec_state, ExecState::InSupervisor);
}

#[test]
fn unknown_cause_escalates_exactly_once_and_never_resumes() {
    let mut h = booted_hart();
    let regs_before = h.regs.clone();
    // exception cause 24 matches no rule
    take_trap(&mut h, false, 24, 0x55, 0x4002_1000);
    let o = handle_trap(&mut h, 0);
    match o {
        Outcome::Failed(report) => {
            assert_eq!(report.hart_id, 0);
            assert_eq!(report.record.code, 24);
            assert_eq!(report.record.fault_value, 0x55);
            assert_eq!(report.reset_type, ResetType::Shutdown);
            assert_eq!(report.reset_reason, ResetReason::SystemFailure);
        }
        other => panic!("expected escalation, got {:?}", other),
    }
    // exactly one fatal-failure invocation, and no resume into supervisor
    assert_eq!(h.fatal_reports, 1);
    assert!(h.failed);
    // nothing partially-failed is observable on the supervisor side
    assert_eq!(h.regs, regs_before);
    assert_eq!(h.scause_code, 0);
    assert_eq!(h.sepc, 0);
}

#[test]
fn unknown_interrupt_is_fatal_too() {
    let mut h = booted_hart();
    // a supervisor external interrupt is hardware-delegated; seeing it in
    // firmware matches no rule
    take_trap(&mut h, true, 9, 0, 0x4002_1100);
    let o = handle_trap(&mut h, 0);
    assert!(matches!(o, Outcome::Failed(_)));
    assert_eq!(h.fatal_reports, 1);
    assert!(h.failed);
}
