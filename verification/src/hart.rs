//! The per-hart machine state the firmware reads and writes.
//!
//! One value of [`Hart`] stands for everything a single hardware thread owns:
//! its general register file, the machine-level control and status registers
//! the firmware manipulates, and the supervisor-level trap registers it fills
//! in when it reflects a trap.  Components take a `&mut Hart` and state in
//! their contracts exactly which fields they touch.

use vstd::prelude::*;

verus! {

/// Privilege level a trap came from or a privileged return enters.
#[derive(Clone, Copy, PartialEq, Eq, Structural, Debug)]
pub enum Privilege {
    User,
    Supervisor,
    Machine,
}

/// Where a hart stands in the one-way firmware-to-supervisor handoff.
#[derive(Clone, Copy, PartialEq, Eq, Structural, Debug)]
pub enum ExecState {
    /// Still inside the boot sequencer: stack, protection and delegation
    /// registers are being programmed.
    Booting,
    /// Entry address, arguments and resume privilege are staged; the
    /// privilege-downgrading return has not run yet.
    EnteringSupervisor,
    /// The hart runs supervisor code and re-enters the firmware only via a
    /// trap.
    InSupervisor,
}

/// Index of the stack pointer (x2, sp) in the register file.
pub const REG_SP: usize = 2;

/// Index of the first argument register (x10, a0) in the register file.
pub const REG_A0: usize = 10;

/// Index of the second argument register (x11, a1) in the register file.
pub const REG_A1: usize = 11;

/// Number of general registers a hart owns (x0 through x31).
pub const REG_COUNT: usize = 32;

/// The machine state of one hardware thread.
pub struct Hart {
    /// This hart's identifier; indexes every per-hart resource.
    pub hart_id: u64,
    /// Position in the boot handoff.
    pub exec_state: ExecState,
    /// General register file x0..x31; x0 is hardwired to zero.  Saved here on
    /// every trap entry and restored on resume, so this value is also the
    /// hart's execution context.
    pub regs: Vec<u64>,
    /// Resume address: where the next privileged return continues.  Written
    /// by hardware with the interrupted address on trap entry.
    pub mepc: u64,
    /// Trap cause captured by hardware: interrupt flag and cause code.
    pub mcause_is_interrupt: bool,
    /// Trap cause code (exception code or interrupt number).
    pub mcause_code: u64,
    /// Faulting address, or the bits of the trapping instruction.
    pub mtval: u64,
    /// mstatus.MPP: privilege the next privileged return enters; written by
    /// hardware with the originating privilege on trap entry.
    pub mpp: Privilege,
    /// Machine-software-interrupt pending bit (mip.MSIP): the
    /// firmware-visible inter-hart signal.
    pub msip: bool,
    /// Supervisor-software-interrupt pending bit (mip.SSIP): what the
    /// supervisor sees in sip.
    pub ssip: bool,
    /// Supervisor trap vector: where a reflected trap is delivered.
    pub stvec: u64,
    /// Supervisor trap report registers, filled when a trap is reflected.
    pub sepc: u64,
    /// Reflected cause: interrupt flag.
    pub scause_is_interrupt: bool,
    /// Reflected cause code.
    pub scause_code: u64,
    /// Reflected faulting address or instruction bits.
    pub stval: u64,
    /// sstatus.SPP: privilege the reflected trap appears to come from.
    pub sstatus_spp: Privilege,
    /// Interrupt-cause delegation mask.
    pub mideleg: u64,
    /// Exception-cause delegation mask.
    pub medeleg: u64,
    /// Machine interrupt-enable mask.
    pub mie: u64,
    /// Packed configuration bytes for the four protection regions.
    pub pmpcfg0: u64,
    /// Protection region boundary registers (top-of-range, in units of four
    /// bytes).
    pub pmpaddr0: u64,
    /// Second region boundary.
    pub pmpaddr1: u64,
    /// Third region boundary.
    pub pmpaddr2: u64,
    /// Fourth region boundary.
    pub pmpaddr3: u64,
    /// How many times this hart escalated to the fatal-failure handler.
    pub fatal_reports: u64,
    /// Set once the fatal-failure handler ran; the hart never resumes
    /// supervisor code afterwards.
    pub failed: bool,
}

impl Hart {
    /// A register file is well formed when it holds all thirty-two registers
    /// and keeps x0 at zero.
    pub open spec fn wf(self) -> bool {
        &&& self.regs.len() == REG_COUNT
        &&& self.regs[0] == 0
    }
}

/// A freshly powered-on hart: everything zeroed, boot not yet begun.
pub fn new_hart(hart_id: u64) -> (h: Hart)
    ensures
        h.wf(),
        h.hart_id == hart_id,
        h.exec_state == ExecState::Booting,
        forall|i: int| 0 <= i < REG_COUNT ==> h.regs[i] == 0,
        h.mepc == 0,
        h.mcause_is_interrupt == false,
        h.mcause_code == 0,
        h.mtval == 0,
        h.mpp == Privilege::Machine,
        h.msip == false,
        h.ssip == false,
        h.stvec == 0,
        h.sepc == 0,
        h.scause_is_interrupt == false,
        h.scause_code == 0,
        h.stval == 0,
        h.sstatus_spp == Privilege::User,
        h.mideleg == 0,
        h.medeleg == 0,
        h.mie == 0,
        h.pmpcfg0 == 0,
        h.pmpaddr0 == 0,
        h.pmpaddr1 == 0,
        h.pmpaddr2 == 0,
        h.pmpaddr3 == 0,
        h.fatal_reports == 0,
        h.failed == false,
{
    let mut regs: Vec<u64> = Vec::new();
    let mut i: usize = 0;
    while i < REG_COUNT
        invariant
            i <= REG_COUNT,
            regs.len() == i,
            forall|k: int| 0 <= k < i ==> regs[k] == 0,
        decreases REG_COUNT - i,
    {
        regs.push(0);
        i = i + 1;
    }
    Hart {
        hart_id,
        exec_state: ExecState::Booting,
        regs,
        mepc: 0,
        mcause_is_interrupt: false,
        mcause_code: 0,
        mtval: 0,
        mpp: Privilege::Machine,
        msip: false,
        ssip: false,
        stvec: 0,
        sepc: 0,
        scause_is_interrupt: false,
        scause_code: 0,
        stval: 0,
        sstatus_spp: Privilege::User,
        mideleg: 0,
        medeleg: 0,
        mie: 0,
        pmpcfg0: 0,
        pmpaddr0: 0,
        pmpaddr1: 0,
        pmpaddr2: 0,
        pmpaddr3: 0,
        fatal_reports: 0,
        failed: false,
    }
}

} // verus!
