//! Boot sequencing: per-hart stack assignment, the one-time global
//! initialization, and the ordered bring-up that leaves every hart in
//! supervisor mode.
//!
//! Each hart owns the stack span `[base + id * capacity, base + (id + 1) *
//! capacity)` and enters with its stack pointer at the span's top, growing
//! downward.  Exactly one hart — the primary, hart 0 — performs global
//! initialization (zero-fill, memory arena, interrupt controller,
//! peripherals, all collaborators); every other hart waits on its completion
//! before proceeding, which the per-hart boot states as a precondition.

use vstd::prelude::*;
use vstd::pervasive::VecAdditionalExecFns;
use crate::delegation::{configure_delegation, delegation_configured};
use crate::executor::{prepare_supervisor_entry, privileged_return};
use crate::hart::{new_hart, ExecState, Hart, REG_A0, REG_A1, REG_SP};
use crate::pmp::{configure_pmp, pmp_configured};

verus! {

/// Private stack capacity of one hart, in bytes.
pub const PER_HART_STACK_SIZE: u64 = 8 * 1024;

/// Largest hart count the platform configuration supports.
pub const MAX_HARTS: u64 = 4;

/// Bytes reserved for all hart stacks together.  The per-hart spans must
/// stay inside this reservation — a sizing mismatch is a build-time
/// invariant violation, and [`lemma_stacks_fit_reservation`] is its
/// build-time check.
pub const SBI_STACK_SIZE: u64 = MAX_HARTS * PER_HART_STACK_SIZE;

/// The hart elected to run global initialization.
pub const PRIMARY_HART: u64 = 0;

/// The fixed physical address where every hart enters the supervisor.
pub const SUPERVISOR_ENTRY: u64 = 0x4002_0000;

/// First byte of a hart's private stack span.
pub open spec fn stack_region_lo(base: u64, hart_id: u64) -> int {
    base + hart_id * PER_HART_STACK_SIZE
}

/// First byte past a hart's private stack span; also its initial stack
/// pointer, since the stack grows downward.
pub open spec fn stack_region_hi(base: u64, hart_id: u64) -> int {
    base + (hart_id + 1) * PER_HART_STACK_SIZE
}

/// The stack pointer a hart starts with: the top of its private span.
pub fn hart_stack_top(base: u64, hart_id: u64) -> (top: u64)
    requires
        base + (hart_id + 1) * PER_HART_STACK_SIZE <= u64::MAX,
    ensures
        top == stack_region_hi(base, hart_id),
{
    proof {
        assert(hart_id + 1 <= (hart_id + 1) * PER_HART_STACK_SIZE) by (nonlinear_arith);
    }
    base + (hart_id + 1) * PER_HART_STACK_SIZE
}

/// Stack spans of distinct harts are pairwise disjoint, and every span holds
/// exactly the configured capacity.
pub proof fn lemma_stack_regions_disjoint(base: u64, i: u64, j: u64)
    requires
        i != j,
    ensures
        stack_region_hi(base, i) - stack_region_lo(base, i) == PER_HART_STACK_SIZE,
        stack_region_hi(base, i) <= stack_region_lo(base, j) || stack_region_hi(base, j)
            <= stack_region_lo(base, i),
{
    if i < j {
        assert((i + 1) * PER_HART_STACK_SIZE <= j * PER_HART_STACK_SIZE) by (nonlinear_arith)
            requires
                i < j,
        ;
    } else {
        assert((j + 1) * PER_HART_STACK_SIZE <= i * PER_HART_STACK_SIZE) by (nonlinear_arith)
            requires
                j < i,
        ;
    }
}

/// Every supported hart's span lies inside the reserved stack space: the
/// configuration cannot overflow its reservation.
pub proof fn lemma_stacks_fit_reservation(base: u64, hart_id: u64)
    requires
        hart_id < MAX_HARTS,
    ensures
        stack_region_hi(base, hart_id) <= base + SBI_STACK_SIZE,
{
    assert((hart_id + 1) * PER_HART_STACK_SIZE <= MAX_HARTS * PER_HART_STACK_SIZE) by (nonlinear_arith)
        requires
            hart_id < MAX_HARTS,
    ;
}

/// State shared by all harts during bring-up: whether the one-time global
/// initialization completed, and how often it ran.
pub struct BootGlobals {
    /// Set when the primary finished zero-fill, the memory arena, the
    /// interrupt controller and peripheral bring-up; secondaries wait on it.
    pub init_done: bool,
    /// How many times global initialization ran; stays at one.
    pub init_runs: u64,
}

/// Shared state before any hart has booted.
pub fn new_boot_globals() -> (g: BootGlobals)
    ensures
        g.init_done == false,
        g.init_runs == 0,
{
    BootGlobals { init_done: false, init_runs: 0 }
}

/// The one-time global initialization.  Zero-fill of uninitialized regions,
/// memory-arena setup, interrupt-controller enablement and peripheral
/// bring-up are the collaborators' work; the core records that all of it
/// completed before anyone proceeds.
pub fn global_init(g: &mut BootGlobals)
    requires
        !old(g).init_done,
        old(g).init_runs < u64::MAX,
    ensures
        *final(g) == (BootGlobals { init_done: true, init_runs: (old(g).init_runs + 1) as u64 }),
{
    g.init_done = true;
    g.init_runs = g.init_runs + 1;
}

/// A hart that finished its boot: protection and delegation registers carry
/// the fixed configuration, its stack pointer sits at the top of its private
/// span, and it sits in supervisor mode at the entry point with its id and
/// the hardware-description blob address in the two argument registers.
pub open spec fn booted(h: Hart, stack_base: u64, entry: u64, dtb_addr: u64) -> bool {
    &&& h.wf()
    &&& h.exec_state == ExecState::InSupervisor
    &&& pmp_configured(h)
    &&& delegation_configured(h)
    &&& h.regs[REG_SP as int] == stack_region_hi(stack_base, h.hart_id)
    &&& h.mepc == entry
    &&& h.regs[REG_A0 as int] == h.hart_id
    &&& h.regs[REG_A1 as int] == dtb_addr
    &&& h.failed == false
    &&& h.fatal_reports == 0
}

/// Bring one hart from power-on into supervisor mode.  The precondition
/// `hart_id == PRIMARY_HART || init_done` is the synchronization point:
/// a secondary runs only after the primary's global initialization is
/// observably complete, and shared-hardware steps therefore finish before
/// any hart proceeds past this stage.
pub fn boot_hart(h: &mut Hart, g: &mut BootGlobals, stack_base: u64, entry: u64, dtb_addr: u64)
    requires
        old(h).wf(),
        old(h).exec_state == ExecState::Booting,
        old(h).failed == false,
        old(h).fatal_reports == 0,
        old(h).hart_id == PRIMARY_HART || old(g).init_done,
        old(g).init_runs < u64::MAX,
        stack_base + (old(h).hart_id + 1) * PER_HART_STACK_SIZE <= u64::MAX,
    ensures
        booted(*final(h), stack_base, entry, dtb_addr),
        final(h).hart_id == old(h).hart_id,
        final(g).init_done,
        final(g).init_runs == if old(h).hart_id == PRIMARY_HART && !old(g).init_done {
            old(g).init_runs + 1
        } else {
            old(g).init_runs as int
        },
{
    let id = h.hart_id;
    let top = hart_stack_top(stack_base, id);
    h.regs.set(REG_SP, top);
    if h.hart_id == PRIMARY_HART && !g.init_done {
        global_init(g);
    }
    configure_pmp(h);
    configure_delegation(h);
    prepare_supervisor_entry(h, entry, dtb_addr);
    privileged_return(h);
}

/// All harts after bring-up, plus the shared boot state.
pub struct Machine {
    /// One state record per hart, indexed by hart id.
    pub harts: Vec<Hart>,
    /// The shared bring-up state.
    pub globals: BootGlobals,
}

/// Boot the whole machine: hart 0 first — it is the primary and runs global
/// initialization exactly once — then each secondary, each after the
/// synchronization point.  Every hart ends in supervisor mode at `entry`
/// with its own id and the same blob address in the argument registers.
pub fn boot_machine(n_harts: u64, stack_base: u64, entry: u64, dtb_addr: u64) -> (m: Machine)
    requires
        1 <= n_harts <= MAX_HARTS,
        stack_base + SBI_STACK_SIZE <= u64::MAX,
    ensures
        m.harts.len() == n_harts,
        m.globals.init_runs == 1,
        m.globals.init_done,
        forall|i: int| 0 <= i < n_harts ==> #[trigger] m.harts[i].hart_id == i,
        forall|i: int| 0 <= i < n_harts ==> booted(#[trigger] m.harts[i], stack_base, entry, dtb_addr),
{
    let mut harts: Vec<Hart> = Vec::new();
    let mut g = new_boot_globals();
    let mut id: u64 = 0;
    while id < n_harts
        invariant
            id <= n_harts,
            n_harts <= MAX_HARTS,
            harts.len() == id,
            id > 0 ==> g.init_done && g.init_runs == 1,
            id == 0 ==> !g.init_done && g.init_runs == 0,
            stack_base + SBI_STACK_SIZE <= u64::MAX,
            forall|i: int| 0 <= i < id ==> #[trigger] harts[i].hart_id == i,
            forall|i: int| 0 <= i < id ==> booted(#[trigger] harts[i], stack_base, entry, dtb_addr),
        decreases n_harts - id,
    {
        let mut h = new_hart(id);
        proof {
            lemma_stacks_fit_reservation(stack_base, id);
        }
        boot_hart(&mut h, &mut g, stack_base, entry, dtb_addr);
        harts.push(h);
        id = id + 1;
    }
    Machine { harts, globals: g }
}

} // verus!
