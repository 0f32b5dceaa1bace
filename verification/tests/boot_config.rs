//! Boot sequencing, stack layout, protection and delegation configuration.

use nezha_sbi::boot::{
    boot_machine, hart_stack_top, PER_HART_STACK_SIZE, SBI_STACK_SIZE, SUPERVISOR_ENTRY,
};
use nezha_sbi::delegation::{configure_delegation, MEDELEG_MASK, MIDELEG_MASK, MIE_MSIE};
use nezha_sbi::hart::{new_hart, ExecState, REG_A0, REG_A1, REG_SP};
use nezha_sbi::pmp::{configure_pmp, pmp_regions, PMP_R, PMP_W, PMP_X};

const DTB_ADDR: u64 = 0x4180_0000;
const STACK_BASE: u64 = 0x4001_0000;

#[test]
fn stack_regions_disjoint_with_exact_capacity() {
    let base: u64 = 0x4000_8000;
    let mut tops = Vec::new();
    for id in 0..4u64 {
        tops.push(hart_stack_top(base, id));
    }
    // each span is exactly the configured capacity, and spans do not overlap:
    // hart i owns [top - capacity, top), and the next span starts at top.
    assert_eq!(tops[0], base + PER_HART_STACK_SIZE);
    for id in 0..4usize {
        let top = tops[id];
        let lo = top - PER_HART_STACK_SIZE;
        assert_eq!(lo, base + id as u64 * PER_HART_STACK_SIZE);
        if id > 0 {
            assert_eq!(lo, tops[id - 1]);
        }
    }
    // all four spans fit the reservation
    assert!(tops[3] <= base + SBI_STACK_SIZE);
}

#[test]
fn pmp_regions_cover_declared_range_without_overlap() {
    let t = pmp_regions();
    assert_eq!(t.len(), 4);
    // contiguous ascending spans: no overlap, no hole
    assert_eq!(t[0].base, 0);
    for i in 1..4 {
        assert_eq!(t[i].base, t[i - 1].top);
        assert!(t[i].base < t[i].top);
    }
    // union is exactly the declared physical range
    assert_eq!(t[3].top, 0xC000_0000);
    // only RAM grants the supervisor access, and it grants read/write/execute
    let rwx = PMP_R | PMP_W | PMP_X;
    assert_eq!(t[0].cfg & rwx, 0);
    assert_eq!(t[1].cfg & rwx, 0);
    assert_eq!(t[2].cfg & rwx, rwx);
    assert_eq!(t[3].cfg & rwx, 0);
    // the supervisor entry point lies in RAM
    assert!(t[2].base <= SUPERVISOR_ENTRY && SUPERVISOR_ENTRY < t[2].top);
}

#[test]
fn pmp_csr_encoding_exact() {
    let mut h = new_hart(0);
    configure_pmp(&mut h);
    let first = (h.pmpcfg0, h.pmpaddr0, h.pmpaddr1, h.pmpaddr2, h.pmpaddr3);
    // the layout is constant, so programming again is idempotent
    configure_pmp(&mut h);
    assert_eq!(first, (h.pmpcfg0, h.pmpaddr0, h.pmpaddr1, h.pmpaddr2, h.pmpaddr3));
    assert_eq!(h.pmpcfg0, 0x080F_8888);
    assert_eq!(h.pmpaddr0, 0x4000_0000 / 4);
    assert_eq!(h.pmpaddr1, 0x4002_0000 / 4);
    assert_eq!(h.pmpaddr2, 0x8000_0000 / 4);
    assert_eq!(h.pmpaddr3, 0xC000_0000 / 4);
}

#[test]
fn delegation_mask_exact_and_identical_across_harts() {
    let mut a = new_hart(0);
    let mut b = new_hart(3);
    configure_delegation(&mut a);
    configure_delegation(&mut b);
    // exact mask value for this build configuration
    assert_eq!(a.mideleg, 0x222);
    assert_eq!(a.medeleg, 0x109);
    assert_eq!(MIDELEG_MASK, 0x222);
    assert_eq!(MEDELEG_MASK, 0x109);
    // identical on every hart
    assert_eq!(a.mideleg, b.mideleg);
    assert_eq!(a.medeleg, b.medeleg);
    // the inter-hart signal is enabled
    assert_eq!(a.mie & MIE_MSIE, MIE_MSIE);
}

#[test]
fn boot_four_harts_runs_global_init_once() {
    let m = boot_machine(4, STACK_BASE, SUPERVISOR_ENTRY, DTB_ADDR);
    assert_eq!(m.globals.init_runs, 1);
    assert!(m.globals.init_done);
    assert_eq!(m.harts.len(), 4);
    for (i, h) in m.harts.iter().enumerate() {
        assert_eq!(h.hart_id, i as u64);
        assert_eq!(h.exec_state, ExecState::InSupervisor);
        assert_eq!(h.regs[REG_A0], i as u64);
        assert_eq!(h.regs[REG_A1], DTB_ADDR);
        assert_eq!(h.mepc, SUPERVISOR_ENTRY);
        assert_eq!(h.regs[REG_SP], hart_stack_top(STACK_BASE, i as u64));
        assert!(!h.failed);
    }
}

#[test]
fn boot_single_hart() {
    let m = boot_machine(1, STACK_BASE, SUPERVISOR_ENTRY, DTB_ADDR);
    assert_eq!(m.globals.init_runs, 1);
    assert_eq!(m.harts.len(), 1);
    assert_eq!(m.harts[0].exec_state, ExecState::InSupervisor);
}
