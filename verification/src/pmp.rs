//! Static physical-memory-protection layout.
//!
//! Exactly four regions, fixed by the platform memory map and programmed into
//! every hart before supervisor code runs: the machine-mode device window
//! (locked away from the supervisor), the firmware image (locked,
//! inaccessible), general RAM (open to the supervisor), and a boundary region
//! marking the end of the physical map.  The regions are contiguous
//! top-of-range entries, so they cannot overlap and together cover the
//! declared physical range exactly.

use vstd::prelude::*;
use crate::hart::Hart;

verus! {

/// Read permission bit in a region's configuration byte.
pub const PMP_R: u64 = 0x1;

/// Write permission bit.
pub const PMP_W: u64 = 0x2;

/// Execute permission bit.
pub const PMP_X: u64 = 0x4;

/// Address-matching field set to top-of-range: the entry covers the span from
/// the previous entry's boundary up to its own.
pub const PMP_A_TOR: u64 = 0x8;

/// Lock bit: the entry also binds machine mode and cannot be rewritten.
pub const PMP_L: u64 = 0x80;

/// Start of the firmware image; also the end of the device window.
pub const FIRMWARE_BASE: u64 = 0x4000_0000;

/// End of the firmware image; general RAM and the supervisor entry point
/// begin here.
pub const FIRMWARE_TOP: u64 = 0x4002_0000;

/// End of general RAM.
pub const RAM_TOP: u64 = 0x8000_0000;

/// End of the platform's declared physical range.
pub const PHYS_TOP: u64 = 0xC000_0000;

/// The role a protection region plays in the platform map.
#[derive(Clone, Copy, PartialEq, Eq, Structural, Debug)]
pub enum RegionKind {
    /// Machine-mode device window: locked, inaccessible from the supervisor.
    DeviceGap,
    /// Firmware code and data: locked, inaccessible from the supervisor.
    Firmware,
    /// General RAM: readable, writable and executable by the supervisor.
    Ram,
    /// Boundary past the end of RAM: no access, marks the physical limit.
    Boundary,
}

/// One protection region: a half-open address span and the configuration
/// byte programmed for it.
#[derive(Clone, Copy, PartialEq, Eq, Structural, Debug)]
pub struct PmpRegion {
    /// Role in the platform map.
    pub kind: RegionKind,
    /// First address covered.
    pub base: u64,
    /// First address past the region.
    pub top: u64,
    /// Configuration byte: permission bits, address-matching field, lock bit.
    pub cfg: u64,
}

/// The fixed four-region table, in ascending address order.
pub open spec fn region_table() -> Seq<PmpRegion> {
    seq![
        PmpRegion { kind: RegionKind::DeviceGap, base: 0, top: FIRMWARE_BASE, cfg: PMP_A_TOR | PMP_L },
        PmpRegion { kind: RegionKind::Firmware, base: FIRMWARE_BASE, top: FIRMWARE_TOP, cfg: PMP_A_TOR | PMP_L },
        PmpRegion {
            kind: RegionKind::Ram,
            base: FIRMWARE_TOP,
            top: RAM_TOP,
            cfg: PMP_A_TOR | PMP_R | PMP_W | PMP_X,
        },
        PmpRegion { kind: RegionKind::Boundary, base: RAM_TOP, top: PHYS_TOP, cfg: PMP_A_TOR },
    ]
}

/// The region table as a value, for the backend and for callers that walk it.
pub fn pmp_regions() -> (t: Vec<PmpRegion>)
    ensures
        t@ == region_table(),
{
    let mut t: Vec<PmpRegion> = Vec::new();
    t.push(PmpRegion { kind: RegionKind::DeviceGap, base: 0, top: FIRMWARE_BASE, cfg: PMP_A_TOR | PMP_L });
    t.push(PmpRegion {
        kind: RegionKind::Firmware,
        base: FIRMWARE_BASE,
        top: FIRMWARE_TOP,
        cfg: PMP_A_TOR | PMP_L,
    });
    t.push(PmpRegion {
        kind: RegionKind::Ram,
        base: FIRMWARE_TOP,
        top: RAM_TOP,
        cfg: PMP_A_TOR | PMP_R | PMP_W | PMP_X,
    });
    t.push(PmpRegion { kind: RegionKind::Boundary, base: RAM_TOP, top: PHYS_TOP, cfg: PMP_A_TOR });
    proof {
        assert(t@ =~= region_table());
    }
    t
}

/// Configuration byte of entry `i` inside a packed configuration register.
pub open spec fn cfg_entry(cfg: u64, i: u64) -> u64 {
    (cfg >> (8 * i)) & 0xFF
}

/// A hart whose protection registers carry the fixed layout: each boundary
/// register holds the region's top in four-byte units, and each packed
/// configuration byte is the region's configuration byte.
pub open spec fn pmp_configured(h: Hart) -> bool {
    &&& h.pmpaddr0 == region_table()[0].top / 4
    &&& h.pmpaddr1 == region_table()[1].top / 4
    &&& h.pmpaddr2 == region_table()[2].top / 4
    &&& h.pmpaddr3 == region_table()[3].top / 4
    &&& forall|i: u64| i < 4 ==> cfg_entry(h.pmpcfg0, i) == region_table()[i as int].cfg
}

/// Program this hart's protection registers with the fixed four-region
/// layout.  Touches nothing else.  Runs once per hart at boot; the layout is
/// constant, so a second run would write the same values.
pub fn configure_pmp(h: &mut Hart)
    ensures
        *final(h) == (Hart {
            pmpcfg0: final(h).pmpcfg0,
            pmpaddr0: final(h).pmpaddr0,
            pmpaddr1: final(h).pmpaddr1,
            pmpaddr2: final(h).pmpaddr2,
            pmpaddr3: final(h).pmpaddr3,
            ..*old(h)
        }),
        pmp_configured(*final(h)),
{
    // Packed bytes, entry 0 in the low byte: device gap, firmware, RAM,
    // boundary.
    h.pmpcfg0 = 0x080F_8888;
    h.pmpaddr0 = FIRMWARE_BASE / 4;
    h.pmpaddr1 = FIRMWARE_TOP / 4;
    h.pmpaddr2 = RAM_TOP / 4;
    h.pmpaddr3 = PHYS_TOP / 4;
    proof {
        assert((PMP_A_TOR | PMP_L == 0x88u64) && (PMP_A_TOR | PMP_R | PMP_W | PMP_X == 0x0Fu64)
            && (PMP_A_TOR == 0x08u64)) by (bit_vector);
        assert forall|i: u64| i < 4 implies cfg_entry(0x080F_8888u64, i) == region_table()[i as int].cfg by {
            assert(
                ((0x080F_8888u64 >> (8 * 0)) & 0xFF == 0x88) && ((0x080F_8888u64 >> (8 * 1)) & 0xFF == 0x88)
                    && ((0x080F_8888u64 >> (8 * 2)) & 0xFF == 0x0F) && ((0x080F_8888u64 >> (8 * 3)) & 0xFF
                    == 0x08)
            ) by (bit_vector);
        }
    }
}

/// The programmed boundary registers decode back to the table bit-exactly:
/// every region top is four-byte aligned, so scaling a register by four
/// recovers the top it was computed from.
pub proof fn lemma_pmp_addrs_decode(h: Hart)
    requires
        pmp_configured(h),
    ensures
        h.pmpaddr0 * 4 == region_table()[0].top,
        h.pmpaddr1 * 4 == region_table()[1].top,
        h.pmpaddr2 * 4 == region_table()[2].top,
        h.pmpaddr3 * 4 == region_table()[3].top,
{
}

/// The four regions are pairwise disjoint, and each spans exactly the gap
/// between its bounds.
pub proof fn lemma_pmp_regions_disjoint(i: int, j: int)
    requires
        0 <= i < 4,
        0 <= j < 4,
        i != j,
    ensures
        region_table()[i].top <= region_table()[j].base || region_table()[j].top <= region_table()[i].base,
        region_table()[i].base < region_table()[i].top,
{
}

/// Together the four regions cover the platform's declared physical range
/// exactly: an address lies in some region if and only if it lies below the
/// declared top.
pub proof fn lemma_pmp_regions_cover(addr: u64)
    ensures
        (addr < PHYS_TOP) <==> exists|i: int|
            0 <= i < 4 && (#[trigger] region_table()[i].base) <= addr < region_table()[i].top,
{
    if addr < PHYS_TOP {
        if addr < FIRMWARE_BASE {
            assert(region_table()[0].base <= addr < region_table()[0].top);
        } else if addr < FIRMWARE_TOP {
            assert(region_table()[1].base <= addr < region_table()[1].top);
        } else if addr < RAM_TOP {
            assert(region_table()[2].base <= addr < region_table()[2].top);
        } else {
            assert(region_table()[3].base <= addr < region_table()[3].top);
        }
    }
}

/// Only the RAM region grants the supervisor any access, and it grants read,
/// write and execute; the other three grant nothing.
pub proof fn lemma_supervisor_access(i: int)
    requires
        0 <= i < 4,
    ensures
        region_table()[i].cfg & (PMP_R | PMP_W | PMP_X) != 0 <==> region_table()[i].kind == RegionKind::Ram,
        region_table()[i].kind == RegionKind::Ram ==> region_table()[i].cfg & (PMP_R | PMP_W | PMP_X) == (
        PMP_R | PMP_W | PMP_X),
{
    assert(((PMP_A_TOR | PMP_L) & (PMP_R | PMP_W | PMP_X) == 0) && ((PMP_A_TOR | PMP_R | PMP_W | PMP_X) & (
    PMP_R | PMP_W | PMP_X) == (PMP_R | PMP_W | PMP_X)) && (PMP_A_TOR & (PMP_R | PMP_W | PMP_X) == 0) && (PMP_R
        | PMP_W | PMP_X != 0)) by (bit_vector);
}

} // verus!
