//! Delegation policy: which trap causes are hardware-delegated to the
//! supervisor and which the firmware retains.
//!
//! The policy is a pair of constant masks, programmed once per hart.  The
//! firmware retains every cause it has a dispatch rule for: the supervisor
//! ecall path, the illegal-instruction path behind timer emulation, the page
//! faults it re-synthesizes, the access and alignment faults it reflects, and
//! the machine software interrupt used for inter-hart signaling.

use vstd::prelude::*;
use crate::dispatch::{spec_classify, Rule, TrapRecord};
use crate::hart::Hart;

verus! {

/// Interrupt causes delegated to the supervisor: supervisor software (bit 1),
/// supervisor timer (bit 5) and supervisor external (bit 9) interrupts.
pub const MIDELEG_MASK: u64 = (1u64 << 1) | (1u64 << 5) | (1u64 << 9);

/// Exception causes delegated to the supervisor: misaligned instruction fetch
/// (bit 0), breakpoint (bit 3) and user-mode ecall (bit 8).
pub const MEDELEG_MASK: u64 = (1u64 << 0) | (1u64 << 3) | (1u64 << 8);

/// Machine interrupt-enable bit for the machine software interrupt (bit 3),
/// the inter-hart signal the firmware forwards.
pub const MIE_MSIE: u64 = 1u64 << 3;

/// Whether a cause is hardware-delegated under the fixed policy: causes at or
/// beyond the mask width are never delegated.
pub open spec fn cause_delegated(is_interrupt: bool, code: u64) -> bool {
    if code < 64 {
        if is_interrupt {
            (MIDELEG_MASK >> code) & 1 == 1
        } else {
            (MEDELEG_MASK >> code) & 1 == 1
        }
    } else {
        false
    }
}

/// A hart whose delegation registers carry the fixed policy.
pub open spec fn delegation_configured(h: Hart) -> bool {
    &&& h.mideleg == MIDELEG_MASK
    &&& h.medeleg == MEDELEG_MASK
    &&& h.mie & MIE_MSIE == MIE_MSIE
}

/// Program this hart's delegation registers with the fixed policy and enable
/// the inter-hart software interrupt.  Touches nothing else.
pub fn configure_delegation(h: &mut Hart)
    ensures
        *final(h) == (Hart {
            mideleg: MIDELEG_MASK,
            medeleg: MEDELEG_MASK,
            mie: old(h).mie | MIE_MSIE,
            ..*old(h)
        }),
        delegation_configured(*final(h)),
{
    h.mideleg = MIDELEG_MASK;
    h.medeleg = MEDELEG_MASK;
    h.mie = h.mie | MIE_MSIE;
    proof {
        let m = old(h).mie;
        assert((m | MIE_MSIE) & MIE_MSIE == MIE_MSIE) by (bit_vector);
    }
}

/// A cause the dispatch has a rule for is never hardware-delegated: the
/// policy retains every cause some firmware behavior depends on
/// intercepting, so no handled trap is stolen by the delegation hardware.
pub proof fn lemma_handled_causes_retained(r: TrapRecord)
    requires
        spec_classify(r) != Rule::Fatal,
    ensures
        !cause_delegated(r.is_interrupt, r.code),
{
    let c = r.code;
    if r.is_interrupt {
        assert(c == 3 ==> (MIDELEG_MASK >> c) & 1 != 1) by (bit_vector);
    } else {
        assert((c == 1 || c == 2 || c == 4 || c == 5 || c == 6 || c == 7 || c == 9 || c == 12 || c == 13
            || c == 15) ==> (MEDELEG_MASK >> c) & 1 != 1) by (bit_vector);
    }
}

/// The policy is identical on every hart: two configured harts carry the same
/// masks, whatever else differs between them.
pub proof fn lemma_delegation_identical(a: Hart, b: Hart)
    requires
        delegation_configured(a),
        delegation_configured(b),
    ensures
        a.mideleg == b.mideleg,
        a.medeleg == b.medeleg,
{
}

} // verus!
