//! CPU-interface lifecycle manager: per-core initialization at boot, and the
//! diagnostic read-back at teardown.
//!
//! Initialization configures split end-of-interrupt handling, opens the
//! priority mask, enables group-1 signalling, clears every list-register
//! slot and the implemented active-priority registers, arms the virtual CPU
//! interface from the previously read priority mask, and finally sets the
//! master virtualization enable. Each write is an irreversible hardware
//! state change; group 1 is enabled before the virtual interface is armed.

use vstd::prelude::*;
use crate::regs::{GicRegisters, lemma_empty_slot_is_free, lr_count_exec, write_lr};

verus! {

/// Completion-mode setting: priority drop and deactivation are separate
/// steps for group-1 interrupts (the EOImode bit of ICC_CTLR_EL1).
pub const CTLR_SPLIT_EOI: u64 = 0x2;

/// Priority-mask threshold programmed at initialization; lets most
/// priorities through.
pub const PMR_DEFAULT: u64 = 0xf0;

/// The virtual-interface control value initialization writes: the virtual
/// priority mask is the low byte of the previously read physical mask
/// shifted into its field, with virtual group-1 enable (bit 1) and virtual
/// split end-of-interrupt mode (bit 9) set, matching the physical setting.
pub open spec fn vmcr_value(pmr: u64) -> u64 {
    ((pmr & 0xff) << 24) | (1u64 << 1) | (1u64 << 9)
}

/// Implemented priority bits, as the capability register reports them
/// (bits 31..29, minus-one encoded).
pub open spec fn priority_bits(vtr: u64) -> int {
    (vtr >> 29) as int + 1
}

/// Clear every implemented list-register slot and the implemented
/// active-priority tracking registers: one register for 5 implemented
/// priority bits, two for 6, four for more.
pub fn gicv3_clear_pending_irqs(regs: &mut GicRegisters)
    requires
        old(regs).lr@.len() == old(regs).lr_count(),
    ensures
        final(regs).wf(),
        final(regs).vtr == old(regs).vtr,
        final(regs).ctlr == old(regs).ctlr,
        final(regs).pmr == old(regs).pmr,
        final(regs).igrpen1 == old(regs).igrpen1,
        final(regs).vmcr == old(regs).vmcr,
        final(regs).hcr == old(regs).hcr,
        final(regs).iar == old(regs).iar,
        final(regs).trace@ == old(regs).trace@,
        final(regs).lr@.len() == old(regs).lr@.len(),
        forall|i: int| 0 <= i < final(regs).lr@.len() ==> final(regs).lr@[i] == 0,
        priority_bits(old(regs).vtr) >= 5 ==> final(regs).ap1r0 == 0,
        priority_bits(old(regs).vtr) < 5 ==> final(regs).ap1r0 == old(regs).ap1r0,
        priority_bits(old(regs).vtr) >= 6 ==> final(regs).ap1r1 == 0,
        priority_bits(old(regs).vtr) < 6 ==> final(regs).ap1r1 == old(regs).ap1r1,
        priority_bits(old(regs).vtr) > 6 ==> final(regs).ap1r2 == 0 && final(regs).ap1r3 == 0,
        priority_bits(old(regs).vtr) <= 6 ==> final(regs).ap1r2 == old(regs).ap1r2 && final(regs).ap1r3 == old(regs).ap1r3,
{
    let n: usize = lr_count_exec(regs);
    for i in 0..n
        invariant
            n == regs.lr_count(),
            regs.lr@.len() == n,
            regs.vtr == old(regs).vtr,
            regs.ctlr == old(regs).ctlr,
            regs.pmr == old(regs).pmr,
            regs.igrpen1 == old(regs).igrpen1,
            regs.vmcr == old(regs).vmcr,
            regs.hcr == old(regs).hcr,
            regs.iar == old(regs).iar,
            regs.ap1r0 == old(regs).ap1r0,
            regs.ap1r1 == old(regs).ap1r1,
            regs.ap1r2 == old(regs).ap1r2,
            regs.ap1r3 == old(regs).ap1r3,
            regs.trace@ == old(regs).trace@,
            forall|j: int| 0 <= j < i ==> regs.lr@[j] == 0,
    {
        write_lr(regs, i, 0);
    }
    let vtr: u64 = regs.vtr;
    proof {
        assert(vtr >> 29 <= 0xFFFF_FFFF_Fu64) by (bit_vector);
    }
    let num_priority_bits: u64 = (vtr >> 29) + 1;
    // Clear active priority bits
    if num_priority_bits >= 5 {
        regs.ap1r0 = 0;
    }
    if num_priority_bits >= 6 {
        regs.ap1r1 = 0;
    }
    if num_priority_bits > 6 {
        regs.ap1r2 = 0;
        regs.ap1r3 = 0;
    }
    proof {
        lemma_empty_slot_is_free();
    }
}

/// Bring this core's CPU interface from reset to the active state.
///
/// Runs once per core at boot; idempotent when repeated from a clean state.
pub fn gicv3_cpu_init(regs: &mut GicRegisters)
    requires
        old(regs).lr@.len() == old(regs).lr_count(),
    ensures
        final(regs).wf(),
        final(regs).vtr == old(regs).vtr,
        final(regs).iar == old(regs).iar,
        final(regs).trace@ == old(regs).trace@,
        final(regs).ctlr == CTLR_SPLIT_EOI,
        final(regs).pmr == PMR_DEFAULT,
        final(regs).igrpen1 == 1,
        final(regs).lr@.len() == old(regs).lr@.len(),
        forall|i: int| 0 <= i < final(regs).lr@.len() ==> final(regs).lr@[i] == 0,
        priority_bits(old(regs).vtr) >= 5 ==> final(regs).ap1r0 == 0,
        priority_bits(old(regs).vtr) < 5 ==> final(regs).ap1r0 == old(regs).ap1r0,
        priority_bits(old(regs).vtr) >= 6 ==> final(regs).ap1r1 == 0,
        priority_bits(old(regs).vtr) < 6 ==> final(regs).ap1r1 == old(regs).ap1r1,
        priority_bits(old(regs).vtr) > 6 ==> final(regs).ap1r2 == 0 && final(regs).ap1r3 == 0,
        priority_bits(old(regs).vtr) <= 6 ==> final(regs).ap1r2 == old(regs).ap1r2 && final(regs).ap1r3 == old(regs).ap1r3,
        final(regs).vmcr == vmcr_value(old(regs).pmr),
        final(regs).hcr == 1,
{
    // Make the end-of-interrupt register provide priority drop only; the
    // deactivation register then provides explicit deactivation.
    regs.ctlr = CTLR_SPLIT_EOI;
    // Save the reset-time priority mask for the virtual interface, then set
    // the threshold that lets most priorities through.
    let pmr: u64 = regs.pmr;
    regs.pmr = PMR_DEFAULT;
    // Enable group-1 interrupt signalling to the core.
    regs.igrpen1 = 0x1;
    // Empty the list-register table and the active-priority tracking.
    gicv3_clear_pending_irqs(regs);
    // Arm the virtual CPU interface: virtual priority mask from the saved
    // physical mask, virtual group-1 enable, virtual split-EOI mode.
    let vmcr: u64 = ((pmr & 0xff) << 24) | (1u64 << 1) | (1u64 << 9);
    regs.vmcr = vmcr;
    // Master virtualization enable.
    regs.hcr = 0x1;
}

/// Diagnostic read-back at core teardown: the control, priority-mask and
/// hypervisor-control registers, in that order. The controller is not
/// restored to its reset-time configuration.
pub fn gicv3_cpu_shutdown(regs: &GicRegisters) -> (r: (u64, u64, u64))
    ensures
        r.0 == regs.ctlr,
        r.1 == regs.pmr,
        r.2 == regs.hcr,
{
    (regs.ctlr, regs.pmr, regs.hcr)
}

} // verus!
