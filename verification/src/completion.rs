//! Completion engine: acknowledgement of the pending interrupt and the
//! two-phase (priority-drop then explicit deactivate) completion sequence
//! the architecture requires when end-of-interrupt handling is split.

use vstd::prelude::*;
use crate::regs::{GicAction, GicRegisters, same_control};

verus! {

/// Acknowledge values at or above this are the architected spurious markers:
/// no real interrupt is pending.
pub const SPURIOUS_ID_FLOOR: u64 = 0x3fe;

/// Read the interrupt-acknowledge register: `None` for the spurious markers
/// (0x3fe and 0x3ff, and everything above), the pending identifier otherwise.
pub fn pending_irq(regs: &GicRegisters) -> (r: Option<u64>)
    ensures
        regs.iar >= 0x3fe ==> r is None,
        regs.iar < 0x3fe ==> r == Some(regs.iar),
{
    let iar: u64 = regs.iar;
    if iar >= SPURIOUS_ID_FLOOR {
        // spurious: expected, frequent, silently ignored
        None
    } else {
        Some(iar)
    }
}

/// Complete an interrupt at the physical layer: write the priority-drop
/// register, and, for the software-generated range only, additionally write
/// the explicit-deactivation register. Peripheral interrupts injected by this
/// layer rely on hardware-mapped auto-deactivation instead, so they get the
/// priority drop alone.
pub fn deactivate_irq(regs: &mut GicRegisters, irq_id: u64)
    ensures
        same_control(*old(regs), *final(regs)),
        final(regs).lr@ == old(regs).lr@,
        irq_id < 16 ==> final(regs).trace@ == old(regs).trace@.push(
            GicAction::PriorityDrop(irq_id),
        ).push(GicAction::Deactivate(irq_id)),
        irq_id >= 16 ==> final(regs).trace@ == old(regs).trace@.push(
            GicAction::PriorityDrop(irq_id),
        ),
{
    regs.trace.push(GicAction::PriorityDrop(irq_id));
    if irq_id < 16 {
        regs.trace.push(GicAction::Deactivate(irq_id));
    }
}

} // verus!
