//! In-memory model of the per-core CPU-interface and virtualization-control
//! registers, and the list-register table manager.
//!
//! The hardware banks these registers per core and accesses are atomic at
//! single-register granularity, so one value per register is an exact model
//! of what a core observes. Two registers are write-only commands rather than
//! state (the priority-drop and explicit-deactivate registers); writes to
//! them, together with the collaborator invocations the dispatch entry point
//! makes, are recorded in order in the `trace` field.

use vstd::prelude::*;
use vstd::pervasive::VecAdditionalExecFns;

verus! {

/// Group-1 bit of an encoded list-register value.
pub const LR_GROUP1_BIT: u64 = 0x1000_0000_0000_0000;

/// Hardware-mapped bit of an encoded list-register value. When set, the
/// physical controller auto-deactivates the physical interrupt named by the
/// physical-identifier field when the guest deactivates the virtual one.
pub const LR_HW_BIT: u64 = 0x2000_0000_0000_0000;

/// Pending-state bit: the only state this layer ever writes. The Active and
/// Pending-and-Active states are hardware-driven transitions observed, never
/// set, by software.
pub const LR_PENDING_BIT: u64 = 0x4000_0000_0000_0000;

/// Mask of the two state bits; a slot whose state field is clear is empty.
pub const LR_STATE_MASK: u64 = 0xC000_0000_0000_0000;

/// Mask of the virtual-identifier field (the low 32 bits).
pub const LR_VIRTID_MASK: u64 = 0xFFFF_FFFF;

/// Mask of the physical-identifier field once shifted down to bit 0
/// (the field occupies bits 44..=32 of the encoded value).
pub const LR_PHYSID_MASK: u64 = 0x1FFF;

/// One externally visible action issued while handling interrupts: the two
/// completion-register writes, and the two collaborator invocations made on
/// behalf of hypervisor-internal signalling interrupts.
#[derive(Clone, Copy, Debug, PartialEq, Eq, Structural)]
pub enum GicAction {
    /// Write of an identifier to the priority-drop register (ICC_EOIR1_EL1),
    /// ending the interrupt's priority effect.
    PriorityDrop(u64),
    /// Write of an identifier to the explicit-deactivation register
    /// (ICC_DIR_EL1).
    Deactivate(u64),
    /// Invocation of the cross-core event-check collaborator.
    CheckEvents,
    /// Invocation of the virtio-completion collaborator.
    HandleVirtioResult,
}

/// Failures this layer reports to its callers instead of halting the core.
#[derive(Clone, Copy, Debug, PartialEq, Eq, Structural)]
pub enum GicError {
    /// No free list-register slot was available at injection time: the bound
    /// of concurrently in-flight virtual interrupts was about to be exceeded.
    ListRegisterExhausted,
}

/// The per-core register file.
///
/// `vtr` is the read-only capability register (ICH_VTR_EL2): its low four
/// bits encode the implemented list-register count minus one, and bits 31..29
/// the implemented priority bits minus one. `iar` holds the value the next
/// read of the interrupt-acknowledge register (ICC_IAR1_EL1) returns; values
/// at or above 0x3fe are the architected spurious markers. The remaining
/// named fields are ordinary read-write control registers.
pub struct GicRegisters {
    /// Capability register (ICH_VTR_EL2); read-only to this layer.
    pub vtr: u64,
    /// Interrupt-controller control register (ICC_CTLR_EL1).
    pub ctlr: u64,
    /// Interrupt priority-mask register (ICC_PMR_EL1).
    pub pmr: u64,
    /// Group-1 enable register (ICC_IGRPEN1_EL1).
    pub igrpen1: u64,
    /// Virtual-machine control register (ICH_VMCR_EL2).
    pub vmcr: u64,
    /// Hypervisor control register (ICH_HCR_EL2); bit 0 is the master
    /// virtualization enable.
    pub hcr: u64,
    /// Active-priorities group-1 register 0 (ICH_AP1R0_EL2).
    pub ap1r0: u64,
    /// Active-priorities group-1 register 1 (ICH_AP1R1_EL2).
    pub ap1r1: u64,
    /// Active-priorities group-1 register 2 (ICH_AP1R2_EL2).
    pub ap1r2: u64,
    /// Active-priorities group-1 register 3 (ICH_AP1R3_EL2).
    pub ap1r3: u64,
    /// What the next interrupt-acknowledge read (ICC_IAR1_EL1) returns.
    pub iar: u64,
    /// The list-register table (ICH_LR<n>_EL2), one encoded value per
    /// implemented slot.
    pub lr: Vec<u64>,
    /// Ordered record of completion-register writes and collaborator
    /// invocations.
    pub trace: Vec<GicAction>,
}

/// A slot is free when its state field is clear; the hardware reports exactly
/// this in the empty-list-status bitmap.
pub open spec fn slot_is_free(v: u64) -> bool {
    v & LR_STATE_MASK == 0
}

/// The virtual identifier an encoded slot value carries.
pub open spec fn slot_virtual_id(v: u64) -> u64 {
    v & LR_VIRTID_MASK
}

/// The physical identifier an encoded slot value carries (meaningful only
/// when the hardware-mapped bit is set).
pub open spec fn slot_physical_id(v: u64) -> u64 {
    (v >> 32) & LR_PHYSID_MASK
}

/// No two occupied slots carry the same virtual identifier: an interrupt is
/// in flight toward the guest through at most one list register.
pub open spec fn no_duplicate_pending(lrs: Seq<u64>, n: int) -> bool {
    forall|i: int, j: int|
        #![trigger lrs[i], lrs[j]]
        0 <= i < n && 0 <= j < n && i != j && !slot_is_free(lrs[i]) && !slot_is_free(lrs[j])
            ==> slot_virtual_id(lrs[i]) != slot_virtual_id(lrs[j])
}

/// Bit `i` of `x`.
pub open spec fn bit_set(x: u64, i: u64) -> bool {
    (x >> i) & 1 == 1
}

/// The control registers, acknowledge value and capability of `a` and `b`
/// agree; only the list registers and the trace may differ.
pub open spec fn same_control(a: GicRegisters, b: GicRegisters) -> bool {
    &&& a.vtr == b.vtr
    &&& a.ctlr == b.ctlr
    &&& a.pmr == b.pmr
    &&& a.igrpen1 == b.igrpen1
    &&& a.vmcr == b.vmcr
    &&& a.hcr == b.hcr
    &&& a.ap1r0 == b.ap1r0
    &&& a.ap1r1 == b.ap1r1
    &&& a.ap1r2 == b.ap1r2
    &&& a.ap1r3 == b.ap1r3
    &&& a.iar == b.iar
}

impl GicRegisters {
    /// Implemented list-register count: the capability register's low four
    /// bits plus one (so always between 1 and 16).
    pub open spec fn lr_count(self) -> int {
        (self.vtr & 0xf) as int + 1
    }

    /// Well-formedness: the table holds exactly the implemented slots, and no
    /// virtual identifier is in flight through two of them at once.
    pub open spec fn wf(self) -> bool {
        &&& self.lr.len() == self.lr_count()
        &&& no_duplicate_pending(self.lr@, self.lr_count())
    }

    /// A fresh register file with the given capability value: every control
    /// register zero, every implemented list-register slot empty, and the
    /// next acknowledge read spurious.
    pub fn new(vtr: u64) -> (r: GicRegisters)
        ensures
            r.wf(),
            r.vtr == vtr,
            r.ctlr == 0,
            r.pmr == 0,
            r.igrpen1 == 0,
            r.vmcr == 0,
            r.hcr == 0,
            r.ap1r0 == 0,
            r.ap1r1 == 0,
            r.ap1r2 == 0,
            r.ap1r3 == 0,
            r.iar == 0x3ff,
            r.lr@.len() == r.lr_count(),
            forall|i: int| 0 <= i < r.lr@.len() ==> r.lr@[i] == 0,
            r.trace@ == Seq::<GicAction>::empty(),
    {
        proof {
            assert(vtr & 0xf < 16) by (bit_vector);
        }
        let n: usize = ((vtr & 0xf) as usize) + 1;
        let mut lr: Vec<u64> = Vec::new();
        for k in 0..n
            invariant
                lr@.len() == k,
                forall|i: int| 0 <= i < k ==> lr@[i] == 0,
        {
            lr.push(0u64);
        }
        let r = GicRegisters {
            vtr,
            ctlr: 0,
            pmr: 0,
            igrpen1: 0,
            vmcr: 0,
            hcr: 0,
            ap1r0: 0,
            ap1r1: 0,
            ap1r2: 0,
            ap1r3: 0,
            iar: 0x3ff,
            lr,
            trace: Vec::new(),
        };
        proof {
            lemma_empty_slot_is_free();
        }
        r
    }
}

/// A cleared slot value is free.
pub proof fn lemma_empty_slot_is_free()
    ensures
        slot_is_free(0),
{
    assert(0u64 & 0xC000_0000_0000_0000 == 0) by (bit_vector);
}

/// Read one list-register slot. The index must address an implemented slot;
/// an out-of-range index is a contract violation, not a recoverable error.
pub fn read_lr(regs: &GicRegisters, id: usize) -> (r: u64)
    requires
        regs.lr@.len() == regs.lr_count(),
        id < regs.lr_count(),
    ensures
        r == regs.lr@[id as int],
{
    regs.lr[id]
}

/// Write one list-register slot. The index must address an implemented slot;
/// an out-of-range index is a contract violation, not a recoverable error.
pub fn write_lr(regs: &mut GicRegisters, id: usize, val: u64)
    requires
        old(regs).lr@.len() == old(regs).lr_count(),
        id < old(regs).lr_count(),
    ensures
        same_control(*old(regs), *final(regs)),
        final(regs).trace@ == old(regs).trace@,
        final(regs).lr@ == old(regs).lr@.update(id as int, val),
{
    regs.lr.set(id, val);
}

/// The empty-list-status bitmap (ICH_ELRSR_EL2): bit `i` is set iff
/// implemented slot `i` is free. This single query abstracts the hardware's
/// free-slot representation, so the injection scan does not depend on it.
pub fn read_elsr(regs: &GicRegisters) -> (r: u64)
    requires
        regs.lr@.len() == regs.lr_count(),
    ensures
        forall|i: int|
            0 <= i < regs.lr_count() ==> (bit_set(r, i as u64) <==> slot_is_free(regs.lr@[i])),
{
    let n: usize = lr_count_exec(regs);
    let mut r: u64 = 0;
    proof {
        assert forall|j: u64| j < 64 implies !bit_set(0u64, j) by {
            assert((0u64 >> j) & 1 == 0) by (bit_vector);
        }
    }
    for i in 0..n
        invariant
            n == regs.lr_count(),
            n <= 16,
            regs.lr@.len() == n,
            forall|j: int| 0 <= j < i ==> (bit_set(r, j as u64) <==> slot_is_free(regs.lr@[j])),
            forall|j: u64| i <= j < 64 ==> !bit_set(r, j),
    {
        let ghost r0 = r;
        if regs.lr[i] & LR_STATE_MASK == 0 {
            r = r | (1u64 << (i as u64));
            proof {
                lemma_or_bit_set(r0, i as u64);
                assert forall|j: u64| j < 64 && j != i implies bit_set(r, j) == bit_set(
                    r0,
                    j,
                ) by {
                    lemma_or_bit_other(r0, i as u64, j);
                }
            }
        } else {
            proof {
                assert(!slot_is_free(regs.lr@[i as int]));
            }
        }
    }
    r
}

/// Setting bit `i` by an or makes bit `i` read back set.
proof fn lemma_or_bit_set(r: u64, i: u64)
    by (bit_vector)
    requires
        i < 64,
    ensures
        ((r | (1u64 << i)) >> i) & 1 == 1,
{
}

/// Setting bit `i` by an or leaves every other bit unchanged.
proof fn lemma_or_bit_other(r: u64, i: u64, j: u64)
    by (bit_vector)
    requires
        i < 64,
        j < 64,
        i != j,
    ensures
        ((r | (1u64 << i)) >> j) & 1 == (r >> j) & 1,
{
}

/// The implemented list-register count, as executable code.
pub fn lr_count_exec(regs: &GicRegisters) -> (n: usize)
    ensures
        n == regs.lr_count(),
        1 <= n <= 16,
{
    let v: u64 = regs.vtr;
    proof {
        assert(v & 0xf < 16) by (bit_vector);
    }
    ((v & 0xf) as usize) + 1
}

} // verus!
