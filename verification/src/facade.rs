//! Controller facade: the aggregate of the distributor and redistributor
//! handles, immutable after construction.
//!
//! The two memory-mapped regions themselves belong to external collaborators;
//! this layer keeps their physical base addresses and the per-core affinity
//! value the redistributor reports, which callers outside this core use to
//! identify the core in controller terms.

use vstd::prelude::*;

verus! {

/// Size of the distributor's memory-mapped region.
pub const GICD_SIZE: u64 = 0x10000;

/// Size of one redistributor frame.
pub const GICR_SIZE: u64 = 0x20000;

/// The shared-peripheral identifier reserved for hypervisor-internal
/// signalling toward a guest.
pub const IRQHVI: usize = 32 + 0x20;

/// Representation of the GIC: the distributor and the per-core CPU
/// interface.
pub struct GICv3 {
    /// Physical base address of the distributor region.
    pub gicd_base: usize,
    /// Physical base address of this core's redistributor region.
    pub gicr_base: usize,
    /// The affinity value this core's redistributor reports, read once at
    /// construction.
    pub aff: u64,
}

impl GICv3 {
    /// Build the facade from the two region base addresses, as the system
    /// configuration supplies them, and the redistributor's affinity value.
    /// The caller must provide correct memory-mapped region start addresses.
    pub fn new(gicd_mmio_start_addr: usize, gicr_mmio_start_addr: usize, aff: u64) -> (r: GICv3)
        ensures
            r.gicd_base == gicd_mmio_start_addr,
            r.gicr_base == gicr_mmio_start_addr,
            r.aff == aff,
    {
        GICv3 { gicd_base: gicd_mmio_start_addr, gicr_base: gicr_mmio_start_addr, aff }
    }

    /// This core's controller-level identity: the affinity the redistributor
    /// reports.
    pub fn read_aff(&self) -> (r: u64)
        ensures
            r == self.aff,
    {
        self.aff
    }
}

} // verus!
