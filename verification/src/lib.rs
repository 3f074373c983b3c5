//! Per-core interrupt-virtualization layer for a GICv3-style interrupt
//! controller.
//!
//! The layer brings a core's CPU interface from reset into a state where
//! physical interrupts can be intercepted and virtual interrupts presented to
//! a guest, maintains the fixed-size list-register table of in-flight virtual
//! interrupts, classifies every interrupt the core receives, and performs the
//! two-phase (priority-drop then deactivate) completion the architecture
//! requires for split end-of-interrupt handling.
//!
//! The per-core registers themselves are banked by the hardware and accessed
//! through single-register reads and writes; here they are modelled by the
//! explicit register file [`regs::GicRegisters`], so that every routine's
//! effect on the hardware state is stated in its contract and an in-memory
//! register file can stand in for the real one. Writes to the two write-only
//! completion registers, and the calls into the hypervisor's collaborators,
//! are recorded as a trace of [`regs::GicAction`] values in the order they
//! are issued.


pub mod classifier;
pub mod completion;
pub mod dispatch;
pub mod facade;
pub mod inject;
pub mod lifecycle;
pub mod regs;
