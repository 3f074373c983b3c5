//! Interrupt classifier: pure, total functions mapping a numeric interrupt
//! identifier to its architectural category by fixed numeric ranges.
//!
//! Software-generated interrupts (SGIs) occupy identifiers 0..16, private
//! peripheral interrupts (PPIs) 16..32, and shared peripheral interrupts
//! (SPIs) 32..1020. Identifiers at or above 1020 fall in none of the three
//! categories and are invalid for callers.

use vstd::prelude::*;

verus! {

pub open spec fn spec_is_sgi(irqn: u32) -> bool {
    irqn < 16
}

pub open spec fn spec_is_ppi(irqn: u32) -> bool {
    16 <= irqn && irqn < 32
}

pub open spec fn spec_is_spi(irqn: u32) -> bool {
    32 <= irqn && irqn < 1020
}

/// True iff the identifier names a software-generated interrupt.
#[verifier::when_used_as_spec(spec_is_sgi)]
pub fn is_sgi(irqn: u32) -> (r: bool)
    ensures
        r == spec_is_sgi(irqn),
{
    irqn < 16
}

/// True iff the identifier names a private peripheral interrupt.
#[verifier::when_used_as_spec(spec_is_ppi)]
pub fn is_ppi(irqn: u32) -> (r: bool)
    ensures
        r == spec_is_ppi(irqn),
{
    irqn > 15 && irqn < 32
}

/// True iff the identifier names a shared peripheral interrupt.
#[verifier::when_used_as_spec(spec_is_spi)]
pub fn is_spi(irqn: u32) -> (r: bool)
    ensures
        r == spec_is_spi(irqn),
{
    irqn > 31 && irqn < 1020
}

/// The three categories partition the architecturally valid identifier space:
/// every identifier below 1020 falls in exactly one of them, with no gaps and
/// no overlap.
pub proof fn lemma_categories_partition(irqn: u32)
    requires
        irqn < 1020,
    ensures
        spec_is_sgi(irqn) || spec_is_ppi(irqn) || spec_is_spi(irqn),
        !(spec_is_sgi(irqn) && spec_is_ppi(irqn)),
        !(spec_is_sgi(irqn) && spec_is_spi(irqn)),
        !(spec_is_ppi(irqn) && spec_is_spi(irqn)),
{
}

} // verus!
