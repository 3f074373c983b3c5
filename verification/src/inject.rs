//! Injection engine: find-or-reuse placement of a pending virtual interrupt
//! in the list-register table.
//!
//! One pass over the implemented slots keeps two accumulators: the first free
//! slot seen, and whether an occupied slot already carries the target
//! identifier. Re-injecting an identifier already in flight is a no-op, not
//! an error; exhaustion of the table is reported to the caller, who decides
//! whether to halt or to drop and report — the bound itself (in-flight
//! interrupts never exceed the slot count) is enforced here either way.

use vstd::prelude::*;
use crate::classifier::is_sgi;
use crate::regs::{
    GicError, GicRegisters, bit_set, no_duplicate_pending, read_elsr, read_lr, same_control,
    slot_is_free, slot_physical_id, slot_virtual_id, write_lr, LR_GROUP1_BIT, LR_HW_BIT,
    LR_PENDING_BIT, LR_VIRTID_MASK, lr_count_exec,
};

verus! {

/// The value the injection engine writes into a slot: the virtual identifier,
/// group 1, state pending; and, for a peripheral interrupt injected as
/// hardware-originated, the hardware-mapped bit with the physical identifier
/// stored alongside. Software-generated interrupts are never hardware-mapped,
/// whatever the flag says.
pub open spec fn encode_lr_value(irq_id: u64, is_hardware: bool) -> u64 {
    let base = irq_id | LR_GROUP1_BIT | LR_PENDING_BIT;
    if is_hardware && irq_id >= 16 {
        base | LR_HW_BIT | (irq_id << 32)
    } else {
        base
    }
}

/// Some occupied slot already carries this virtual identifier.
pub open spec fn in_flight(lrs: Seq<u64>, n: int, irq_id: u64) -> bool {
    exists|j: int|
        0 <= j < n && !slot_is_free(#[trigger] lrs[j]) && slot_virtual_id(lrs[j]) == irq_id
}

/// Some implemented slot is free.
pub open spec fn has_free_slot(lrs: Seq<u64>, n: int) -> bool {
    exists|j: int| 0 <= j < n && slot_is_free(#[trigger] lrs[j])
}

/// `f` is the lowest-numbered free slot.
pub open spec fn is_first_free_slot(lrs: Seq<u64>, n: int, f: int) -> bool {
    &&& 0 <= f < n
    &&& slot_is_free(lrs[f])
    &&& forall|j: int| 0 <= j < f ==> !slot_is_free(#[trigger] lrs[j])
}

/// What a slot value encoded for `irq_id` carries: the virtual identifier
/// itself and an occupied state; the hardware-mapped bit and the matching
/// physical identifier exactly for peripheral interrupts injected as
/// hardware-originated, and never for software-generated ones.
pub proof fn lemma_encode_fields(irq_id: u64, is_hardware: bool)
    requires
        irq_id < 0x3fe,
    ensures
        slot_virtual_id(encode_lr_value(irq_id, is_hardware)) == irq_id,
        !slot_is_free(encode_lr_value(irq_id, is_hardware)),
        encode_lr_value(irq_id, is_hardware) & LR_GROUP1_BIT != 0,
        is_hardware && irq_id >= 16 ==> encode_lr_value(irq_id, is_hardware) & LR_HW_BIT != 0
            && slot_physical_id(encode_lr_value(irq_id, is_hardware)) == irq_id,
        !(is_hardware && irq_id >= 16) ==> encode_lr_value(irq_id, is_hardware) & LR_HW_BIT == 0,
{
    if is_hardware && irq_id >= 16 {
        let v = (irq_id | 0x1000_0000_0000_0000u64 | 0x4000_0000_0000_0000u64)
            | 0x2000_0000_0000_0000u64 | (irq_id << 32);
        assert(encode_lr_value(irq_id, is_hardware) == v);
        assert(v & 0xFFFF_FFFFu64 == irq_id) by (bit_vector)
            requires
                v == (irq_id | 0x1000_0000_0000_0000u64 | 0x4000_0000_0000_0000u64)
                    | 0x2000_0000_0000_0000u64 | (irq_id << 32),
                irq_id < 0x3fe,
        ;
        assert(v & 0xC000_0000_0000_0000u64 != 0) by (bit_vector)
            requires
                v == (irq_id | 0x1000_0000_0000_0000u64 | 0x4000_0000_0000_0000u64)
                    | 0x2000_0000_0000_0000u64 | (irq_id << 32),
        ;
        assert(v & 0x1000_0000_0000_0000u64 != 0) by (bit_vector)
            requires
                v == (irq_id | 0x1000_0000_0000_0000u64 | 0x4000_0000_0000_0000u64)
                    | 0x2000_0000_0000_0000u64 | (irq_id << 32),
        ;
        assert(v & 0x2000_0000_0000_0000u64 != 0) by (bit_vector)
            requires
                v == (irq_id | 0x1000_0000_0000_0000u64 | 0x4000_0000_0000_0000u64)
                    | 0x2000_0000_0000_0000u64 | (irq_id << 32),
        ;
        assert((v >> 32) & 0x1FFFu64 == irq_id) by (bit_vector)
            requires
                v == (irq_id | 0x1000_0000_0000_0000u64 | 0x4000_0000_0000_0000u64)
                    | 0x2000_0000_0000_0000u64 | (irq_id << 32),
                irq_id < 0x3fe,
        ;
    } else {
        let v = irq_id | 0x1000_0000_0000_0000u64 | 0x4000_0000_0000_0000u64;
        assert(encode_lr_value(irq_id, is_hardware) == v);
        assert(v & 0xFFFF_FFFFu64 == irq_id) by (bit_vector)
            requires
                v == irq_id | 0x1000_0000_0000_0000u64 | 0x4000_0000_0000_0000u64,
                irq_id < 0x3fe,
        ;
        assert(v & 0xC000_0000_0000_0000u64 != 0) by (bit_vector)
            requires
                v == irq_id | 0x1000_0000_0000_0000u64 | 0x4000_0000_0000_0000u64,
        ;
        assert(v & 0x1000_0000_0000_0000u64 != 0) by (bit_vector)
            requires
                v == irq_id | 0x1000_0000_0000_0000u64 | 0x4000_0000_0000_0000u64,
        ;
        assert(v & 0x2000_0000_0000_0000u64 == 0) by (bit_vector)
            requires
                v == irq_id | 0x1000_0000_0000_0000u64 | 0x4000_0000_0000_0000u64,
                irq_id < 0x3fe,
        ;
    }
}

/// Law: injecting an identifier that is not yet in flight marks exactly one
/// slot — the first free one — as carrying it; the identifier is then in
/// flight, so a second injection of it without an intervening consumption
/// leaves the table unchanged by `inject_irq`'s contract, and exactly one
/// occupied slot carries the identifier.
pub proof fn lemma_inject_idempotent(
    pre: Seq<u64>,
    n: int,
    irq_id: u64,
    is_hardware: bool,
    f: int,
    post: Seq<u64>,
)
    requires
        n <= pre.len(),
        no_duplicate_pending(pre, n),
        irq_id < 0x3fe,
        !in_flight(pre, n, irq_id),
        is_first_free_slot(pre, n, f),
        post == pre.update(f, encode_lr_value(irq_id, is_hardware)),
    ensures
        in_flight(post, n, irq_id),
        forall|j: int|
            0 <= j < n ==> ((!slot_is_free(#[trigger] post[j]) && slot_virtual_id(post[j])
                == irq_id) <==> j == f),
{
    lemma_encode_fields(irq_id, is_hardware);
    assert forall|j: int| 0 <= j < n implies ((!slot_is_free(#[trigger] post[j])
        && slot_virtual_id(post[j]) == irq_id) <==> j == f) by {
        if j != f {
            assert(post[j] == pre[j]);
            if !slot_is_free(pre[j]) && slot_virtual_id(pre[j]) == irq_id {
                assert(in_flight(pre, n, irq_id));
            }
        }
    }
    assert(!slot_is_free(post[f]) && slot_virtual_id(post[f]) == irq_id);
}

/// Number of occupied slots among the first `n`.
pub open spec fn occupied_count(lrs: Seq<u64>, n: int) -> int
    decreases n,
{
    if n <= 0 {
        0
    } else {
        occupied_count(lrs, n - 1) + if slot_is_free(lrs[n - 1]) {
            0int
        } else {
            1int
        }
    }
}

/// The occupied-slot count of an `n`-slot table lies between 0 and `n`.
pub proof fn lemma_occupied_count_bounds(lrs: Seq<u64>, n: int)
    requires
        n >= 0,
    ensures
        0 <= occupied_count(lrs, n) <= n,
    decreases n,
{
    if n > 0 {
        lemma_occupied_count_bounds(lrs, n - 1);
    }
}

/// Tables that agree on their first `n` slots have the same occupied count.
proof fn lemma_occupied_count_congruence(a: Seq<u64>, b: Seq<u64>, n: int)
    requires
        n >= 0,
        forall|j: int| 0 <= j < n ==> a[j] == b[j],
    ensures
        occupied_count(a, n) == occupied_count(b, n),
    decreases n,
{
    if n > 0 {
        lemma_occupied_count_congruence(a, b, n - 1);
    }
}

/// Law: writing an occupied value into a free slot raises the occupied-slot
/// count by exactly one — so each successful fresh injection fills one more
/// slot, and `n` distinct injections into an empty `n`-slot table occupy
/// every slot.
pub proof fn lemma_inject_occupancy(pre: Seq<u64>, n: int, f: int, v: u64)
    requires
        n <= pre.len(),
        0 <= f < n,
        slot_is_free(pre[f]),
        !slot_is_free(v),
    ensures
        occupied_count(pre.update(f, v), n) == occupied_count(pre, n) + 1,
    decreases n,
{
    let post = pre.update(f, v);
    if n - 1 == f {
        lemma_occupied_count_congruence(pre, post, n - 1);
    } else {
        lemma_inject_occupancy(pre, n - 1, f, v);
        assert(post[n - 1] == pre[n - 1]);
    }
}

/// Law: a table with fewer occupied slots than implemented slots has a free
/// one, and a fully occupied table has none — so by `inject_irq`'s contract
/// an injection of a fresh identifier succeeds exactly until every slot is
/// occupied, and the next one reports exhaustion.
pub proof fn lemma_exhaustion_boundary(lrs: Seq<u64>, n: int)
    requires
        n >= 0,
    ensures
        occupied_count(lrs, n) < n ==> has_free_slot(lrs, n),
        occupied_count(lrs, n) == n ==> !has_free_slot(lrs, n),
    decreases n,
{
    if n > 0 {
        lemma_exhaustion_boundary(lrs, n - 1);
        lemma_occupied_count_bounds(lrs, n - 1);
        if occupied_count(lrs, n) < n {
            if slot_is_free(lrs[n - 1]) {
                assert(has_free_slot(lrs, n));
            } else {
                assert(occupied_count(lrs, n - 1) < n - 1);
            }
        }
        if occupied_count(lrs, n) == n {
            assert(occupied_count(lrs, n - 1) == n - 1);
            assert(!slot_is_free(lrs[n - 1]));
            assert forall|j: int| 0 <= j < n implies !slot_is_free(#[trigger] lrs[j]) by {
                if j < n - 1 {
                    assert(!has_free_slot(lrs, n - 1));
                }
            }
        }
    }
}

/// Law: injections of distinct identifiers fill the table slot by slot
/// until it is full, and only then does one fail. While fewer slots are
/// occupied than implemented, a fresh identifier finds a free slot — so by
/// `inject_irq`'s contract the injection succeeds — and whichever slot the
/// engine picks, the occupancy rises by exactly one; an empty table
/// therefore takes as many distinct identifiers as it has slots. Once every
/// slot is occupied, no free slot remains, and a fresh injection reports
/// exhaustion.
pub proof fn lemma_table_fills_then_exhausts(pre: Seq<u64>, n: int, irq_id: u64, is_hardware: bool)
    requires
        0 <= n <= pre.len(),
        irq_id < 0x3fe,
        !in_flight(pre, n, irq_id),
    ensures
        occupied_count(pre, n) < n ==> has_free_slot(pre, n),
        occupied_count(pre, n) == n ==> !has_free_slot(pre, n),
        forall|f: int|
            #[trigger] is_first_free_slot(pre, n, f) ==> occupied_count(
                pre.update(f, encode_lr_value(irq_id, is_hardware)),
                n,
            ) == occupied_count(pre, n) + 1,
{
    lemma_exhaustion_boundary(pre, n);
    lemma_encode_fields(irq_id, is_hardware);
    assert forall|f: int| #[trigger] is_first_free_slot(pre, n, f) implies occupied_count(
        pre.update(f, encode_lr_value(irq_id, is_hardware)),
        n,
    ) == occupied_count(pre, n) + 1 by {
        lemma_inject_occupancy(pre, n, f, encode_lr_value(irq_id, is_hardware));
    }
}

/// Present a pending virtual interrupt toward the guest.
///
/// If an occupied slot already carries `irq_id`, the table is left as it is
/// (idempotent re-injection). Otherwise the encoded value is written into the
/// lowest-numbered free slot, or, if every slot is occupied,
/// `ListRegisterExhausted` is reported and nothing is changed.
pub fn inject_irq(regs: &mut GicRegisters, irq_id: u64, is_hardware: bool) -> (r: Result<
    (),
    GicError,
>)
    requires
        old(regs).wf(),
        irq_id < 0x3fe,
    ensures
        final(regs).wf(),
        same_control(*old(regs), *final(regs)),
        final(regs).trace@ == old(regs).trace@,
        ({
            let n = old(regs).lr_count();
            let pre = old(regs).lr@;
            let post = final(regs).lr@;
            &&& (r is Ok <==> in_flight(pre, n, irq_id) || has_free_slot(pre, n))
            &&& (r is Err ==> r == Err::<(), GicError>(GicError::ListRegisterExhausted) && post
                == pre)
            &&& (in_flight(pre, n, irq_id) ==> post == pre)
            &&& (!in_flight(pre, n, irq_id) && has_free_slot(pre, n) ==> exists|f: int|
                #[trigger] is_first_free_slot(pre, n, f) && post == pre.update(
                    f,
                    encode_lr_value(irq_id, is_hardware),
                ))
        }),
{
    let elsr: u64 = read_elsr(regs);
    let n: usize = lr_count_exec(regs);
    let mut free_ir: Option<usize> = None;
    for i in 0..n
        invariant
            *regs == *old(regs),
            regs.wf(),
            irq_id < 0x3fe,
            n == regs.lr_count(),
            n <= 16,
            forall|j: int|
                0 <= j < regs.lr_count() ==> (bit_set(elsr, j as u64) <==> slot_is_free(
                    regs.lr@[j],
                )),
            free_ir matches Some(f) ==> f < i && is_first_free_slot(
                regs.lr@,
                regs.lr_count(),
                f as int,
            ),
            free_ir is None ==> forall|j: int| 0 <= j < i ==> !slot_is_free(#[trigger] regs.lr@[j]),
            forall|j: int|
                0 <= j < i && !slot_is_free(#[trigger] regs.lr@[j]) ==> slot_virtual_id(regs.lr@[j])
                    != irq_id,
    {
        if (elsr >> (i as u64)) & 1 == 1 {
            if free_ir.is_none() {
                free_ir = Some(i);
            }
        } else {
            let lr_val: u64 = read_lr(regs, i);
            if lr_val & LR_VIRTID_MASK == irq_id {
                // already in flight: idempotent re-injection is a no-op
                proof {
                    assert(in_flight(regs.lr@, regs.lr_count(), irq_id));
                }
                return Ok(());
            }
        }
    }
    match free_ir {
        None => {
            proof {
                assert(!has_free_slot(regs.lr@, regs.lr_count()));
                assert(!in_flight(regs.lr@, regs.lr_count(), irq_id));
            }
            Err(GicError::ListRegisterExhausted)
        },
        Some(f) => {
            let mut val: u64 = irq_id | LR_GROUP1_BIT | LR_PENDING_BIT;
            if !is_sgi(irq_id as u32) && is_hardware {
                val = val | LR_HW_BIT | (irq_id << 32);
            }
            assert(val == encode_lr_value(irq_id, is_hardware));
            proof {
                lemma_encode_fields(irq_id, is_hardware);
                assert(!in_flight(regs.lr@, regs.lr_count(), irq_id));
            }
            let ghost pre = regs.lr@;
            let ghost n_g = regs.lr_count();
            write_lr(regs, f, val);
            proof {
                let post = regs.lr@;
                assert forall|i2: int, j2: int|
                    0 <= i2 < n_g && 0 <= j2 < n_g && i2 != j2 && !slot_is_free(post[i2])
                        && !slot_is_free(post[j2]) implies slot_virtual_id(post[i2])
                    != slot_virtual_id(post[j2]) by {
                    if i2 == f {
                        assert(slot_virtual_id(post[i2]) == irq_id);
                        assert(post[j2] == pre[j2]);
                    } else if j2 == f {
                        assert(slot_virtual_id(post[j2]) == irq_id);
                        assert(post[i2] == pre[i2]);
                    } else {
                        assert(post[i2] == pre[i2] && post[j2] == pre[j2]);
                    }
                }
                assert(is_first_free_slot(pre, n_g, f as int));
            }
            Ok(())
        },
    }
}

} // verus!
