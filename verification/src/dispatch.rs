//! IRQ dispatch entry point: the routine invoked on every interrupt
//! exception. It acknowledges the pending interrupt, classifies it, and
//! routes it to hypervisor-internal handling or guest injection, completing
//! it at the physical layer as the route requires.
//!
//! Three software-generated identifiers in the hypervisor-reserved range
//! 8..16 are a hypervisor-wide contract: the cross-core event notification,
//! the core-resume request, and the virtio-completion notification. The
//! collaborators they name are invoked through [`check_events`] and
//! [`handle_virtio_result`], which record the invocation in the action trace
//! in the order it happens relative to the completion-register writes.

use vstd::prelude::*;
use crate::completion::{deactivate_irq, pending_irq};
use crate::inject::{encode_lr_value, has_free_slot, in_flight, inject_irq, is_first_free_slot};
use crate::regs::{GicAction, GicError, GicRegisters, same_control};

verus! {

/// Software-generated identifier bound to cross-core event notification.
pub const SGI_EVENT_ID: u64 = 15;

/// Software-generated identifier bound to the core-resume request.
pub const SGI_RESUME_ID: u64 = 14;

/// Software-generated identifier bound to virtio-completion notification.
pub const SGI_VIRTIO_RES_ID: u64 = 9;

/// Invoke the cross-core event-check collaborator. Its return value is
/// ignored by this core; only the fact and order of the invocation matter
/// here, so the invocation is recorded in the action trace.
pub fn check_events(regs: &mut GicRegisters)
    ensures
        same_control(*old(regs), *final(regs)),
        final(regs).lr@ == old(regs).lr@,
        final(regs).trace@ == old(regs).trace@.push(GicAction::CheckEvents),
{
    regs.trace.push(GicAction::CheckEvents);
}

/// Invoke the virtio-completion collaborator. As with [`check_events`], the
/// invocation is recorded in the action trace.
pub fn handle_virtio_result(regs: &mut GicRegisters)
    ensures
        same_control(*old(regs), *final(regs)),
        final(regs).lr@ == old(regs).lr@,
        final(regs).trace@ == old(regs).trace@.push(GicAction::HandleVirtioResult),
{
    regs.trace.push(GicAction::HandleVirtioResult);
}

/// How one dispatch pass relates the register file after the call to the one
/// before it, for every acknowledge value.
///
/// A spurious read changes nothing. A guest-forwardable software-generated
/// interrupt (below 8) is completed in two writes and re-presented to the
/// guest as a pure virtual interrupt. The cross-core-event and
/// virtio-completion identifiers invoke their collaborator and are then
/// completed in two writes. The resume identifier and the remaining reserved
/// identifiers are left untouched. A peripheral interrupt is injected as
/// hardware-originated and then gets the single priority-drop write; if its
/// injection exhausts the table, the exhaustion is reported before any
/// completion write.
pub open spec fn dispatch_post(
    pre: GicRegisters,
    post: GicRegisters,
    r: Result<(), GicError>,
) -> bool {
    let n = pre.lr_count();
    let a = pre.iar;
    &&& same_control(pre, post)
    &&& if a >= 0x3fe {
        // spurious: no register writes at all
        &&& post == pre
        &&& r is Ok
    } else if a < 8 {
        // guest-forwardable: complete, then re-present to the guest
        &&& post.trace@ == pre.trace@.push(GicAction::PriorityDrop(a)).push(
            GicAction::Deactivate(a),
        )
        &&& (r is Ok <==> in_flight(pre.lr@, n, a) || has_free_slot(pre.lr@, n))
        &&& (in_flight(pre.lr@, n, a) ==> post.lr@ == pre.lr@)
        &&& (!in_flight(pre.lr@, n, a) && has_free_slot(pre.lr@, n) ==> exists|f: int|
            #[trigger] is_first_free_slot(pre.lr@, n, f) && post.lr@ == pre.lr@.update(
                f,
                encode_lr_value(a, false),
            ))
        &&& (r is Err ==> r == Err::<(), GicError>(GicError::ListRegisterExhausted) && post.lr@
            == pre.lr@)
    } else if a == SGI_EVENT_ID {
        // cross-core event: collaborator first, then two-step completion
        &&& post.lr@ == pre.lr@
        &&& post.trace@ == pre.trace@.push(GicAction::CheckEvents).push(
            GicAction::PriorityDrop(a),
        ).push(GicAction::Deactivate(a))
        &&& r is Ok
    } else if a == SGI_RESUME_ID {
        // resume request: nothing further to do in this layer
        &&& post == pre
        &&& r is Ok
    } else if a == SGI_VIRTIO_RES_ID {
        // virtio completion: collaborator first, then two-step completion
        &&& post.lr@ == pre.lr@
        &&& post.trace@ == pre.trace@.push(GicAction::HandleVirtioResult).push(
            GicAction::PriorityDrop(a),
        ).push(GicAction::Deactivate(a))
        &&& r is Ok
    } else if a < 16 {
        // other reserved software-generated identifiers: skipped
        &&& post == pre
        &&& r is Ok
    } else {
        // peripheral: inject as hardware-originated, then drop priority
        &&& (r is Ok <==> in_flight(pre.lr@, n, a) || has_free_slot(pre.lr@, n))
        &&& (r is Ok ==> post.trace@ == pre.trace@.push(GicAction::PriorityDrop(a)))
        &&& (in_flight(pre.lr@, n, a) ==> post.lr@ == pre.lr@)
        &&& (!in_flight(pre.lr@, n, a) && has_free_slot(pre.lr@, n) ==> exists|f: int|
            #[trigger] is_first_free_slot(pre.lr@, n, f) && post.lr@ == pre.lr@.update(
                f,
                encode_lr_value(a, true),
            ))
        &&& (r is Err ==> r == Err::<(), GicError>(GicError::ListRegisterExhausted) && post.lr@
            == pre.lr@ && post.trace@ == pre.trace@)
    }
}

/// One pass of the dispatch state machine, re-entered on the next hardware
/// exception: acknowledge, classify, route.
pub fn gicv3_handle_irq_el1(regs: &mut GicRegisters) -> (r: Result<(), GicError>)
    requires
        old(regs).wf(),
    ensures
        final(regs).wf(),
        dispatch_post(*old(regs), *final(regs), r),
{
    match pending_irq(regs) {
        None => Ok(()),
        Some(irq_id) => {
            if irq_id < 16 {
                if irq_id < 8 {
                    // re-present the interrupt to the guest as a pure
                    // virtual, software-originated one
                    deactivate_irq(regs, irq_id);
                    inject_irq(regs, irq_id, false)
                } else if irq_id == SGI_EVENT_ID {
                    check_events(regs);
                    deactivate_irq(regs, irq_id);
                    Ok(())
                } else if irq_id == SGI_RESUME_ID {
                    Ok(())
                } else if irq_id == SGI_VIRTIO_RES_ID {
                    handle_virtio_result(regs);
                    deactivate_irq(regs, irq_id);
                    Ok(())
                } else {
                    // a reserved software-generated identifier bound to no
                    // purpose: skipped
                    Ok(())
                }
            } else {
                // forward the physical interrupt to the guest; hardware
                // mapping lets the controller auto-deactivate the physical
                // source when the guest completes the virtual one
                let res = inject_irq(regs, irq_id, true);
                if res.is_err() {
                    return res;
                }
                deactivate_irq(regs, irq_id);
                Ok(())
            }
        },
    }
}

} // verus!
