//! Tests exercising the interrupt-virtualization layer against an in-memory
//! register file.

use gicv3_virt::classifier::{is_ppi, is_sgi, is_spi};
use gicv3_virt::completion::{deactivate_irq, pending_irq, SPURIOUS_ID_FLOOR};
use gicv3_virt::dispatch::{
    gicv3_handle_irq_el1, SGI_EVENT_ID, SGI_RESUME_ID, SGI_VIRTIO_RES_ID,
};
use gicv3_virt::facade::{GICv3, GICD_SIZE, GICR_SIZE, IRQHVI};
use gicv3_virt::inject::inject_irq;
use gicv3_virt::lifecycle::{gicv3_clear_pending_irqs, gicv3_cpu_init, gicv3_cpu_shutdown};
use gicv3_virt::regs::{
    read_elsr, read_lr, write_lr, GicAction, GicError, GicRegisters, LR_GROUP1_BIT, LR_HW_BIT,
    LR_PENDING_BIT, LR_PHYSID_MASK, LR_STATE_MASK, LR_VIRTID_MASK,
};

fn occupied_slots(regs: &GicRegisters) -> usize {
    let n = (regs.vtr & 0xf) as usize + 1;
    let mut count = 0;
    for i in 0..n {
        if read_lr(regs, i) & LR_STATE_MASK != 0 {
            count += 1;
        }
    }
    count
}

#[test]
fn classifier_boundaries() {
    assert!(is_sgi(0));
    assert!(is_sgi(15));
    assert!(!is_sgi(16));
    assert!(!is_ppi(15));
    assert!(is_ppi(16));
    assert!(is_ppi(31));
    assert!(!is_ppi(32));
    assert!(!is_spi(31));
    assert!(is_spi(32));
    assert!(is_spi(1019));
    assert!(!is_spi(1020));
}

#[test]
fn classifier_partitions_valid_ids() {
    for id in 0u32..1020 {
        let hits =
            (is_sgi(id) as u32) + (is_ppi(id) as u32) + (is_spi(id) as u32);
        assert_eq!(hits, 1, "id {} must fall in exactly one category", id);
    }
    // identifiers at or above 1020 classify as none of the three
    for id in [1020u32, 1021, 4096, u32::MAX] {
        assert!(!is_sgi(id) && !is_ppi(id) && !is_spi(id));
    }
}

#[test]
fn acknowledge_spurious_markers() {
    let mut regs = GicRegisters::new(3);
    regs.iar = 0x3fe;
    assert_eq!(pending_irq(&regs), None);
    regs.iar = 0x3ff;
    assert_eq!(pending_irq(&regs), None);
    regs.iar = 0;
    assert_eq!(pending_irq(&regs), Some(0));
    regs.iar = 5;
    assert_eq!(pending_irq(&regs), Some(5));
    regs.iar = 0x3fd;
    assert_eq!(pending_irq(&regs), Some(0x3fd));
    assert_eq!(SPURIOUS_ID_FLOOR, 0x3fe);
}

#[test]
fn deactivate_sgi_issues_two_writes() {
    let mut regs = GicRegisters::new(0);
    deactivate_irq(&mut regs, 5);
    assert_eq!(
        regs.trace,
        vec![GicAction::PriorityDrop(5), GicAction::Deactivate(5)]
    );
    deactivate_irq(&mut regs, 15);
    assert_eq!(regs.trace.len(), 4);
    assert_eq!(regs.trace[2], GicAction::PriorityDrop(15));
    assert_eq!(regs.trace[3], GicAction::Deactivate(15));
}

#[test]
fn deactivate_peripheral_issues_one_write() {
    let mut regs = GicRegisters::new(0);
    deactivate_irq(&mut regs, 16);
    assert_eq!(regs.trace, vec![GicAction::PriorityDrop(16)]);
    deactivate_irq(&mut regs, 33);
    assert_eq!(
        regs.trace,
        vec![GicAction::PriorityDrop(16), GicAction::PriorityDrop(33)]
    );
}

#[test]
fn inject_hardware_mapped_encoding() {
    let mut regs = GicRegisters::new(3);
    assert_eq!(inject_irq(&mut regs, 40, true), Ok(()));
    let v = read_lr(&regs, 0);
    assert_eq!(v & LR_VIRTID_MASK, 40);
    assert_eq!((v >> 32) & LR_PHYSID_MASK, 40);
    assert_ne!(v & LR_HW_BIT, 0);
    assert_ne!(v & LR_GROUP1_BIT, 0);
    assert_ne!(v & LR_PENDING_BIT, 0);
    // bit-exact: vINTID 40, pINTID 40, HW, group 1, state pending
    assert_eq!(v, 0x7000_0028_0000_0028);
}

#[test]
fn inject_sgi_never_hardware_mapped() {
    let mut regs = GicRegisters::new(3);
    // the hardware flag is ignored for the software-generated range
    assert_eq!(inject_irq(&mut regs, 5, true), Ok(()));
    let v = read_lr(&regs, 0);
    assert_eq!(v & LR_HW_BIT, 0);
    assert_eq!(v, 0x5000_0000_0000_0005);

    let mut regs2 = GicRegisters::new(3);
    assert_eq!(inject_irq(&mut regs2, 7, false), Ok(()));
    let w = read_lr(&regs2, 0);
    assert_eq!(w & LR_HW_BIT, 0);
    assert_eq!(w & LR_VIRTID_MASK, 7);
}

#[test]
fn inject_twice_keeps_one_slot() {
    let mut regs = GicRegisters::new(3);
    assert_eq!(inject_irq(&mut regs, 40, true), Ok(()));
    assert_eq!(occupied_slots(&regs), 1);
    let before = regs.lr.clone();
    assert_eq!(inject_irq(&mut regs, 40, true), Ok(()));
    assert_eq!(regs.lr, before);
    assert_eq!(occupied_slots(&regs), 1);
}

#[test]
fn inject_uses_first_free_slot() {
    let mut regs = GicRegisters::new(3);
    assert_eq!(inject_irq(&mut regs, 40, true), Ok(()));
    assert_eq!(inject_irq(&mut regs, 41, true), Ok(()));
    assert_eq!(read_lr(&regs, 0) & LR_VIRTID_MASK, 40);
    assert_eq!(read_lr(&regs, 1) & LR_VIRTID_MASK, 41);
    // consuming slot 0 frees it for the next injection
    write_lr(&mut regs, 0, 0);
    assert_eq!(inject_irq(&mut regs, 42, true), Ok(()));
    assert_eq!(read_lr(&regs, 0) & LR_VIRTID_MASK, 42);
    assert_eq!(read_lr(&regs, 1) & LR_VIRTID_MASK, 41);
}

#[test]
fn inject_fills_table_then_exhausts() {
    // a 4-slot table takes 4 distinct identifiers, then reports exhaustion
    let mut regs = GicRegisters::new(3);
    for (k, id) in [100u64, 200, 300, 400].iter().enumerate() {
        assert_eq!(inject_irq(&mut regs, *id, true), Ok(()));
        assert_eq!(occupied_slots(&regs), k + 1);
    }
    assert_eq!(read_elsr(&regs) & 0xf, 0);
    assert_eq!(
        inject_irq(&mut regs, 500, true),
        Err(GicError::ListRegisterExhausted)
    );
    // re-injection of an in-flight identifier still succeeds on a full table
    assert_eq!(inject_irq(&mut regs, 300, true), Ok(()));
    assert_eq!(occupied_slots(&regs), 4);
}

#[test]
fn single_slot_table_exhausts_on_second_id() {
    let mut regs = GicRegisters::new(0);
    assert_eq!(inject_irq(&mut regs, 100, true), Ok(()));
    assert_eq!(
        inject_irq(&mut regs, 101, true),
        Err(GicError::ListRegisterExhausted)
    );
}

#[test]
fn elsr_reports_free_slots() {
    let mut regs = GicRegisters::new(3);
    assert_eq!(read_elsr(&regs) & 0xf, 0xf);
    assert_eq!(inject_irq(&mut regs, 40, true), Ok(()));
    let elsr = read_elsr(&regs);
    assert_eq!(elsr & 1, 0);
    assert_eq!(elsr & 0xf, 0xe);
}

#[test]
fn dispatch_spurious_writes_nothing() {
    for ack in [0x3feu64, 0x3ff] {
        let mut regs = GicRegisters::new(3);
        regs.iar = ack;
        assert_eq!(gicv3_handle_irq_el1(&mut regs), Ok(()));
        assert!(regs.trace.is_empty());
        for i in 0..4 {
            assert_eq!(read_lr(&regs, i), 0);
        }
    }
}

#[test]
fn dispatch_forwards_guest_sgi() {
    let mut regs = GicRegisters::new(3);
    regs.iar = 5;
    assert_eq!(gicv3_handle_irq_el1(&mut regs), Ok(()));
    // deactivated (two writes), then re-presented as a software interrupt
    assert_eq!(
        regs.trace,
        vec![GicAction::PriorityDrop(5), GicAction::Deactivate(5)]
    );
    let v = read_lr(&regs, 0);
    assert_eq!(v, 0x5000_0000_0000_0005);
}

#[test]
fn dispatch_event_sgi_checks_events_then_completes() {
    let mut regs = GicRegisters::new(3);
    regs.iar = SGI_EVENT_ID;
    assert_eq!(gicv3_handle_irq_el1(&mut regs), Ok(()));
    assert_eq!(
        regs.trace,
        vec![
            GicAction::CheckEvents,
            GicAction::PriorityDrop(SGI_EVENT_ID),
            GicAction::Deactivate(SGI_EVENT_ID),
        ]
    );
    assert_eq!(occupied_slots(&regs), 0);
}

#[test]
fn dispatch_virtio_sgi_handles_result_then_completes() {
    let mut regs = GicRegisters::new(3);
    regs.iar = SGI_VIRTIO_RES_ID;
    assert_eq!(gicv3_handle_irq_el1(&mut regs), Ok(()));
    assert_eq!(
        regs.trace,
        vec![
            GicAction::HandleVirtioResult,
            GicAction::PriorityDrop(SGI_VIRTIO_RES_ID),
            GicAction::Deactivate(SGI_VIRTIO_RES_ID),
        ]
    );
    assert_eq!(occupied_slots(&regs), 0);
}

#[test]
fn dispatch_resume_and_unbound_sgis_do_nothing() {
    for ack in [SGI_RESUME_ID, 8, 10, 13] {
        let mut regs = GicRegisters::new(3);
        regs.iar = ack;
        assert_eq!(gicv3_handle_irq_el1(&mut regs), Ok(()));
        assert!(regs.trace.is_empty());
        assert_eq!(occupied_slots(&regs), 0);
    }
}

#[test]
fn dispatch_injects_peripheral_then_drops_priority() {
    let mut regs = GicRegisters::new(3);
    regs.iar = 33;
    assert_eq!(gicv3_handle_irq_el1(&mut regs), Ok(()));
    assert_eq!(regs.trace, vec![GicAction::PriorityDrop(33)]);
    let v = read_lr(&regs, 0);
    assert_eq!(v & LR_VIRTID_MASK, 33);
    assert_eq!((v >> 32) & LR_PHYSID_MASK, 33);
    assert_ne!(v & LR_HW_BIT, 0);
}

#[test]
fn dispatch_reports_exhaustion_before_completion() {
    let mut regs = GicRegisters::new(0);
    assert_eq!(inject_irq(&mut regs, 100, true), Ok(()));
    regs.iar = 33;
    assert_eq!(
        gicv3_handle_irq_el1(&mut regs),
        Err(GicError::ListRegisterExhausted)
    );
    assert!(regs.trace.is_empty());
    assert_eq!(read_lr(&regs, 0) & LR_VIRTID_MASK, 100);
}

#[test]
fn cpu_init_programs_interface() {
    // capability: 4 slots, 7 implemented priority bits
    let mut regs = GicRegisters::new((6 << 29) | 3);
    regs.pmr = 0xab;
    regs.ap1r0 = 0xdead;
    regs.ap1r1 = 0xdead;
    regs.ap1r2 = 0xdead;
    regs.ap1r3 = 0xdead;
    for i in 0..4 {
        write_lr(&mut regs, i, 0x5000_0000_0000_0000 | (40 + i as u64));
    }
    gicv3_cpu_init(&mut regs);
    assert_eq!(regs.ctlr, 0x2);
    assert_eq!(regs.pmr, 0xf0);
    assert_eq!(regs.igrpen1, 1);
    // virtual priority mask from the saved physical mask, VENG1, VEOIM
    assert_eq!(regs.vmcr, 0xab00_0202);
    assert_eq!(regs.hcr, 1);
    for i in 0..4 {
        assert_eq!(read_lr(&regs, i), 0);
    }
    assert_eq!(regs.ap1r0, 0);
    assert_eq!(regs.ap1r1, 0);
    assert_eq!(regs.ap1r2, 0);
    assert_eq!(regs.ap1r3, 0);
    assert!(regs.trace.is_empty());
}

#[test]
fn clear_pending_respects_priority_bits() {
    // 5 implemented priority bits: only the first active-priority register
    let mut regs = GicRegisters::new(4u64 << 29);
    regs.ap1r0 = 7;
    regs.ap1r1 = 7;
    regs.ap1r2 = 7;
    regs.ap1r3 = 7;
    gicv3_clear_pending_irqs(&mut regs);
    assert_eq!(regs.ap1r0, 0);
    assert_eq!(regs.ap1r1, 7);
    assert_eq!(regs.ap1r2, 7);
    assert_eq!(regs.ap1r3, 7);

    // 6 implemented priority bits: the first two
    let mut regs = GicRegisters::new(5u64 << 29);
    regs.ap1r0 = 7;
    regs.ap1r1 = 7;
    regs.ap1r2 = 7;
    regs.ap1r3 = 7;
    gicv3_clear_pending_irqs(&mut regs);
    assert_eq!(regs.ap1r0, 0);
    assert_eq!(regs.ap1r1, 0);
    assert_eq!(regs.ap1r2, 7);
    assert_eq!(regs.ap1r3, 7);
}

#[test]
fn clear_pending_empties_table() {
    let mut regs = GicRegisters::new(0xf);
    for i in 0..16 {
        write_lr(&mut regs, i, 0x5000_0000_0000_0000 | i as u64);
    }
    gicv3_clear_pending_irqs(&mut regs);
    for i in 0..16 {
        assert_eq!(read_lr(&regs, i), 0);
    }
    assert_eq!(read_elsr(&regs), 0xffff);
}

#[test]
fn shutdown_reads_back_diagnostics() {
    let mut regs = GicRegisters::new(3);
    gicv3_cpu_init(&mut regs);
    let (ctlr, pmr, hcr) = gicv3_cpu_shutdown(&regs);
    assert_eq!(ctlr, 0x2);
    assert_eq!(pmr, 0xf0);
    assert_eq!(hcr, 1);
}

#[test]
fn reserved_sgi_ids_are_distinct_and_reserved() {
    let ids = [SGI_EVENT_ID, SGI_RESUME_ID, SGI_VIRTIO_RES_ID];
    for id in ids {
        assert!((8..16).contains(&id));
    }
    assert_ne!(SGI_EVENT_ID, SGI_RESUME_ID);
    assert_ne!(SGI_EVENT_ID, SGI_VIRTIO_RES_ID);
    assert_ne!(SGI_RESUME_ID, SGI_VIRTIO_RES_ID);
}

#[test]
fn facade_reports_affinity() {
    let gic = GICv3::new(0x800_0000, 0x80a_0000, 0x0100_0200);
    assert_eq!(gic.read_aff(), 0x0100_0200);
    assert_eq!(gic.gicd_base, 0x800_0000);
    assert_eq!(gic.gicr_base, 0x80a_0000);
    assert_eq!(GICD_SIZE, 0x10000);
    assert_eq!(GICR_SIZE, 0x20000);
    assert_eq!(IRQHVI, 0x40);
}
