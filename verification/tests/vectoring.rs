use riscv_interrupt::handlers::{Dispatched, HandlerTable};
use riscv_interrupt::registers::{InterruptCore, SOURCE_COUNT};
use riscv_interrupt::registers::{disable, enable_cpu_interrupt, get_status, set_kind,
    set_priority};
use riscv_interrupt::types::{CpuInterrupt, InterruptKind, Priority, cpu_interrupt_from_code,
    cpu_interrupt_number, priority_from_number, priority_number};
use riscv_interrupt::vectored::{Error, enable, get_configured_interrupts, handle_interrupts,
    init_vectoring, interrupt3};
use riscv_interrupt::frame::TrapFrame;

#[test]
fn enable_maps_source_and_enables_line() {
    let mut core = InterruptCore::new();
    let r = enable(&mut core, 5, Priority::Priority3);
    assert_eq!(r, Ok(()));
    assert_eq!(core.mapped_line(5), 3);
    assert!(core.line_enabled(CpuInterrupt::Interrupt3));
    assert!(!core.line_enabled(CpuInterrupt::Interrupt4));
}

#[test]
fn enable_priority_zero_rejected_without_mutation() {
    let mut core = InterruptCore::new();
    let r = enable(&mut core, 9, Priority::Disabled);
    assert_eq!(r, Err(Error::InvalidInterruptPriority));
    assert_eq!(core.mapped_line(9), 0);
    for code in 1..=31 {
        let which = cpu_interrupt_from_code(code).unwrap();
        assert!(!core.line_enabled(which));
    }
    assert_eq!(core.clear_write_count(), 0);
}

#[test]
fn enable_every_priority_lands_on_its_line() {
    for p in 1..=15u32 {
        let mut core = InterruptCore::new();
        let level = priority_from_number(p).unwrap();
        assert_eq!(priority_number(level), p);
        assert_eq!(enable(&mut core, 11, level), Ok(()));
        assert_eq!(core.mapped_line(11), p);
        let line = cpu_interrupt_from_code(p as usize).unwrap();
        assert!(core.line_enabled(line));
    }
}

#[test]
fn init_vectoring_readback() {
    let mut core = InterruptCore::new();
    init_vectoring(&mut core);
    for i in 1..=15u32 {
        let which = cpu_interrupt_from_code(i as usize).unwrap();
        assert_eq!(cpu_interrupt_number(which), i);
        assert_eq!(core.line_priority(which), i);
        assert!(core.line_enabled(which));
        assert!(!core.line_is_edge(which));
    }
    for i in 16..=31 {
        let which = cpu_interrupt_from_code(i).unwrap();
        assert_eq!(core.line_priority(which), 0);
        assert!(!core.line_enabled(which));
    }
}

#[test]
fn register_primitives_readback() {
    let mut core = InterruptCore::new();
    riscv_interrupt::registers::map(&mut core, 7, CpuInterrupt::Interrupt20);
    assert_eq!(core.mapped_line(7), 20);
    riscv_interrupt::registers::map(&mut core, 7, CpuInterrupt::Interrupt21);
    assert_eq!(core.mapped_line(7), 21);
    disable(&mut core, 7);
    assert_eq!(core.mapped_line(7), 0);

    enable_cpu_interrupt(&mut core, CpuInterrupt::Interrupt20);
    assert!(core.line_enabled(CpuInterrupt::Interrupt20));
    assert!(!core.line_enabled(CpuInterrupt::Interrupt21));

    set_kind(&mut core, CpuInterrupt::Interrupt20, InterruptKind::Edge);
    assert!(core.line_is_edge(CpuInterrupt::Interrupt20));
    set_kind(&mut core, CpuInterrupt::Interrupt20, InterruptKind::Level);
    assert!(!core.line_is_edge(CpuInterrupt::Interrupt20));

    set_priority(&mut core, CpuInterrupt::Interrupt20, Priority::Priority11);
    assert_eq!(core.line_priority(CpuInterrupt::Interrupt20), 11);
}

#[test]
fn disable_twice_is_idempotent() {
    let mut core = InterruptCore::new();
    assert_eq!(enable(&mut core, 12, Priority::Priority2), Ok(()));
    assert_eq!(core.mapped_line(12), 2);
    disable(&mut core, 12);
    assert_eq!(core.mapped_line(12), 0);
    disable(&mut core, 12);
    assert_eq!(core.mapped_line(12), 0);
}

#[test]
fn status_word_concatenates_the_two_registers() {
    let mut core = InterruptCore::new();
    assert_eq!(get_status(&core), 0);
    core.set_status(0x8000_0001, 0x0000_0010);
    assert_eq!(get_status(&core), 0x10_8000_0001u128);
}

#[test]
fn configured_interrupts_bucket_by_mapped_line() {
    let mut core = InterruptCore::new();
    riscv_interrupt::registers::map(&mut core, 5, CpuInterrupt::Interrupt3);
    riscv_interrupt::registers::map(&mut core, 40, CpuInterrupt::Interrupt3);
    riscv_interrupt::registers::map(&mut core, 6, CpuInterrupt::Interrupt4);
    riscv_interrupt::registers::map(&mut core, 8, CpuInterrupt::Interrupt20);
    core.set_status((1 << 5) | (1 << 6) | (1 << 8) | (1 << 9), 1 << (40 - 32));
    let status = get_status(&core);
    let configured = get_configured_interrupts(&core, status);
    assert_eq!(configured.len(), 16);
    assert_eq!(configured[3], (1u128 << 5) | (1u128 << 40));
    assert_eq!(configured[4], 1u128 << 6);
    // source 9 is pending but unmapped: the no-line bucket
    assert_eq!(configured[0], 1u128 << 9);
    // source 8 is routed to a line outside the vectored range: no bucket
    for l in 5..16 {
        assert_eq!(configured[l], 0);
    }
    assert_eq!(configured[1], 0);
    assert_eq!(configured[2], 0);
}

#[test]
fn dispatch_scenario_source5_priority3() {
    // source 5 mapped to priority 3, priority 3 enabled, status bit 5 set:
    // dispatch for line 3 invokes exactly source 5's handler once, then has
    // cleared line 3's pending bit.
    let mut core = InterruptCore::new();
    init_vectoring(&mut core);
    assert_eq!(enable(&mut core, 5, Priority::Priority3), Ok(()));
    core.set_status(1 << 5, 0);

    let mut handlers = HandlerTable::new();
    let mut frame = TrapFrame::default();
    handle_interrupts(&mut core, &mut handlers, CpuInterrupt::Interrupt3, &mut frame);

    assert_eq!(handlers.dispatched_count(), 1);
    assert_eq!(handlers.dispatched_at(0), Dispatched::Fallback(5));
    assert_eq!(core.clear_write_count(), 1);
    assert_eq!(core.clear_write(0), 1 << 3);
    // the fallback path hands the frame to no user handler: it is untouched
    assert_eq!(frame, TrapFrame::default());
}

#[test]
fn dispatch_resolves_installed_handler() {
    let mut core = InterruptCore::new();
    assert_eq!(enable(&mut core, 5, Priority::Priority3), Ok(()));
    core.set_status(1 << 5, 0);
    let mut handlers = HandlerTable::new();
    handlers.install(5);
    let mut frame = TrapFrame::default();
    handle_interrupts(&mut core, &mut handlers, CpuInterrupt::Interrupt3, &mut frame);
    assert_eq!(handlers.dispatched_count(), 1);
    assert_eq!(handlers.dispatched_at(0), Dispatched::User(5));
}

#[test]
fn dispatch_skips_sources_of_other_lines() {
    let mut core = InterruptCore::new();
    assert_eq!(enable(&mut core, 5, Priority::Priority3), Ok(()));
    assert_eq!(enable(&mut core, 6, Priority::Priority4), Ok(()));
    // source 7 pending but unmapped; sources 5 and 6 pending on lines 3 and 4
    core.set_status((1 << 5) | (1 << 6) | (1 << 7), 0);

    let mut handlers = HandlerTable::new();
    let mut frame = TrapFrame::default();
    handle_interrupts(&mut core, &mut handlers, CpuInterrupt::Interrupt3, &mut frame);
    assert_eq!(handlers.dispatched_count(), 1);
    assert_eq!(handlers.dispatched_at(0), Dispatched::Fallback(5));

    handle_interrupts(&mut core, &mut handlers, CpuInterrupt::Interrupt4, &mut frame);
    assert_eq!(handlers.dispatched_count(), 2);
    assert_eq!(handlers.dispatched_at(1), Dispatched::Fallback(6));
}

#[test]
fn dispatch_order_is_ascending_source_id() {
    let mut core = InterruptCore::new();
    for s in [44usize, 3, 20, 59] {
        assert_eq!(enable(&mut core, s, Priority::Priority7), Ok(()));
    }
    core.set_status((1 << 3) | (1 << 20), (1 << (44 - 32)) | (1 << (59 - 32)));
    let mut handlers = HandlerTable::new();
    let mut frame = TrapFrame::default();
    handle_interrupts(&mut core, &mut handlers, CpuInterrupt::Interrupt7, &mut frame);
    assert_eq!(handlers.dispatched_count(), 4);
    assert_eq!(handlers.dispatched_at(0), Dispatched::Fallback(3));
    assert_eq!(handlers.dispatched_at(1), Dispatched::Fallback(20));
    assert_eq!(handlers.dispatched_at(2), Dispatched::Fallback(44));
    assert_eq!(handlers.dispatched_at(3), Dispatched::Fallback(59));
}

#[test]
fn dispatch_with_nothing_pending_invokes_nothing_but_still_clears() {
    let mut core = InterruptCore::new();
    init_vectoring(&mut core);
    let mut handlers = HandlerTable::new();
    let mut frame = TrapFrame::default();
    let mut frame2 = TrapFrame::default();
    interrupt3(&mut core, &mut handlers, &mut frame);
    assert_eq!(handlers.dispatched_count(), 0);
    assert_eq!(core.clear_write_count(), 1);
    assert_eq!(core.clear_write(0), 1 << 3);
    // a second trap for the same line writes the clear register once more
    interrupt3(&mut core, &mut handlers, &mut frame2);
    assert_eq!(core.clear_write_count(), 2);
    assert_eq!(core.clear_write(1), 1 << 3);
}

#[test]
fn sources_at_the_top_of_the_status_word_dispatch_too() {
    let mut core = InterruptCore::new();
    let last = SOURCE_COUNT - 1;
    assert_eq!(enable(&mut core, last, Priority::Priority1), Ok(()));
    core.set_status(0, 1 << (last - 32));
    let mut handlers = HandlerTable::new();
    let mut frame = TrapFrame::default();
    handle_interrupts(&mut core, &mut handlers, CpuInterrupt::Interrupt1, &mut frame);
    assert_eq!(handlers.dispatched_count(), 1);
    assert_eq!(handlers.dispatched_at(0), Dispatched::Fallback(last as u8));
}
