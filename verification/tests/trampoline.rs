use riscv_interrupt::frame::{EmulationTrapFrame, TrapFrame, from_emulation_frame,
    to_emulation_frame};
use riscv_interrupt::handlers::{Dispatched, HandlerTable};
use riscv_interrupt::registers::InterruptCore;
use riscv_interrupt::trap::{TrapEnvSim, handle_exception, start_trap_rust_hal};
use riscv_interrupt::types::Priority;
use riscv_interrupt::vectored::enable;

// the AMO major opcode in the low seven bits; an AMOADD.W encoding
const ATOMIC_INSN: usize = 0x0062_a1af;
// an ordinary ALU instruction: no atomic emulation needed
const PLAIN_INSN: usize = 0x0000_0013;

fn patterned_frame() -> TrapFrame {
    let mut f = TrapFrame::default();
    f.ra = 0x1111;
    f.t0 = 0x2222;
    f.t6 = 0x3333;
    f.a0 = 0x4444;
    f.a7 = 0x5555;
    f.s0 = 0x6666;
    f.s1 = 0x7777;
    f.s11 = 0x8888;
    f.gp = 0x9999;
    f.tp = 0xaaaa;
    f.sp = 0xbbbb;
    f.pc = 0;
    f.mstatus = 0xcccc;
    f.mcause = 0x7;
    f.mtval = 0xdddd;
    f
}

#[test]
fn default_trap_frame_is_all_zero() {
    let f = TrapFrame::default();
    assert_eq!(f.ra, 0);
    assert_eq!(f.sp, 0);
    assert_eq!(f.pc, 0);
    assert_eq!(f.mstatus, 0);
    assert_eq!(f.mcause, 0);
    assert_eq!(f.mtval, 0);
    assert_eq!(f, TrapFrame::default());
}

#[test]
fn emulation_frame_translation_round_trip() {
    let original = patterned_frame();
    let ef = to_emulation_frame(&original);
    assert_eq!(ef.x0, 0);
    assert_eq!(ef.ra, 0x1111);
    assert_eq!(ef.fp, 0x6666);
    assert_eq!(ef.s1, 0x7777);
    assert_eq!(ef.t6, 0x3333);
    assert_eq!(ef.sp, 0xbbbb);

    let mut back = patterned_frame();
    from_emulation_frame(&mut back, &ef);
    assert_eq!(back, original);
}

#[test]
fn write_back_takes_registers_from_emulation_frame_keeps_csrs() {
    let original = patterned_frame();
    let mut ef: EmulationTrapFrame = to_emulation_frame(&original);
    ef.a0 = 0xfe;
    ef.fp = 0xfd;
    ef.pc = 0x40;
    let mut f = patterned_frame();
    from_emulation_frame(&mut f, &ef);
    assert_eq!(f.a0, 0xfe);
    assert_eq!(f.s0, 0xfd);
    assert_eq!(f.pc, 0x40);
    assert_eq!(f.ra, original.ra);
    assert_eq!(f.mstatus, original.mstatus);
    assert_eq!(f.mcause, original.mcause);
    assert_eq!(f.mtval, original.mtval);
}

#[test]
fn atomic_exception_runs_emulation_and_advances_pc() {
    let mut env = TrapEnvSim::new();
    env.load_program(vec![ATOMIC_INSN]);
    let mut frame = patterned_frame();
    let expected = frame;

    handle_exception(&mut env, 0, &mut frame);

    assert_eq!(env.emulation_count(), 1);
    assert_eq!(env.exception_count(), 0);
    let (received, left) = env.emulation_at(0);
    assert_eq!(received, to_emulation_frame(&expected));
    assert_eq!(received.x0, 0);
    // the stand-in emulation routine only advances the program counter
    assert_eq!(left.pc, 4);
    assert_eq!(frame.pc, 4);
    assert_eq!(frame.ra, expected.ra);
    assert_eq!(frame.s0, expected.s0);
    assert_eq!(frame.mstatus, expected.mstatus);
    assert_eq!(frame.mcause, expected.mcause);
    assert_eq!(frame.mtval, expected.mtval);
}

#[test]
fn non_atomic_exception_forwards_the_frame_unmodified() {
    let mut env = TrapEnvSim::new();
    env.load_program(vec![PLAIN_INSN]);
    let mut frame = patterned_frame();
    let expected = frame;

    handle_exception(&mut env, 0, &mut frame);

    assert_eq!(env.exception_count(), 1);
    assert_eq!(env.emulation_count(), 0);
    assert_eq!(env.exception_at(0), expected);
    assert_eq!(frame, expected);
}

#[test]
fn start_trap_classifies_exception() {
    let mut core = InterruptCore::new();
    let mut env = TrapEnvSim::new();
    env.load_program(vec![PLAIN_INSN, 0, ATOMIC_INSN]);
    let mut handlers = HandlerTable::new();

    let mut frame = patterned_frame();
    frame.pc = 2;
    start_trap_rust_hal(&mut core, &mut env, &mut handlers, false, 7, &mut frame);
    assert_eq!(env.emulation_count(), 1);
    assert_eq!(frame.pc, 6);

    let mut frame2 = patterned_frame();
    start_trap_rust_hal(&mut core, &mut env, &mut handlers, false, 5, &mut frame2);
    assert_eq!(env.exception_count(), 1);
    assert_eq!(env.exception_at(0), patterned_frame());
    assert_eq!(handlers.dispatched_count(), 0);
    assert_eq!(core.clear_write_count(), 0);
}

#[test]
fn start_trap_dispatches_vectored_interrupt() {
    let mut core = InterruptCore::new();
    assert_eq!(enable(&mut core, 10, Priority::Priority2), Ok(()));
    core.set_status(1 << 10, 0);
    let mut env = TrapEnvSim::new();
    let mut handlers = HandlerTable::new();
    let mut frame = TrapFrame::default();

    start_trap_rust_hal(&mut core, &mut env, &mut handlers, true, 2, &mut frame);

    assert_eq!(handlers.dispatched_count(), 1);
    assert_eq!(handlers.dispatched_at(0), Dispatched::Fallback(10));
    assert_eq!(core.clear_write_count(), 1);
    assert_eq!(core.clear_write(0), 1 << 2);
    assert_eq!(env.exception_count(), 0);
    assert_eq!(env.unhandled_count(), 0);
}

#[test]
fn start_trap_routes_direct_lines_and_unknown_codes() {
    let mut core = InterruptCore::new();
    let mut env = TrapEnvSim::new();
    let mut handlers = HandlerTable::new();
    let mut frame = patterned_frame();

    start_trap_rust_hal(&mut core, &mut env, &mut handlers, true, 20, &mut frame);
    assert_eq!(env.direct_count(), 1);
    assert_eq!(env.direct_at(0), (20, patterned_frame()));
    assert_eq!(handlers.dispatched_count(), 0);

    start_trap_rust_hal(&mut core, &mut env, &mut handlers, true, 0, &mut frame);
    start_trap_rust_hal(&mut core, &mut env, &mut handlers, true, 40, &mut frame);
    assert_eq!(env.unhandled_count(), 2);
    assert_eq!(env.unhandled_at(0), 0);
    assert_eq!(env.unhandled_at(1), 40);
    assert_eq!(core.clear_write_count(), 0);
}

#[test]
fn atomic_opcode_test_follows_the_low_seven_bits() {
    // exercised through the exception path: every word whose low seven bits
    // are the AMO opcode goes to emulation, every other word to the handler
    let mut env = TrapEnvSim::new();
    env.load_program(vec![0x2f, 0xaf, 0x2e, 0x30, ATOMIC_INSN, PLAIN_INSN]);
    let expect_atomic = [true, true, false, false, true, false];
    let mut atomics = 0;
    let mut plains = 0;
    for (pc, expected) in expect_atomic.iter().enumerate() {
        let mut frame = TrapFrame::default();
        frame.pc = pc;
        handle_exception(&mut env, pc, &mut frame);
        if *expected {
            atomics += 1;
        } else {
            plains += 1;
        }
        assert_eq!(env.emulation_count(), atomics);
        assert_eq!(env.exception_count(), plains);
    }
}
