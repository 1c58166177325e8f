//! Exception and atomic-emulation trampoline.
//!
//! [`start_trap_rust_hal`] is the single entry point behind the hardware
//! trap vector. It classifies the trap: an exception goes to
//! [`handle_exception`], which fetches the faulting instruction and either
//! forwards the frame to the generic exception handler or runs the software
//! atomic-emulation routine through a two-way frame translation; an
//! interrupt goes to the numbered CPU-line dispatch. Every branch ends in a
//! resume or a forwarded handler — there is no recoverable-error path.

use vstd::prelude::*;

use crate::frame::{EmulationTrapFrame, TrapFrame, emulation_frame_of, from_emulation_frame,
    to_emulation_frame, written_back_frame};
use crate::handlers::PeripheralHandlers;
use crate::registers::InterruptCore;
use crate::types::cpu_interrupt_from_code;
use crate::vectored::{handle_interrupts, vectored_dispatch_relation};

verus! {

/// Whether an instruction word encodes an atomic memory operation: its low
/// seven bits are the AMO major opcode.
pub open spec fn is_atomic_opcode(insn: usize) -> bool {
    insn & 0b1111111 == 0b0101111
}

/// Relies on riscv_atomic_emulation_trap::is_atomic_instruction: it tests
/// exactly whether the word's low seven bits are the AMO major opcode
/// (`(insn & 0b1111111) == 0b0101111`).
pub assume_specification [ riscv_atomic_emulation_trap::is_atomic_instruction ](
    insn: usize,
) -> (r: bool)
    ensures
        r == is_atomic_opcode(insn),
;

/// The machine environment a trap handler runs against: instruction memory,
/// the chip/board-supplied generic exception handler, the software
/// atomic-emulation routine, the per-line handlers of the non-vectored CPU
/// lines, and the fallback for unrecognized cause codes. The surrounding
/// firmware supplies all of these at link time; each invocation is recorded
/// so the contracts can name what was forwarded where.
pub trait TrapEnv {
    /// The implementation's own well-formedness condition.
    spec fn wf(&self) -> bool;

    /// The instruction word in memory at address `pc`.
    spec fn insn_at(&self, pc: usize) -> usize;

    /// The frames handed to the generic exception handler, in order, each as
    /// it was received.
    spec fn exception_log(&self) -> Seq<TrapFrame>;

    /// The atomic-emulation runs so far: each entry is the frame the routine
    /// received and the frame it left behind.
    spec fn emulation_log(&self) -> Seq<(EmulationTrapFrame, EmulationTrapFrame)>;

    /// The non-vectored CPU lines dispatched so far, each with the frame its
    /// handler received.
    spec fn direct_log(&self) -> Seq<(usize, TrapFrame)>;

    /// The unrecognized cause codes handed to the fallback handler.
    spec fn unhandled_log(&self) -> Seq<usize>;

    /// Fetch the one machine instruction word at `pc`.
    fn fetch_insn(&self, pc: usize) -> (insn: usize)
        requires
            self.wf(),
        ensures
            insn == self.insn_at(pc),
    ;

    /// Forward a trap frame to the generic, chip/board-supplied exception
    /// handler. The handler may alter the frame; what it received is
    /// recorded.
    fn exception_handler(&mut self, context: &mut TrapFrame)
        requires
            old(self).wf(),
        ensures
            final(self).wf(),
            final(self).exception_log() == old(self).exception_log().push(*old(context)),
            final(self).emulation_log() == old(self).emulation_log(),
            final(self).direct_log() == old(self).direct_log(),
            final(self).unhandled_log() == old(self).unhandled_log(),
            forall|pc: usize| final(self).insn_at(pc) == old(self).insn_at(pc),
    ;

    /// Run the software atomic-emulation routine on an emulation-layout
    /// frame. The routine decodes and executes the atomic instruction and
    /// advances the program counter past it; it may mutate any register
    /// slot. The frame it received and the frame it left are recorded.
    fn emulate_atomic(&mut self, frame: &mut EmulationTrapFrame)
        requires
            old(self).wf(),
        ensures
            final(self).wf(),
            final(self).emulation_log() == old(self).emulation_log().push(
                (*old(frame), *final(frame)),
            ),
            final(self).exception_log() == old(self).exception_log(),
            final(self).direct_log() == old(self).direct_log(),
            final(self).unhandled_log() == old(self).unhandled_log(),
            forall|pc: usize| final(self).insn_at(pc) == old(self).insn_at(pc),
    ;

    /// Dispatch a trap frame to the handler of a non-vectored CPU line
    /// (16 to 31). The handler may alter the frame; what it received is
    /// recorded.
    fn direct_line_handler(&mut self, code: usize, context: &mut TrapFrame)
        requires
            old(self).wf(),
            16 <= code <= 31,
        ensures
            final(self).wf(),
            final(self).direct_log() == old(self).direct_log().push((code, *old(context))),
            final(self).exception_log() == old(self).exception_log(),
            final(self).emulation_log() == old(self).emulation_log(),
            final(self).unhandled_log() == old(self).unhandled_log(),
            forall|pc: usize| final(self).insn_at(pc) == old(self).insn_at(pc),
    ;

    /// Forward an unrecognized trap cause code to the chip-supplied default
    /// handler.
    fn default_handler(&mut self, code: usize)
        requires
            old(self).wf(),
        ensures
            final(self).wf(),
            final(self).unhandled_log() == old(self).unhandled_log().push(code),
            final(self).exception_log() == old(self).exception_log(),
            final(self).emulation_log() == old(self).emulation_log(),
            final(self).direct_log() == old(self).direct_log(),
            forall|pc: usize| final(self).insn_at(pc) == old(self).insn_at(pc),
    ;
}

/// An in-memory machine environment: a word-addressed instruction store and
/// a stand-in emulation routine that advances the program counter past the
/// emulated instruction. Backs the trampoline where no real hardware is
/// attached, and records every forwarded invocation for inspection.
pub struct TrapEnvSim {
    program: Vec<usize>,
    exception_frames: Vec<TrapFrame>,
    emulation_frames: Vec<(EmulationTrapFrame, EmulationTrapFrame)>,
    direct_lines: Vec<(usize, TrapFrame)>,
    unhandled_codes: Vec<usize>,
}

impl TrapEnvSim {
    /// An environment with empty instruction memory and nothing recorded.
    pub fn new() -> (env: TrapEnvSim)
        ensures
            env.wf(),
            forall|pc: usize| env.insn_at(pc) == 0usize,
            env.exception_log() == Seq::<TrapFrame>::empty(),
            env.emulation_log() == Seq::<(EmulationTrapFrame, EmulationTrapFrame)>::empty(),
            env.direct_log() == Seq::<(usize, TrapFrame)>::empty(),
            env.unhandled_log() == Seq::<usize>::empty(),
    {
        TrapEnvSim {
            program: Vec::new(),
            exception_frames: Vec::new(),
            emulation_frames: Vec::new(),
            direct_lines: Vec::new(),
            unhandled_codes: Vec::new(),
        }
    }

    /// Load the instruction store: slot `pc` of `program` becomes the word
    /// at address `pc`; every address beyond it reads zero.
    pub fn load_program(&mut self, program: Vec<usize>)
        ensures
            final(self).wf(),
            forall|pc: usize|
                final(self).insn_at(pc) == (if pc < program@.len() {
                    program@[pc as int]
                } else {
                    0usize
                }),
            final(self).exception_log() == old(self).exception_log(),
            final(self).emulation_log() == old(self).emulation_log(),
            final(self).direct_log() == old(self).direct_log(),
            final(self).unhandled_log() == old(self).unhandled_log(),
    {
        self.program = program;
    }

    /// How many frames the generic exception handler has received.
    pub fn exception_count(&self) -> (n: usize)
        ensures
            n == self.exception_log().len(),
    {
        self.exception_frames.len()
    }

    /// The `i`-th frame the generic exception handler received.
    pub fn exception_at(&self, i: usize) -> (f: TrapFrame)
        requires
            i < self.exception_log().len(),
        ensures
            f == self.exception_log()[i as int],
    {
        self.exception_frames[i]
    }

    /// How many times the emulation routine has run.
    pub fn emulation_count(&self) -> (n: usize)
        ensures
            n == self.emulation_log().len(),
    {
        self.emulation_frames.len()
    }

    /// The frames the `i`-th emulation run received and left behind.
    pub fn emulation_at(&self, i: usize) -> (e: (EmulationTrapFrame, EmulationTrapFrame))
        requires
            i < self.emulation_log().len(),
        ensures
            e == self.emulation_log()[i as int],
    {
        self.emulation_frames[i]
    }

    /// How many traps went to non-vectored line handlers.
    pub fn direct_count(&self) -> (n: usize)
        ensures
            n == self.direct_log().len(),
    {
        self.direct_lines.len()
    }

    /// The `i`-th non-vectored dispatch: the line code and the frame its
    /// handler received.
    pub fn direct_at(&self, i: usize) -> (e: (usize, TrapFrame))
        requires
            i < self.direct_log().len(),
        ensures
            e == self.direct_log()[i as int],
    {
        self.direct_lines[i]
    }

    /// How many cause codes fell through to the default handler.
    pub fn unhandled_count(&self) -> (n: usize)
        ensures
            n == self.unhandled_log().len(),
    {
        self.unhandled_codes.len()
    }

    /// The `i`-th cause code that fell through to the default handler.
    pub fn unhandled_at(&self, i: usize) -> (c: usize)
        requires
            i < self.unhandled_log().len(),
        ensures
            c == self.unhandled_log()[i as int],
    {
        self.unhandled_codes[i]
    }
}

impl TrapEnv for TrapEnvSim {
    open spec fn wf(&self) -> bool {
        true
    }

    closed spec fn insn_at(&self, pc: usize) -> usize {
        if pc < self.program@.len() {
            self.program@[pc as int]
        } else {
            0
        }
    }

    closed spec fn exception_log(&self) -> Seq<TrapFrame> {
        self.exception_frames@
    }

    closed spec fn emulation_log(&self) -> Seq<(EmulationTrapFrame, EmulationTrapFrame)> {
        self.emulation_frames@
    }

    closed spec fn direct_log(&self) -> Seq<(usize, TrapFrame)> {
        self.direct_lines@
    }

    closed spec fn unhandled_log(&self) -> Seq<usize> {
        self.unhandled_codes@
    }

    fn fetch_insn(&self, pc: usize) -> (insn: usize) {
        if pc < self.program.len() {
            self.program[pc]
        } else {
            0
        }
    }

    fn exception_handler(&mut self, context: &mut TrapFrame) {
        self.exception_frames.push(*context);
    }

    /// Stand-in emulation: records the run and steps the program counter
    /// past the emulated instruction, as the real routine does on success.
    fn emulate_atomic(&mut self, frame: &mut EmulationTrapFrame) {
        let received = *frame;
        if frame.pc <= usize::MAX - 4 {
            frame.pc = frame.pc + 4;
        }
        self.emulation_frames.push((received, *frame));
        proof {
            assert(self.emulation_log() =~= old(self).emulation_log().push(
                (*old(frame), *final(frame)),
            ));
        }
    }

    fn direct_line_handler(&mut self, code: usize, context: &mut TrapFrame) {
        self.direct_lines.push((code, *context));
    }

    fn default_handler(&mut self, code: usize) {
        self.unhandled_codes.push(code);
    }
}

/// How one exception changes the environment and the trap frame.
///
/// If the faulting instruction is no atomic memory operation, the frame is
/// forwarded to the generic exception handler unmodified from the one
/// captured at trap entry, and no emulation runs. If it is one, the
/// emulation routine receives exactly the entry frame translated into the
/// emulation layout (register zero slot zero), and the entry frame ends
/// with every general-purpose register and the program counter taken from
/// the routine's output, its control/status fields untouched.
pub open spec fn exception_relation<E: TrapEnv>(
    e0: E,
    e1: E,
    pc: usize,
    c0: TrapFrame,
    c1: TrapFrame,
) -> bool {
    &&& e1.wf()
    &&& e1.unhandled_log() == e0.unhandled_log()
    &&& e1.direct_log() == e0.direct_log()
    &&& (forall|a: usize| e1.insn_at(a) == e0.insn_at(a))
    &&& if is_atomic_opcode(e0.insn_at(pc)) {
        &&& e1.exception_log() == e0.exception_log()
        &&& e1.emulation_log().len() == e0.emulation_log().len() + 1
        &&& e1.emulation_log() == e0.emulation_log().push(e1.emulation_log().last())
        &&& e1.emulation_log().last().0 == emulation_frame_of(c0)
        &&& c1 == written_back_frame(c0, e1.emulation_log().last().1)
    } else {
        &&& e1.emulation_log() == e0.emulation_log()
        &&& e1.exception_log() == e0.exception_log().push(c0)
    }
}

/// Apply atomic emulation if needed: fetches the instruction at the
/// faulting `pc` and, if it is an atomic memory operation the core cannot
/// execute natively, translates the trap frame into the emulation layout,
/// runs the software emulation routine, and copies every field the routine
/// may have mutated back. Calls the generic exception handler otherwise;
/// this subsystem does not interpret ordinary faults.
pub fn handle_exception<E: TrapEnv>(env: &mut E, pc: usize, context: &mut TrapFrame)
    requires
        old(env).wf(),
    ensures
        exception_relation(*old(env), *final(env), pc, *old(context), *final(context)),
{
    let insn = env.fetch_insn(pc);
    let needs_atomic_emulation = riscv_atomic_emulation_trap::is_atomic_instruction(insn);

    if !needs_atomic_emulation {
        env.exception_handler(context);
        return;
    }

    let mut atomic_emulation_trap_frame = to_emulation_frame(context);
    env.emulate_atomic(&mut atomic_emulation_trap_frame);
    from_emulation_frame(context, &atomic_emulation_trap_frame);
}

/// The single entry point the hardware trap vector calls, for every trap.
///
/// The caller hands in what the hardware's cause register says: whether the
/// trap is an asynchronous interrupt and its numeric code. An exception
/// goes to [`handle_exception`] at the frame's saved program counter; an
/// interrupt code of 1 to 15 goes to the vectored dispatch of that line; 16
/// to 31 goes to that line's own handler; any other code falls through to
/// the default handler — never a crash in this subsystem itself.
pub fn start_trap_rust_hal<E: TrapEnv, H: PeripheralHandlers>(
    core: &mut InterruptCore,
    env: &mut E,
    handlers: &mut H,
    is_interrupt: bool,
    code: usize,
    context: &mut TrapFrame,
)
    requires
        old(core)@.wf(),
        old(env).wf(),
        old(handlers).wf(),
    ensures
        final(core)@.wf(),
        final(env).wf(),
        final(handlers).wf(),
        !is_interrupt ==> {
            &&& exception_relation(
                *old(env),
                *final(env),
                old(context).pc,
                *old(context),
                *final(context),
            )
            &&& final(core)@ == old(core)@
            &&& *final(handlers) == *old(handlers)
        },
        is_interrupt && 1 <= code <= 15 ==> {
            &&& vectored_dispatch_relation(
                old(core)@,
                final(core)@,
                *old(handlers),
                *final(handlers),
                code as u32,
            )
            &&& *final(env) == *old(env)
        },
        is_interrupt && 16 <= code <= 31 ==> {
            &&& final(env).direct_log() == old(env).direct_log().push((code, *old(context)))
            &&& final(env).exception_log() == old(env).exception_log()
            &&& final(env).emulation_log() == old(env).emulation_log()
            &&& final(env).unhandled_log() == old(env).unhandled_log()
            &&& (forall|a: usize| final(env).insn_at(a) == old(env).insn_at(a))
            &&& final(core)@ == old(core)@
            &&& *final(handlers) == *old(handlers)
        },
        is_interrupt && !(1 <= code <= 31) ==> {
            &&& final(env).unhandled_log() == old(env).unhandled_log().push(code)
            &&& final(env).exception_log() == old(env).exception_log()
            &&& final(env).emulation_log() == old(env).emulation_log()
            &&& final(env).direct_log() == old(env).direct_log()
            &&& (forall|a: usize| final(env).insn_at(a) == old(env).insn_at(a))
            &&& final(core)@ == old(core)@
            &&& *final(handlers) == *old(handlers)
            &&& *final(context) == *old(context)
        },
{
    if !is_interrupt {
        let pc = context.pc;
        handle_exception(env, pc, context);
    } else if 1 <= code && code <= 15 {
        let which = cpu_interrupt_from_code(code).unwrap();
        handle_interrupts(core, handlers, which, context);
    } else if 16 <= code && code <= 31 {
        env.direct_line_handler(code, context);
    } else {
        env.default_handler(code);
    }
}

} // verus!
