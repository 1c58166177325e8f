//! Trap frame and atomic-emulation frame models.
//!
//! A [`TrapFrame`] is the register state captured at trap entry, in the order
//! the trap-entry stub pushes it. An [`EmulationTrapFrame`] holds the same
//! register contents in the differently ordered layout that the software
//! atomic-emulation routine expects, with an explicit always-zero slot for
//! register `x0`. The two conversion functions translate losslessly between
//! the layouts.

use vstd::prelude::*;

verus! {

/// Registers saved by the trap-entry stub, handed to every handler.
///
/// A handler receives a mutable reference and may alter any field; the
/// resumed context observes the altered values.
#[derive(Debug, Clone, Copy, PartialEq, Eq, Structural)]
pub struct TrapFrame {
    pub ra: usize,
    pub t0: usize,
    pub t1: usize,
    pub t2: usize,
    pub t3: usize,
    pub t4: usize,
    pub t5: usize,
    pub t6: usize,
    pub a0: usize,
    pub a1: usize,
    pub a2: usize,
    pub a3: usize,
    pub a4: usize,
    pub a5: usize,
    pub a6: usize,
    pub a7: usize,
    pub s0: usize,
    pub s1: usize,
    pub s2: usize,
    pub s3: usize,
    pub s4: usize,
    pub s5: usize,
    pub s6: usize,
    pub s7: usize,
    pub s8: usize,
    pub s9: usize,
    pub s10: usize,
    pub s11: usize,
    pub gp: usize,
    pub tp: usize,
    pub sp: usize,
    pub pc: usize,
    pub mstatus: usize,
    pub mcause: usize,
    pub mtval: usize,
}

/// The all-zero trap frame.
pub open spec fn zero_trap_frame() -> TrapFrame {
    TrapFrame {
        ra: 0,
        t0: 0,
        t1: 0,
        t2: 0,
        t3: 0,
        t4: 0,
        t5: 0,
        t6: 0,
        a0: 0,
        a1: 0,
        a2: 0,
        a3: 0,
        a4: 0,
        a5: 0,
        a6: 0,
        a7: 0,
        s0: 0,
        s1: 0,
        s2: 0,
        s3: 0,
        s4: 0,
        s5: 0,
        s6: 0,
        s7: 0,
        s8: 0,
        s9: 0,
        s10: 0,
        s11: 0,
        gp: 0,
        tp: 0,
        sp: 0,
        pc: 0,
        mstatus: 0,
        mcause: 0,
        mtval: 0,
    }
}

impl Default for TrapFrame {
    /// Every field of a default-constructed frame is zero.
    fn default() -> (r: TrapFrame)
        ensures
            r == zero_trap_frame(),
    {
        TrapFrame {
            ra: 0,
            t0: 0,
            t1: 0,
            t2: 0,
            t3: 0,
            t4: 0,
            t5: 0,
            t6: 0,
            a0: 0,
            a1: 0,
            a2: 0,
            a3: 0,
            a4: 0,
            a5: 0,
            a6: 0,
            a7: 0,
            s0: 0,
            s1: 0,
            s2: 0,
            s3: 0,
            s4: 0,
            s5: 0,
            s6: 0,
            s7: 0,
            s8: 0,
            s9: 0,
            s10: 0,
            s11: 0,
            gp: 0,
            tp: 0,
            sp: 0,
            pc: 0,
            mstatus: 0,
            mcause: 0,
            mtval: 0,
        }
    }
}

/// Register state in the layout the atomic-emulation routine expects.
///
/// Field-for-field equivalent in content to [`TrapFrame`] but differently
/// ordered, with `fp` standing for the primary frame's `s0`, an explicit
/// always-zero `x0` slot, and no control/status registers.
#[derive(Debug, Clone, Copy, PartialEq, Eq, Structural)]
pub struct EmulationTrapFrame {
    pub x0: usize,
    pub ra: usize,
    pub sp: usize,
    pub gp: usize,
    pub tp: usize,
    pub t0: usize,
    pub t1: usize,
    pub t2: usize,
    pub fp: usize,
    pub s1: usize,
    pub a0: usize,
    pub a1: usize,
    pub a2: usize,
    pub a3: usize,
    pub a4: usize,
    pub a5: usize,
    pub a6: usize,
    pub a7: usize,
    pub s2: usize,
    pub s3: usize,
    pub s4: usize,
    pub s5: usize,
    pub s6: usize,
    pub s7: usize,
    pub s8: usize,
    pub s9: usize,
    pub s10: usize,
    pub s11: usize,
    pub t3: usize,
    pub t4: usize,
    pub t5: usize,
    pub t6: usize,
    pub pc: usize,
}

/// The emulation-layout frame holding `tf`'s register contents, `x0` zero.
pub open spec fn emulation_frame_of(tf: TrapFrame) -> EmulationTrapFrame {
    EmulationTrapFrame {
        x0: 0,
        ra: tf.ra,
        sp: tf.sp,
        gp: tf.gp,
        tp: tf.tp,
        t0: tf.t0,
        t1: tf.t1,
        t2: tf.t2,
        fp: tf.s0,
        s1: tf.s1,
        a0: tf.a0,
        a1: tf.a1,
        a2: tf.a2,
        a3: tf.a3,
        a4: tf.a4,
        a5: tf.a5,
        a6: tf.a6,
        a7: tf.a7,
        s2: tf.s2,
        s3: tf.s3,
        s4: tf.s4,
        s5: tf.s5,
        s6: tf.s6,
        s7: tf.s7,
        s8: tf.s8,
        s9: tf.s9,
        s10: tf.s10,
        s11: tf.s11,
        t3: tf.t3,
        t4: tf.t4,
        t5: tf.t5,
        t6: tf.t6,
        pc: tf.pc,
    }
}

/// `tf` with every general-purpose register and the program counter taken
/// from `ef`; the control/status fields (`mstatus`, `mcause`, `mtval`) keep
/// `tf`'s values. The `x0` slot of `ef` is discarded.
pub open spec fn written_back_frame(tf: TrapFrame, ef: EmulationTrapFrame) -> TrapFrame {
    TrapFrame {
        ra: ef.ra,
        t0: ef.t0,
        t1: ef.t1,
        t2: ef.t2,
        t3: ef.t3,
        t4: ef.t4,
        t5: ef.t5,
        t6: ef.t6,
        a0: ef.a0,
        a1: ef.a1,
        a2: ef.a2,
        a3: ef.a3,
        a4: ef.a4,
        a5: ef.a5,
        a6: ef.a6,
        a7: ef.a7,
        s0: ef.fp,
        s1: ef.s1,
        s2: ef.s2,
        s3: ef.s3,
        s4: ef.s4,
        s5: ef.s5,
        s6: ef.s6,
        s7: ef.s7,
        s8: ef.s8,
        s9: ef.s9,
        s10: ef.s10,
        s11: ef.s11,
        gp: ef.gp,
        tp: ef.tp,
        sp: ef.sp,
        pc: ef.pc,
        mstatus: tf.mstatus,
        mcause: tf.mcause,
        mtval: tf.mtval,
    }
}

/// Builds the emulation-layout frame for `tf`.
pub fn to_emulation_frame(tf: &TrapFrame) -> (ef: EmulationTrapFrame)
    ensures
        ef == emulation_frame_of(*tf),
{
    EmulationTrapFrame {
        x0: 0,
        ra: tf.ra,
        sp: tf.sp,
        gp: tf.gp,
        tp: tf.tp,
        t0: tf.t0,
        t1: tf.t1,
        t2: tf.t2,
        fp: tf.s0,
        s1: tf.s1,
        a0: tf.a0,
        a1: tf.a1,
        a2: tf.a2,
        a3: tf.a3,
        a4: tf.a4,
        a5: tf.a5,
        a6: tf.a6,
        a7: tf.a7,
        s2: tf.s2,
        s3: tf.s3,
        s4: tf.s4,
        s5: tf.s5,
        s6: tf.s6,
        s7: tf.s7,
        s8: tf.s8,
        s9: tf.s9,
        s10: tf.s10,
        s11: tf.s11,
        t3: tf.t3,
        t4: tf.t4,
        t5: tf.t5,
        t6: tf.t6,
        pc: tf.pc,
    }
}

/// Copies every field the emulation routine may have mutated (all
/// general-purpose registers and the program counter) back into `tf`.
pub fn from_emulation_frame(tf: &mut TrapFrame, ef: &EmulationTrapFrame)
    ensures
        *final(tf) == written_back_frame(*old(tf), *ef),
{
    tf.pc = ef.pc;
    tf.ra = ef.ra;
    tf.sp = ef.sp;
    tf.gp = ef.gp;
    tf.tp = ef.tp;
    tf.t0 = ef.t0;
    tf.t1 = ef.t1;
    tf.t2 = ef.t2;
    tf.s0 = ef.fp;
    tf.s1 = ef.s1;
    tf.a0 = ef.a0;
    tf.a1 = ef.a1;
    tf.a2 = ef.a2;
    tf.a3 = ef.a3;
    tf.a4 = ef.a4;
    tf.a5 = ef.a5;
    tf.a6 = ef.a6;
    tf.a7 = ef.a7;
    tf.s2 = ef.s2;
    tf.s3 = ef.s3;
    tf.s4 = ef.s4;
    tf.s5 = ef.s5;
    tf.s6 = ef.s6;
    tf.s7 = ef.s7;
    tf.s8 = ef.s8;
    tf.s9 = ef.s9;
    tf.s10 = ef.s10;
    tf.s11 = ef.s11;
    tf.t3 = ef.t3;
    tf.t4 = ef.t4;
    tf.t5 = ef.t5;
    tf.t6 = ef.t6;
}

/// Translating a frame into the emulation layout and writing it straight
/// back reproduces the original frame exactly: the conversion pair loses
/// no register.
pub proof fn lemma_emulation_round_trip(tf: TrapFrame)
    ensures
        written_back_frame(tf, emulation_frame_of(tf)) == tf,
{
}

/// Whatever the emulation routine leaves in the frame, writing it back
/// never disturbs the control/status fields of the primary frame.
pub proof fn lemma_write_back_preserves_csrs(tf: TrapFrame, ef: EmulationTrapFrame)
    ensures
        written_back_frame(tf, ef).mstatus == tf.mstatus,
        written_back_frame(tf, ef).mcause == tf.mcause,
        written_back_frame(tf, ef).mtval == tf.mtval,
{
}

} // verus!
