//! Identifier types for CPU interrupt lines, priorities and signalling kinds.

use vstd::prelude::*;

verus! {

/// How a CPU interrupt line signals: a level interrupt's pending bit follows
/// the source, an edge interrupt's pending bit must be cleared by software.
#[derive(Debug, Clone, Copy, PartialEq, Eq, Structural)]
pub enum InterruptKind {
    /// Level interrupt
    Level,
    /// Edge interrupt
    Edge,
}

/// Enumeration of available CPU interrupts: the controller's hardware
/// trap-entry slots, numbered 1 to 31. When vectored dispatch is in effect,
/// interrupts 1 to 15 are reserved as one bucket per priority level.
#[derive(Debug, Clone, Copy, PartialEq, Eq, Structural)]
pub enum CpuInterrupt {
    Interrupt1,
    Interrupt2,
    Interrupt3,
    Interrupt4,
    Interrupt5,
    Interrupt6,
    Interrupt7,
    Interrupt8,
    Interrupt9,
    Interrupt10,
    Interrupt11,
    Interrupt12,
    Interrupt13,
    Interrupt14,
    Interrupt15,
    Interrupt16,
    Interrupt17,
    Interrupt18,
    Interrupt19,
    Interrupt20,
    Interrupt21,
    Interrupt22,
    Interrupt23,
    Interrupt24,
    Interrupt25,
    Interrupt26,
    Interrupt27,
    Interrupt28,
    Interrupt29,
    Interrupt30,
    Interrupt31,
}

/// Interrupt priority levels. `Disabled` (numerically 0) means disabled or
/// unrouted; 1 to 15 are actionable, higher numerically meaning higher
/// precedence.
#[derive(Debug, Clone, Copy, PartialEq, Eq, Structural)]
pub enum Priority {
    Disabled,
    Priority1,
    Priority2,
    Priority3,
    Priority4,
    Priority5,
    Priority6,
    Priority7,
    Priority8,
    Priority9,
    Priority10,
    Priority11,
    Priority12,
    Priority13,
    Priority14,
    Priority15,
}

/// The hardware line number of a CPU interrupt, 1 to 31.
pub open spec fn spec_cpu_interrupt_number(which: CpuInterrupt) -> u32 {
    match which {
        CpuInterrupt::Interrupt1 => 1,
        CpuInterrupt::Interrupt2 => 2,
        CpuInterrupt::Interrupt3 => 3,
        CpuInterrupt::Interrupt4 => 4,
        CpuInterrupt::Interrupt5 => 5,
        CpuInterrupt::Interrupt6 => 6,
        CpuInterrupt::Interrupt7 => 7,
        CpuInterrupt::Interrupt8 => 8,
        CpuInterrupt::Interrupt9 => 9,
        CpuInterrupt::Interrupt10 => 10,
        CpuInterrupt::Interrupt11 => 11,
        CpuInterrupt::Interrupt12 => 12,
        CpuInterrupt::Interrupt13 => 13,
        CpuInterrupt::Interrupt14 => 14,
        CpuInterrupt::Interrupt15 => 15,
        CpuInterrupt::Interrupt16 => 16,
        CpuInterrupt::Interrupt17 => 17,
        CpuInterrupt::Interrupt18 => 18,
        CpuInterrupt::Interrupt19 => 19,
        CpuInterrupt::Interrupt20 => 20,
        CpuInterrupt::Interrupt21 => 21,
        CpuInterrupt::Interrupt22 => 22,
        CpuInterrupt::Interrupt23 => 23,
        CpuInterrupt::Interrupt24 => 24,
        CpuInterrupt::Interrupt25 => 25,
        CpuInterrupt::Interrupt26 => 26,
        CpuInterrupt::Interrupt27 => 27,
        CpuInterrupt::Interrupt28 => 28,
        CpuInterrupt::Interrupt29 => 29,
        CpuInterrupt::Interrupt30 => 30,
        CpuInterrupt::Interrupt31 => 31,
    }
}

/// The hardware line number of a CPU interrupt, 1 to 31.
#[verifier::when_used_as_spec(spec_cpu_interrupt_number)]
pub fn cpu_interrupt_number(which: CpuInterrupt) -> (n: u32)
    ensures
        n == spec_cpu_interrupt_number(which),
        1 <= n <= 31,
{
    match which {
        CpuInterrupt::Interrupt1 => 1,
        CpuInterrupt::Interrupt2 => 2,
        CpuInterrupt::Interrupt3 => 3,
        CpuInterrupt::Interrupt4 => 4,
        CpuInterrupt::Interrupt5 => 5,
        CpuInterrupt::Interrupt6 => 6,
        CpuInterrupt::Interrupt7 => 7,
        CpuInterrupt::Interrupt8 => 8,
        CpuInterrupt::Interrupt9 => 9,
        CpuInterrupt::Interrupt10 => 10,
        CpuInterrupt::Interrupt11 => 11,
        CpuInterrupt::Interrupt12 => 12,
        CpuInterrupt::Interrupt13 => 13,
        CpuInterrupt::Interrupt14 => 14,
        CpuInterrupt::Interrupt15 => 15,
        CpuInterrupt::Interrupt16 => 16,
        CpuInterrupt::Interrupt17 => 17,
        CpuInterrupt::Interrupt18 => 18,
        CpuInterrupt::Interrupt19 => 19,
        CpuInterrupt::Interrupt20 => 20,
        CpuInterrupt::Interrupt21 => 21,
        CpuInterrupt::Interrupt22 => 22,
        CpuInterrupt::Interrupt23 => 23,
        CpuInterrupt::Interrupt24 => 24,
        CpuInterrupt::Interrupt25 => 25,
        CpuInterrupt::Interrupt26 => 26,
        CpuInterrupt::Interrupt27 => 27,
        CpuInterrupt::Interrupt28 => 28,
        CpuInterrupt::Interrupt29 => 29,
        CpuInterrupt::Interrupt30 => 30,
        CpuInterrupt::Interrupt31 => 31,
    }
}

/// The CPU interrupt with hardware line number `code`, for 1 <= code <= 31;
/// `None` outside that range.
pub fn cpu_interrupt_from_code(code: usize) -> (r: Option<CpuInterrupt>)
    ensures
        1 <= code <= 31 ==> (r matches Some(c) && spec_cpu_interrupt_number(c) == code),
        !(1 <= code <= 31) ==> r is None,
{
    match code {
        1 => Some(CpuInterrupt::Interrupt1),
        2 => Some(CpuInterrupt::Interrupt2),
        3 => Some(CpuInterrupt::Interrupt3),
        4 => Some(CpuInterrupt::Interrupt4),
        5 => Some(CpuInterrupt::Interrupt5),
        6 => Some(CpuInterrupt::Interrupt6),
        7 => Some(CpuInterrupt::Interrupt7),
        8 => Some(CpuInterrupt::Interrupt8),
        9 => Some(CpuInterrupt::Interrupt9),
        10 => Some(CpuInterrupt::Interrupt10),
        11 => Some(CpuInterrupt::Interrupt11),
        12 => Some(CpuInterrupt::Interrupt12),
        13 => Some(CpuInterrupt::Interrupt13),
        14 => Some(CpuInterrupt::Interrupt14),
        15 => Some(CpuInterrupt::Interrupt15),
        16 => Some(CpuInterrupt::Interrupt16),
        17 => Some(CpuInterrupt::Interrupt17),
        18 => Some(CpuInterrupt::Interrupt18),
        19 => Some(CpuInterrupt::Interrupt19),
        20 => Some(CpuInterrupt::Interrupt20),
        21 => Some(CpuInterrupt::Interrupt21),
        22 => Some(CpuInterrupt::Interrupt22),
        23 => Some(CpuInterrupt::Interrupt23),
        24 => Some(CpuInterrupt::Interrupt24),
        25 => Some(CpuInterrupt::Interrupt25),
        26 => Some(CpuInterrupt::Interrupt26),
        27 => Some(CpuInterrupt::Interrupt27),
        28 => Some(CpuInterrupt::Interrupt28),
        29 => Some(CpuInterrupt::Interrupt29),
        30 => Some(CpuInterrupt::Interrupt30),
        31 => Some(CpuInterrupt::Interrupt31),
        _ => None,
    }
}

/// The numeric value of a priority level, 0 (`Disabled`) to 15.
pub open spec fn spec_priority_number(level: Priority) -> u32 {
    match level {
        Priority::Disabled => 0,
        Priority::Priority1 => 1,
        Priority::Priority2 => 2,
        Priority::Priority3 => 3,
        Priority::Priority4 => 4,
        Priority::Priority5 => 5,
        Priority::Priority6 => 6,
        Priority::Priority7 => 7,
        Priority::Priority8 => 8,
        Priority::Priority9 => 9,
        Priority::Priority10 => 10,
        Priority::Priority11 => 11,
        Priority::Priority12 => 12,
        Priority::Priority13 => 13,
        Priority::Priority14 => 14,
        Priority::Priority15 => 15,
    }
}

/// The numeric value of a priority level, 0 (`Disabled`) to 15.
#[verifier::when_used_as_spec(spec_priority_number)]
pub fn priority_number(level: Priority) -> (n: u32)
    ensures
        n == spec_priority_number(level),
        n <= 15,
{
    match level {
        Priority::Disabled => 0,
        Priority::Priority1 => 1,
        Priority::Priority2 => 2,
        Priority::Priority3 => 3,
        Priority::Priority4 => 4,
        Priority::Priority5 => 5,
        Priority::Priority6 => 6,
        Priority::Priority7 => 7,
        Priority::Priority8 => 8,
        Priority::Priority9 => 9,
        Priority::Priority10 => 10,
        Priority::Priority11 => 11,
        Priority::Priority12 => 12,
        Priority::Priority13 => 13,
        Priority::Priority14 => 14,
        Priority::Priority15 => 15,
    }
}

/// The priority level with numeric value `n`, for 1 <= n <= 15; `None`
/// outside that range (0 is not an actionable priority).
pub fn priority_from_number(n: u32) -> (r: Option<Priority>)
    ensures
        1 <= n <= 15 ==> (r matches Some(p) && spec_priority_number(p) == n),
        !(1 <= n <= 15) ==> r is None,
{
    match n {
        1 => Some(Priority::Priority1),
        2 => Some(Priority::Priority2),
        3 => Some(Priority::Priority3),
        4 => Some(Priority::Priority4),
        5 => Some(Priority::Priority5),
        6 => Some(Priority::Priority6),
        7 => Some(Priority::Priority7),
        8 => Some(Priority::Priority8),
        9 => Some(Priority::Priority9),
        10 => Some(Priority::Priority10),
        11 => Some(Priority::Priority11),
        12 => Some(Priority::Priority12),
        13 => Some(Priority::Priority13),
        14 => Some(Priority::Priority14),
        15 => Some(Priority::Priority15),
        _ => None,
    }
}

/// The CPU interrupt line that carries an actionable priority level under
/// vectored dispatch: line N serves priority N.
pub fn cpu_interrupt_of_priority(level: Priority) -> (r: CpuInterrupt)
    requires
        level != Priority::Disabled,
    ensures
        spec_cpu_interrupt_number(r) == spec_priority_number(level),
{
    match level {
        Priority::Disabled => CpuInterrupt::Interrupt1,
        Priority::Priority1 => CpuInterrupt::Interrupt1,
        Priority::Priority2 => CpuInterrupt::Interrupt2,
        Priority::Priority3 => CpuInterrupt::Interrupt3,
        Priority::Priority4 => CpuInterrupt::Interrupt4,
        Priority::Priority5 => CpuInterrupt::Interrupt5,
        Priority::Priority6 => CpuInterrupt::Interrupt6,
        Priority::Priority7 => CpuInterrupt::Interrupt7,
        Priority::Priority8 => CpuInterrupt::Interrupt8,
        Priority::Priority9 => CpuInterrupt::Interrupt9,
        Priority::Priority10 => CpuInterrupt::Interrupt10,
        Priority::Priority11 => CpuInterrupt::Interrupt11,
        Priority::Priority12 => CpuInterrupt::Interrupt12,
        Priority::Priority13 => CpuInterrupt::Interrupt13,
        Priority::Priority14 => CpuInterrupt::Interrupt14,
        Priority::Priority15 => CpuInterrupt::Interrupt15,
    }
}

} // verus!
