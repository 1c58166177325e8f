//! Vectored dispatch subsystem.
//!
//! CPU interrupt lines 1 to 15 are reserved as one bucket per priority
//! level: line N carries priority N. [`init_vectoring`] performs the
//! one-time boot setup, [`enable`] routes a peripheral source to the line of
//! its priority, and [`handle_interrupts`] turns one firing line into the
//! handler invocations of exactly the pending sources routed to it, in
//! ascending source order.

use vstd::prelude::*;

use crate::bits::{bit128, lemma_bit128_and, lemma_bit128_set_one, lemma_bit128_zero,
    lemma_bit32_set_one, lemma_bit32_write_one};
use crate::frame::TrapFrame;
use crate::handlers::PeripheralHandlers;
use crate::registers::{CoreView, InterruptCore, SOURCE_COUNT, clear_post, enable_line_post,
    get_status, map_post, clear, enable_cpu_interrupt, set_kind, set_priority};
use crate::types::{CpuInterrupt, InterruptKind, Priority, cpu_interrupt_number,
    cpu_interrupt_of_priority, priority_from_number, spec_cpu_interrupt_number,
    spec_priority_number};

verus! {

/// Interrupt error: the one caller-observable error of this subsystem.
#[derive(Copy, Clone, Debug, PartialEq, Eq, Structural)]
pub enum Error {
    /// Priority 0 was requested for an active routing.
    InvalidInterruptPriority,
}

/// Enables a peripheral interrupt at a given priority: maps the source to
/// the CPU line numerically equal to the priority, then enables that line.
/// Priority 0 (`Disabled`) is rejected as [`Error::InvalidInterruptPriority`]
/// with no register mutation.
///
/// Note that interrupts still need to be enabled globally for interrupts to
/// be serviced.
pub fn enable(core: &mut InterruptCore, interrupt: usize, level: Priority) -> (result: Result<
    (),
    Error,
>)
    requires
        old(core)@.wf(),
        interrupt < SOURCE_COUNT,
    ensures
        final(core)@.wf(),
        level == Priority::Disabled ==> result == Err::<(), Error>(
            Error::InvalidInterruptPriority,
        ) && final(core)@ == old(core)@,
        level != Priority::Disabled ==> {
            &&& result == Ok::<(), Error>(())
            &&& final(core)@ == enable_line_post(
                map_post(old(core)@, interrupt as int, spec_priority_number(level)),
                spec_priority_number(level),
            )
            &&& final(core)@.intr_map[interrupt as int] == spec_priority_number(level)
            &&& final(core)@.line_enabled(spec_priority_number(level))
        },
{
    if matches!(level, Priority::Disabled) {
        return Err(Error::InvalidInterruptPriority);
    }
    let cpu_interrupt = cpu_interrupt_of_priority(level);
    crate::registers::map(core, interrupt, cpu_interrupt);
    enable_cpu_interrupt(core, cpu_interrupt);
    Ok(())
}

/// Setup for vectored dispatch, run once at boot before any peripheral
/// source is mapped and before global interrupts are enabled: each of the
/// CPU lines 1 to 15 is made level-triggered, given its own number as
/// priority, and enabled. No other register state is disturbed.
pub fn init_vectoring(core: &mut InterruptCore)
    requires
        old(core)@.wf(),
    ensures
        final(core)@.wf(),
        forall|n: u32|
            #![trigger final(core)@.cpu_int_pri[n as int]]
            1 <= n <= 15 ==> final(core)@.cpu_int_pri[n as int] == n,
        forall|n: u32| 1 <= n <= 15 ==> #[trigger] final(core)@.line_enabled(n),
        forall|n: u32| 1 <= n <= 15 ==> !(#[trigger] final(core)@.line_is_edge(n)),
        forall|n: u32|
            n == 0 || 16 <= n < 32 ==> final(core)@.cpu_int_pri[n as int] == old(
                core,
            )@.cpu_int_pri[n as int],
        forall|n: u32|
            n == 0 || 16 <= n < 32 ==> final(core)@.line_enabled(n) == old(core)@.line_enabled(n),
        forall|n: u32|
            n == 0 || 16 <= n < 32 ==> final(core)@.line_is_edge(n) == old(core)@.line_is_edge(n),
        final(core)@.intr_map == old(core)@.intr_map,
        final(core)@.cpu_int_clear == old(core)@.cpu_int_clear,
        final(core)@.intr_status_0 == old(core)@.intr_status_0,
        final(core)@.intr_status_1 == old(core)@.intr_status_1,
{
    let mut i: u32 = 1;
    while i <= 15
        invariant
            1 <= i <= 16,
            core@.wf(),
            forall|n: u32|
                #![trigger core@.cpu_int_pri[n as int]]
                1 <= n < i ==> core@.cpu_int_pri[n as int] == n,
            forall|n: u32| 1 <= n < i ==> #[trigger] core@.line_enabled(n),
            forall|n: u32| 1 <= n < i ==> !(#[trigger] core@.line_is_edge(n)),
            forall|n: u32|
                (n == 0 || i <= n < 32) ==> core@.cpu_int_pri[n as int] == old(
                    core,
                )@.cpu_int_pri[n as int],
            forall|n: u32|
                (n == 0 || i <= n < 32) ==> core@.line_enabled(n) == old(core)@.line_enabled(n),
            forall|n: u32|
                (n == 0 || i <= n < 32) ==> core@.line_is_edge(n) == old(core)@.line_is_edge(n),
            core@.intr_map == old(core)@.intr_map,
            core@.cpu_int_clear == old(core)@.cpu_int_clear,
            core@.intr_status_0 == old(core)@.intr_status_0,
            core@.intr_status_1 == old(core)@.intr_status_1,
        decreases 16 - i,
    {
        let ghost pre = core@;
        let level = priority_from_number(i).unwrap();
        let which = cpu_interrupt_of_priority(level);
        set_kind(core, which, InterruptKind::Level);
        set_priority(core, which, level);
        enable_cpu_interrupt(core, which);
        proof {
            assert(core@.cpu_int_pri =~= pre.cpu_int_pri.update(i as int, i));
            assert forall|t: u32| t < 32 implies core@.line_is_edge(t) == (if t == i {
                false
            } else {
                pre.line_is_edge(t)
            }) by {
                lemma_bit32_write_one(pre.cpu_int_type, i, 0, t);
            }
            assert forall|t: u32| t < 32 implies core@.line_enabled(t) == (pre.line_enabled(t)
                || t == i) by {
                lemma_bit32_set_one(pre.cpu_int_enable, i, t);
            }
            assert forall|n: u32| 1 <= n <= i implies {
                &&& core@.cpu_int_pri[n as int] == n
                &&& core@.line_enabled(n)
                &&& !core@.line_is_edge(n)
            } by {
                if n < i {
                    assert(pre.cpu_int_pri[n as int] == n);
                    assert(pre.line_enabled(n));
                    assert(!pre.line_is_edge(n));
                }
                assert(core@.cpu_int_pri[n as int] == n);
                assert(core@.line_enabled(n));
                assert(!core@.line_is_edge(n));
            }
        }
        i = i + 1;
    }
}

/// The sources among 0 to `n`-1 that a dispatch for `line` services, in
/// ascending order: every valid pending source whose mapping slot holds
/// `line`.
pub open spec fn dispatch_prefix(v: CoreView, line: u32, n: int) -> Seq<u8>
    decreases n,
{
    if n <= 0 {
        Seq::empty()
    } else {
        let s = n - 1;
        if 0 <= s < SOURCE_COUNT && v.source_pending(s) && v.intr_map[s] == line {
            dispatch_prefix(v, line, s).push(s as u8)
        } else {
            dispatch_prefix(v, line, s)
        }
    }
}

/// The sources a dispatch for `line` services, in the order their handlers
/// are invoked: the valid pending sources mapped to `line`, ascending.
pub open spec fn dispatch_sources(v: CoreView, line: u32) -> Seq<u8> {
    dispatch_prefix(v, line, 64)
}

proof fn lemma_dispatch_prefix_props(v: CoreView, line: u32, n: int)
    requires
        0 <= n <= 64,
    ensures
        forall|i: int|
            0 <= i < dispatch_prefix(v, line, n).len() ==> {
                &&& dispatch_prefix(v, line, n)[i] < n
                &&& (dispatch_prefix(v, line, n)[i] as int) < SOURCE_COUNT
                &&& v.source_pending(dispatch_prefix(v, line, n)[i] as int)
                &&& v.intr_map[dispatch_prefix(v, line, n)[i] as int] == line
            },
        forall|i: int, j: int|
            0 <= i < j < dispatch_prefix(v, line, n).len() ==> dispatch_prefix(v, line, n)[i]
                < dispatch_prefix(v, line, n)[j],
        forall|s: int|
            0 <= s < n && s < SOURCE_COUNT && v.source_pending(s) && v.intr_map[s] == line
                ==> dispatch_prefix(v, line, n).contains(s as u8),
    decreases n,
{
    if n > 0 {
        lemma_dispatch_prefix_props(v, line, n - 1);
        let prev = dispatch_prefix(v, line, n - 1);
        let cur = dispatch_prefix(v, line, n);
        assert forall|s: int|
            0 <= s < n && s < SOURCE_COUNT && v.source_pending(s) && v.intr_map[s] == line
                implies cur.contains(s as u8) by {
            if s < n - 1 {
                let i = choose|i: int| 0 <= i < prev.len() && prev[i] == s as u8;
                assert(cur[i] == s as u8);
            } else {
                assert(cur[cur.len() - 1] == s as u8);
            }
        }
    }
}

/// Dispatch soundness: a dispatch for `line` services only sources whose
/// simultaneously-read mapping resolves to `line` and whose pending bit is
/// set in the status snapshot; sources mapped to any other line, or
/// unmapped, are never serviced. Completeness: every valid pending source
/// mapped to `line` is serviced.
pub proof fn lemma_dispatch_sources_exact(v: CoreView, line: u32)
    ensures
        forall|i: int|
            0 <= i < dispatch_sources(v, line).len() ==> {
                &&& (dispatch_sources(v, line)[i] as int) < SOURCE_COUNT
                &&& v.source_pending(dispatch_sources(v, line)[i] as int)
                &&& v.intr_map[dispatch_sources(v, line)[i] as int] == line
            },
        forall|s: int|
            0 <= s < SOURCE_COUNT && v.source_pending(s) && v.intr_map[s] == line
                ==> dispatch_sources(v, line).contains(s as u8),
{
    lemma_dispatch_prefix_props(v, line, 64);
}

/// Dispatch order: within one dispatch invocation, handlers run in strictly
/// ascending source-identifier order — the tie-break for multiple sources
/// simultaneously pending at the same priority.
pub proof fn lemma_dispatch_sources_ascending(v: CoreView, line: u32)
    ensures
        forall|i: int, j: int|
            0 <= i < j < dispatch_sources(v, line).len() ==> dispatch_sources(v, line)[i]
                < dispatch_sources(v, line)[j],
{
    lemma_dispatch_prefix_props(v, line, 64);
}

/// How one vectored dispatch changes the controller and the handler state:
/// exactly one word — the firing line's bit — is written to the
/// write-one-to-clear register, no other register state moves, and the
/// handlers of exactly the pending sources mapped to the line are invoked,
/// in ascending source order.
pub open spec fn vectored_dispatch_relation<H: PeripheralHandlers>(
    v0: CoreView,
    v1: CoreView,
    h0: H,
    h1: H,
    line: u32,
) -> bool {
    &&& v1.wf()
    &&& v1 == clear_post(v0, line)
    &&& h1.wf()
    &&& h1.invoked() == h0.invoked() + dispatch_sources(v0, line)
}

/// Clearing: one dispatch for a line writes the write-one-to-clear register
/// exactly once, with only that line's bit set, and moves no other register
/// state.
pub proof fn lemma_dispatch_clears_once<H: PeripheralHandlers>(
    v0: CoreView,
    v1: CoreView,
    h0: H,
    h1: H,
    line: u32,
)
    requires
        vectored_dispatch_relation(v0, v1, h0, h1, line),
    ensures
        v1.cpu_int_clear == v0.cpu_int_clear.push(1u32 << line),
        v1.intr_map == v0.intr_map,
        v1.cpu_int_enable == v0.cpu_int_enable,
        v1.cpu_int_type == v0.cpu_int_type,
        v1.cpu_int_pri == v0.cpu_int_pri,
        v1.intr_status_0 == v0.intr_status_0,
        v1.intr_status_1 == v0.intr_status_1,
{
}

/// Get the interrupts configured for the core: buckets the set bits of the
/// aggregate `status` snapshot by the CPU line each source's mapping slot
/// holds. Entry 0 collects the sources routed to no line; entries 1 to 15
/// are the priority buckets. A set status bit at a position that is no
/// valid peripheral source falls into no bucket.
pub fn get_configured_interrupts(core: &InterruptCore, status: u128) -> (configured: Vec<u128>)
    requires
        core@.wf(),
    ensures
        configured@.len() == 16,
        forall|l: u32, t: u128|
            #![trigger bit128(configured@[l as int], t)]
            l < 16 && t < 128 ==> (bit128(configured@[l as int], t) <==> (bit128(status, t) && t
                < SOURCE_COUNT && core@.intr_map[t as int] == l)),
{
    let mut configured: Vec<u128> = vec![0u128; 16];
    proof {
        assert forall|l: u32, t: u128| l < 16 && t < 128 implies !bit128(
            configured@[l as int],
            t,
        ) by {
            lemma_bit128_zero(t);
        }
    }
    let mut s: usize = 0;
    while s < SOURCE_COUNT
        invariant
            s <= SOURCE_COUNT,
            core@.wf(),
            configured@.len() == 16,
            forall|l: u32, t: u128|
                #![trigger bit128(configured@[l as int], t)]
                l < 16 && t < 128 ==> (bit128(configured@[l as int], t) <==> (t < s && bit128(
                    status,
                    t,
                ) && core@.intr_map[t as int] == l)),
        decreases SOURCE_COUNT - s,
    {
        let pending = (status >> (s as u128)) & 1 == 1;
        if pending {
            let line = core.mapped_line(s);
            if line < 16 {
                let ghost before = configured@;
                let updated = configured[line as usize] | (1u128 << (s as u128));
                configured[line as usize] = updated;
                proof {
                    assert forall|l: u32, t: u128| l < 16 && t < 128 implies (bit128(
                        configured@[l as int],
                        t,
                    ) <==> (t < s + 1 && bit128(status, t) && core@.intr_map[t as int] == l)) by {
                        if l == line {
                            lemma_bit128_set_one(before[l as int], s as u128, t);
                        }
                    }
                }
            }
        }
        s = s + 1;
    }
    configured
}

/// Dispatch on trap entry for a firing CPU line, 1 to 15: snapshots the
/// aggregate pending status, unconditionally clears the line's pending bit
/// (required for edge lines, harmless for level lines), reconstructs from
/// the live mapping table which pending sources belong to the line, and
/// invokes their handlers in ascending source order. A set status bit whose
/// position is no valid peripheral source is silently skipped: the source
/// may have deasserted between the snapshot and the mapping read.
pub fn handle_interrupts<H: PeripheralHandlers>(
    core: &mut InterruptCore,
    handlers: &mut H,
    cpu_intr: CpuInterrupt,
    context: &mut TrapFrame,
)
    requires
        old(core)@.wf(),
        old(handlers).wf(),
        spec_cpu_interrupt_number(cpu_intr) <= 15,
    ensures
        vectored_dispatch_relation(
            old(core)@,
            final(core)@,
            *old(handlers),
            *final(handlers),
            spec_cpu_interrupt_number(cpu_intr),
        ),
{
    let ghost v0 = old(core)@;
    let ghost line_num = spec_cpu_interrupt_number(cpu_intr);
    let status = get_status(core);

    // this has no effect on level interrupts, but the interrupt may be an
    // edge one so we clear it anyway
    clear(core, cpu_intr);

    let configured = get_configured_interrupts(core, status);
    let line = cpu_interrupt_number(cpu_intr);
    let interrupt_mask = status & configured[line as usize];

    proof {
        assert(core@.intr_map == v0.intr_map);
        assert forall|t: u128| t < 128 implies (bit128(interrupt_mask, t) <==> (bit128(status, t)
            && t < SOURCE_COUNT && v0.intr_map[t as int] == line_num)) by {
            lemma_bit128_and(status, configured@[line_num as int], t);
            assert(bit128(configured@[line_num as int], t) <==> (bit128(status, t) && t
                < SOURCE_COUNT && core@.intr_map[t as int] == line_num));
        }
    }

    let mut s: usize = 0;
    while s < 64
        invariant
            s <= 64,
            core@.wf(),
            core@ == clear_post(v0, line_num),
            handlers.wf(),
            handlers.invoked() == old(handlers).invoked() + dispatch_prefix(v0, line_num, s as int),
            forall|t: u128|
                t < 128 ==> (#[trigger] bit128(interrupt_mask, t) <==> (bit128(status, t) && t
                    < SOURCE_COUNT && v0.intr_map[t as int] == line_num)),
            status == v0.status_word(),
            forall|t: u128|
                t < 64 ==> #[trigger] bit128(v0.status_word(), t) == v0.source_pending(t as int),
        decreases 64 - s,
    {
        let ghost invoked_pre = handlers.invoked();
        let hit = (interrupt_mask >> (s as u128)) & 1 == 1;
        proof {
            assert(hit == bit128(interrupt_mask, s as u128));
            assert(bit128(v0.status_word(), s as u128) == v0.source_pending(s as int));
        }
        // a set bit at a position that is no valid peripheral source means
        // the source already deasserted: silently ignore it
        if hit && s < SOURCE_COUNT {
            handlers.handle_source(s as u8, context);
        }
        proof {
            if hit && s < SOURCE_COUNT {
                assert(v0.source_pending(s as int) && v0.intr_map[s as int] == line_num);
                assert(dispatch_prefix(v0, line_num, s + 1) == dispatch_prefix(
                    v0,
                    line_num,
                    s as int,
                ).push(s as u8));
                assert(handlers.invoked() == invoked_pre.push(s as u8));
                assert(handlers.invoked() =~= old(handlers).invoked() + dispatch_prefix(
                    v0,
                    line_num,
                    s + 1,
                ));
            } else {
                assert(!(v0.source_pending(s as int) && s < SOURCE_COUNT && v0.intr_map[s as int]
                    == line_num));
                assert(dispatch_prefix(v0, line_num, s + 1) == dispatch_prefix(
                    v0,
                    line_num,
                    s as int,
                ));
            }
        }
        s = s + 1;
    }
    proof {
        assert(handlers.invoked() == old(handlers).invoked() + dispatch_sources(v0, line_num));
    }
}

/// Trap-vector entry point for CPU interrupt line 1: vectored dispatch of
/// the pending sources routed to it.
pub fn interrupt1<H: PeripheralHandlers>(
    core: &mut InterruptCore,
    handlers: &mut H,
    context: &mut TrapFrame,
)
    requires
        old(core)@.wf(),
        old(handlers).wf(),
    ensures
        vectored_dispatch_relation(old(core)@, final(core)@, *old(handlers), *final(handlers), 1),
{
    handle_interrupts(core, handlers, CpuInterrupt::Interrupt1, context)
}

/// Trap-vector entry point for CPU interrupt line 2: vectored dispatch of
/// the pending sources routed to it.
pub fn interrupt2<H: PeripheralHandlers>(
    core: &mut InterruptCore,
    handlers: &mut H,
    context: &mut TrapFrame,
)
    requires
        old(core)@.wf(),
        old(handlers).wf(),
    ensures
        vectored_dispatch_relation(old(core)@, final(core)@, *old(handlers), *final(handlers), 2),
{
    handle_interrupts(core, handlers, CpuInterrupt::Interrupt2, context)
}

/// Trap-vector entry point for CPU interrupt line 3: vectored dispatch of
/// the pending sources routed to it.
pub fn interrupt3<H: PeripheralHandlers>(
    core: &mut InterruptCore,
    handlers: &mut H,
    context: &mut TrapFrame,
)
    requires
        old(core)@.wf(),
        old(handlers).wf(),
    ensures
        vectored_dispatch_relation(old(core)@, final(core)@, *old(handlers), *final(handlers), 3),
{
    handle_interrupts(core, handlers, CpuInterrupt::Interrupt3, context)
}

/// Trap-vector entry point for CPU interrupt line 4: vectored dispatch of
/// the pending sources routed to it.
pub fn interrupt4<H: PeripheralHandlers>(
    core: &mut InterruptCore,
    handlers: &mut H,
    context: &mut TrapFrame,
)
    requires
        old(core)@.wf(),
        old(handlers).wf(),
    ensures
        vectored_dispatch_relation(old(core)@, final(core)@, *old(handlers), *final(handlers), 4),
{
    handle_interrupts(core, handlers, CpuInterrupt::Interrupt4, context)
}

/// Trap-vector entry point for CPU interrupt line 5: vectored dispatch of
/// the pending sources routed to it.
pub fn interrupt5<H: PeripheralHandlers>(
    core: &mut InterruptCore,
    handlers: &mut H,
    context: &mut TrapFrame,
)
    requires
        old(core)@.wf(),
        old(handlers).wf(),
    ensures
        vectored_dispatch_relation(old(core)@, final(core)@, *old(handlers), *final(handlers), 5),
{
    handle_interrupts(core, handlers, CpuInterrupt::Interrupt5, context)
}

/// Trap-vector entry point for CPU interrupt line 6: vectored dispatch of
/// the pending sources routed to it.
pub fn interrupt6<H: PeripheralHandlers>(
    core: &mut InterruptCore,
    handlers: &mut H,
    context: &mut TrapFrame,
)
    requires
        old(core)@.wf(),
        old(handlers).wf(),
    ensures
        vectored_dispatch_relation(old(core)@, final(core)@, *old(handlers), *final(handlers), 6),
{
    handle_interrupts(core, handlers, CpuInterrupt::Interrupt6, context)
}

/// Trap-vector entry point for CPU interrupt line 7: vectored dispatch of
/// the pending sources routed to it.
pub fn interrupt7<H: PeripheralHandlers>(
    core: &mut InterruptCore,
    handlers: &mut H,
    context: &mut TrapFrame,
)
    requires
        old(core)@.wf(),
        old(handlers).wf(),
    ensures
        vectored_dispatch_relation(old(core)@, final(core)@, *old(handlers), *final(handlers), 7),
{
    handle_interrupts(core, handlers, CpuInterrupt::Interrupt7, context)
}

/// Trap-vector entry point for CPU interrupt line 8: vectored dispatch of
/// the pending sources routed to it.
pub fn interrupt8<H: PeripheralHandlers>(
    core: &mut InterruptCore,
    handlers: &mut H,
    context: &mut TrapFrame,
)
    requires
        old(core)@.wf(),
        old(handlers).wf(),
    ensures
        vectored_dispatch_relation(old(core)@, final(core)@, *old(handlers), *final(handlers), 8),
{
    handle_interrupts(core, handlers, CpuInterrupt::Interrupt8, context)
}

/// Trap-vector entry point for CPU interrupt line 9: vectored dispatch of
/// the pending sources routed to it.
pub fn interrupt9<H: PeripheralHandlers>(
    core: &mut InterruptCore,
    handlers: &mut H,
    context: &mut TrapFrame,
)
    requires
        old(core)@.wf(),
        old(handlers).wf(),
    ensures
        vectored_dispatch_relation(old(core)@, final(core)@, *old(handlers), *final(handlers), 9),
{
    handle_interrupts(core, handlers, CpuInterrupt::Interrupt9, context)
}

/// Trap-vector entry point for CPU interrupt line 10: vectored dispatch of
/// the pending sources routed to it.
pub fn interrupt10<H: PeripheralHandlers>(
    core: &mut InterruptCore,
    handlers: &mut H,
    context: &mut TrapFrame,
)
    requires
        old(core)@.wf(),
        old(handlers).wf(),
    ensures
        vectored_dispatch_relation(old(core)@, final(core)@, *old(handlers), *final(handlers), 10),
{
    handle_interrupts(core, handlers, CpuInterrupt::Interrupt10, context)
}

/// Trap-vector entry point for CPU interrupt line 11: vectored dispatch of
/// the pending sources routed to it.
pub fn interrupt11<H: PeripheralHandlers>(
    core: &mut InterruptCore,
    handlers: &mut H,
    context: &mut TrapFrame,
)
    requires
        old(core)@.wf(),
        old(handlers).wf(),
    ensures
        vectored_dispatch_relation(old(core)@, final(core)@, *old(handlers), *final(handlers), 11),
{
    handle_interrupts(core, handlers, CpuInterrupt::Interrupt11, context)
}

/// Trap-vector entry point for CPU interrupt line 12: vectored dispatch of
/// the pending sources routed to it.
pub fn interrupt12<H: PeripheralHandlers>(
    core: &mut InterruptCore,
    handlers: &mut H,
    context: &mut TrapFrame,
)
    requires
        old(core)@.wf(),
        old(handlers).wf(),
    ensures
        vectored_dispatch_relation(old(core)@, final(core)@, *old(handlers), *final(handlers), 12),
{
    handle_interrupts(core, handlers, CpuInterrupt::Interrupt12, context)
}

/// Trap-vector entry point for CPU interrupt line 13: vectored dispatch of
/// the pending sources routed to it.
pub fn interrupt13<H: PeripheralHandlers>(
    core: &mut InterruptCore,
    handlers: &mut H,
    context: &mut TrapFrame,
)
    requires
        old(core)@.wf(),
        old(handlers).wf(),
    ensures
        vectored_dispatch_relation(old(core)@, final(core)@, *old(handlers), *final(handlers), 13),
{
    handle_interrupts(core, handlers, CpuInterrupt::Interrupt13, context)
}

/// Trap-vector entry point for CPU interrupt line 14: vectored dispatch of
/// the pending sources routed to it.
pub fn interrupt14<H: PeripheralHandlers>(
    core: &mut InterruptCore,
    handlers: &mut H,
    context: &mut TrapFrame,
)
    requires
        old(core)@.wf(),
        old(handlers).wf(),
    ensures
        vectored_dispatch_relation(old(core)@, final(core)@, *old(handlers), *final(handlers), 14),
{
    handle_interrupts(core, handlers, CpuInterrupt::Interrupt14, context)
}

/// Trap-vector entry point for CPU interrupt line 15: vectored dispatch of
/// the pending sources routed to it.
pub fn interrupt15<H: PeripheralHandlers>(
    core: &mut InterruptCore,
    handlers: &mut H,
    context: &mut TrapFrame,
)
    requires
        old(core)@.wf(),
        old(handlers).wf(),
    ensures
        vectored_dispatch_relation(old(core)@, final(core)@, *old(handlers), *final(handlers), 15),
{
    handle_interrupts(core, handlers, CpuInterrupt::Interrupt15, context)
}

} // verus!
