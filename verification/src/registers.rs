//! Interrupt register interface.
//!
//! [`InterruptCore`] is the singleton handle for the interrupt controller's
//! memory-mapped register block: the per-source mapping table, the per-line
//! enable, type and priority state, the write-one-to-clear register and the
//! two aggregate pending-status words. Every operation acts on exactly one
//! register or register-array slot; none has a failure path — invalid
//! identifiers are caller contract violations, excluded by precondition.

use vstd::prelude::*;

use crate::bits::{bit32, bit128, lemma_status_concat};
use crate::types::{CpuInterrupt, InterruptKind, Priority, cpu_interrupt_number, priority_number,
    spec_cpu_interrupt_number, spec_priority_number};

verus! {

/// Number of peripheral interrupt sources in the chip's fixed namespace:
/// one mapping-table slot and one pending-status bit per source. The two
/// 32-bit status words cover the space; their top bit positions answer to
/// no source.
pub const SOURCE_COUNT: usize = 62;

/// Number of CPU interrupt line slots in the per-line register arrays.
/// Line 0 is the "unrouted" sentinel; lines 1 to 31 are real trap slots.
pub const LINE_COUNT: usize = 32;

/// The controller's register state, as the contracts see it.
#[verifier::ext_equal]
pub struct CoreView {
    /// Mapping table: the CPU line each peripheral source is routed to
    /// (0 = unmapped), one slot per source.
    pub intr_map: Seq<u32>,
    /// Aggregate line-enable register, one bit per CPU line.
    pub cpu_int_enable: u32,
    /// Line-type register, one bit per CPU line: 0 = level, 1 = edge.
    pub cpu_int_type: u32,
    /// Per-line priority table, one slot per CPU line, values 0 to 15.
    pub cpu_int_pri: Seq<u32>,
    /// History of the values written to the write-one-to-clear register.
    /// The register itself holds no readable state; the write is the
    /// observable event.
    pub cpu_int_clear: Seq<u32>,
    /// Aggregate pending status of peripheral sources 0 to 31.
    pub intr_status_0: u32,
    /// Aggregate pending status of peripheral sources 32 to 61.
    pub intr_status_1: u32,
}

impl CoreView {
    /// The register arrays have their hardware sizes, and every slot holds a
    /// value its hardware field can: a line identifier below [`LINE_COUNT`],
    /// a priority of at most 15.
    pub open spec fn wf(self) -> bool {
        &&& self.intr_map.len() == SOURCE_COUNT
        &&& self.cpu_int_pri.len() == LINE_COUNT
        &&& forall|s: int| 0 <= s < SOURCE_COUNT ==> self.intr_map[s] < LINE_COUNT
        &&& forall|n: int| 0 <= n < LINE_COUNT ==> self.cpu_int_pri[n] <= 15
    }

    /// Whether CPU line `n`'s enable bit is set.
    pub open spec fn line_enabled(self, n: u32) -> bool {
        bit32(self.cpu_int_enable, n)
    }

    /// Whether CPU line `n` is configured as an edge interrupt.
    pub open spec fn line_is_edge(self, n: u32) -> bool {
        bit32(self.cpu_int_type, n)
    }

    /// Whether peripheral source `s` has a pending, enabled interrupt
    /// condition, read from the two aggregate status words.
    pub open spec fn source_pending(self, s: int) -> bool {
        if s < 32 {
            bit32(self.intr_status_0, s as u32)
        } else {
            bit32(self.intr_status_1, (s - 32) as u32)
        }
    }

    /// The 128-bit aggregate status word: the two 32-bit status registers
    /// concatenated, low word first.
    pub open spec fn status_word(self) -> u128 {
        (self.intr_status_0 as u128) | ((self.intr_status_1 as u128) << 32)
    }
}

/// Exclusive handle to the interrupt controller's register block.
pub struct InterruptCore {
    intr_map: Vec<u32>,
    cpu_int_enable: u32,
    cpu_int_type: u32,
    cpu_int_pri: Vec<u32>,
    cpu_int_clear: Vec<u32>,
    intr_status_0: u32,
    intr_status_1: u32,
}

impl View for InterruptCore {
    type V = CoreView;

    closed spec fn view(&self) -> CoreView {
        CoreView {
            intr_map: self.intr_map@,
            cpu_int_enable: self.cpu_int_enable,
            cpu_int_type: self.cpu_int_type,
            cpu_int_pri: self.cpu_int_pri@,
            cpu_int_clear: self.cpu_int_clear@,
            intr_status_0: self.intr_status_0,
            intr_status_1: self.intr_status_1,
        }
    }
}

/// The register state after `map(source, line)`: the mapping slot for
/// `source` holds `line`, all else as before.
pub open spec fn map_post(v: CoreView, source: int, line: u32) -> CoreView {
    CoreView { intr_map: v.intr_map.update(source, line), ..v }
}

/// The register state after `enable_cpu_interrupt(n)`: line `n`'s enable
/// bit set additively, all else as before.
pub open spec fn enable_line_post(v: CoreView, n: u32) -> CoreView {
    CoreView { cpu_int_enable: v.cpu_int_enable | (1u32 << n), ..v }
}

/// The register state after `set_kind(n, kind)`: line `n`'s type bit
/// cleared then set to `b` (0 = level, 1 = edge), all else as before.
pub open spec fn set_kind_post(v: CoreView, n: u32, b: u32) -> CoreView {
    CoreView { cpu_int_type: v.cpu_int_type & !(1u32 << n) | (b << n), ..v }
}

/// The register state after `set_priority(n, p)`: line `n`'s priority slot
/// holds `p`, all else as before.
pub open spec fn set_priority_post(v: CoreView, n: int, p: u32) -> CoreView {
    CoreView { cpu_int_pri: v.cpu_int_pri.update(n, p), ..v }
}

/// The register state after `clear(n)`: a single word with only line `n`'s
/// bit set has been written to the write-one-to-clear register.
pub open spec fn clear_post(v: CoreView, n: u32) -> CoreView {
    CoreView { cpu_int_clear: v.cpu_int_clear.push(1u32 << n), ..v }
}

impl InterruptCore {
    /// A controller in its reset state: nothing mapped, nothing enabled,
    /// every line level-triggered at priority 0, nothing pending, and no
    /// clear write recorded.
    pub fn new() -> (core: InterruptCore)
        ensures
            core@.wf(),
            core@.intr_map == Seq::<u32>::new(SOURCE_COUNT as nat, |s: int| 0u32),
            core@.cpu_int_enable == 0u32,
            core@.cpu_int_type == 0u32,
            core@.cpu_int_pri == Seq::<u32>::new(LINE_COUNT as nat, |n: int| 0u32),
            core@.cpu_int_clear == Seq::<u32>::empty(),
            core@.intr_status_0 == 0u32,
            core@.intr_status_1 == 0u32,
    {
        let core = InterruptCore {
            intr_map: vec![0u32; SOURCE_COUNT],
            cpu_int_enable: 0,
            cpu_int_type: 0,
            cpu_int_pri: vec![0u32; LINE_COUNT],
            cpu_int_clear: Vec::new(),
            intr_status_0: 0,
            intr_status_1: 0,
        };
        proof {
            assert(core@.intr_map =~= Seq::<u32>::new(SOURCE_COUNT as nat, |s: int| 0u32));
            assert(core@.cpu_int_pri =~= Seq::<u32>::new(LINE_COUNT as nat, |n: int| 0u32));
            assert(core@.cpu_int_clear =~= Seq::<u32>::empty());
        }
        core
    }

    /// Drives the two aggregate pending-status words, as the hardware does
    /// when peripheral sources assert or deassert. Simulation input: the
    /// status registers are read-only to software on the real controller.
    pub fn set_status(&mut self, low: u32, high: u32)
        ensures
            final(self)@ == (CoreView { intr_status_0: low, intr_status_1: high, ..old(self)@ }),
    {
        self.intr_status_0 = low;
        self.intr_status_1 = high;
    }

    /// The CPU line that `source`'s mapping slot currently holds.
    pub fn mapped_line(&self, source: usize) -> (line: u32)
        requires
            self@.wf(),
            source < SOURCE_COUNT,
        ensures
            line == self@.intr_map[source as int],
    {
        self.intr_map[source]
    }

    /// Whether `which`'s enable bit is set.
    pub fn line_enabled(&self, which: CpuInterrupt) -> (r: bool)
        ensures
            r == self@.line_enabled(cpu_interrupt_number(which)),
    {
        let n = cpu_interrupt_number(which);
        (self.cpu_int_enable >> n) & 1 == 1
    }

    /// Whether `which` is configured as an edge interrupt.
    pub fn line_is_edge(&self, which: CpuInterrupt) -> (r: bool)
        ensures
            r == self@.line_is_edge(cpu_interrupt_number(which)),
    {
        let n = cpu_interrupt_number(which);
        (self.cpu_int_type >> n) & 1 == 1
    }

    /// The priority-table slot for `which`.
    pub fn line_priority(&self, which: CpuInterrupt) -> (p: u32)
        requires
            self@.wf(),
        ensures
            p == self@.cpu_int_pri[cpu_interrupt_number(which) as int],
    {
        let n = cpu_interrupt_number(which);
        self.cpu_int_pri[n as usize]
    }

    /// How many words have been written to the write-one-to-clear register.
    pub fn clear_write_count(&self) -> (n: usize)
        ensures
            n == self@.cpu_int_clear.len(),
    {
        self.cpu_int_clear.len()
    }

    /// The `i`-th word written to the write-one-to-clear register.
    pub fn clear_write(&self, i: usize) -> (w: u32)
        requires
            i < self@.cpu_int_clear.len(),
        ensures
            w == self@.cpu_int_clear[i as int],
    {
        self.cpu_int_clear[i]
    }
}

/// Assign a peripheral interrupt to a CPU interrupt: writes the line's
/// numeric identity into the mapping-table slot for `interrupt`,
/// overwriting any prior mapping.
///
/// Avoid lines 1 to 15 when interrupt vectoring is in effect; they are the
/// priority buckets.
pub fn map(core: &mut InterruptCore, interrupt: usize, which: CpuInterrupt)
    requires
        old(core)@.wf(),
        interrupt < SOURCE_COUNT,
    ensures
        final(core)@.wf(),
        final(core)@ == map_post(old(core)@, interrupt as int, spec_cpu_interrupt_number(which)),
{
    let n = cpu_interrupt_number(which);
    core.intr_map[interrupt] = n;
    proof {
        assert(final(core)@ =~= map_post(old(core)@, interrupt as int,
            spec_cpu_interrupt_number(which)));
    }
}

/// Disable the given peripheral interrupt: writes the sentinel 0 into its
/// mapping slot, removing it from every line's pending computation.
pub fn disable(core: &mut InterruptCore, interrupt: usize)
    requires
        old(core)@.wf(),
        interrupt < SOURCE_COUNT,
    ensures
        final(core)@.wf(),
        final(core)@ == map_post(old(core)@, interrupt as int, 0u32),
{
    core.intr_map[interrupt] = 0;
    proof {
        assert(final(core)@ =~= map_post(old(core)@, interrupt as int, 0u32));
    }
}

/// Enable a CPU interrupt: sets its bit in the aggregate line-enable
/// register without disturbing the other lines' bits.
pub fn enable_cpu_interrupt(core: &mut InterruptCore, which: CpuInterrupt)
    requires
        old(core)@.wf(),
    ensures
        final(core)@.wf(),
        final(core)@ == enable_line_post(old(core)@, spec_cpu_interrupt_number(which)),
        final(core)@.line_enabled(spec_cpu_interrupt_number(which)),
{
    let n = cpu_interrupt_number(which);
    core.cpu_int_enable = core.cpu_int_enable | (1u32 << n);
    proof {
        assert(final(core)@ =~= enable_line_post(old(core)@, spec_cpu_interrupt_number(which)));
        crate::bits::lemma_bit32_set_one(old(core)@.cpu_int_enable, n, n);
    }
}

/// Set the interrupt kind (level or edge) of a CPU interrupt: clears then
/// sets its bit in the type register (0 = level, 1 = edge).
///
/// Safe to use together with vectored dispatch: the vectored handler clears
/// edge interrupt bits itself.
pub fn set_kind(core: &mut InterruptCore, which: CpuInterrupt, kind: InterruptKind)
    requires
        old(core)@.wf(),
    ensures
        final(core)@.wf(),
        final(core)@ == set_kind_post(old(core)@, spec_cpu_interrupt_number(which),
            spec_kind_bit(kind)),
{
    let n = cpu_interrupt_number(which);
    let interrupt_type: u32 = match kind {
        InterruptKind::Level => 0,
        InterruptKind::Edge => 1,
    };
    core.cpu_int_type = core.cpu_int_type & !(1u32 << n) | (interrupt_type << n);
    proof {
        assert(final(core)@ =~= set_kind_post(old(core)@, spec_cpu_interrupt_number(which),
            spec_kind_bit(kind)));
    }
}

/// The type-register bit value of a signalling kind: 0 = level, 1 = edge.
pub open spec fn spec_kind_bit(kind: InterruptKind) -> u32 {
    match kind {
        InterruptKind::Level => 0,
        InterruptKind::Edge => 1,
    }
}

/// Set the priority level of a CPU interrupt: writes `priority` into its
/// priority-table slot.
///
/// Avoid lines 1 to 15 when interrupt vectoring is in effect; their
/// priorities are fixed to their line numbers.
pub fn set_priority(core: &mut InterruptCore, which: CpuInterrupt, priority: Priority)
    requires
        old(core)@.wf(),
    ensures
        final(core)@.wf(),
        final(core)@ == set_priority_post(old(core)@, spec_cpu_interrupt_number(which) as int,
            spec_priority_number(priority)),
{
    let n = cpu_interrupt_number(which);
    core.cpu_int_pri[n as usize] = priority_number(priority);
    proof {
        assert(final(core)@ =~= set_priority_post(old(core)@,
            spec_cpu_interrupt_number(which) as int, spec_priority_number(priority)));
    }
}

/// Clear a CPU interrupt: writes a single set bit at the line's position to
/// the write-one-to-clear register. Required for edge-triggered lines,
/// harmless for level-triggered ones.
pub fn clear(core: &mut InterruptCore, which: CpuInterrupt)
    requires
        old(core)@.wf(),
    ensures
        final(core)@.wf(),
        final(core)@ == clear_post(old(core)@, spec_cpu_interrupt_number(which)),
{
    let n = cpu_interrupt_number(which);
    core.cpu_int_clear.push(1u32 << n);
    proof {
        assert(final(core)@ =~= clear_post(old(core)@, spec_cpu_interrupt_number(which)));
    }
}

/// Unmapping is idempotent: a second `disable` of the same source leaves
/// the registers exactly as the first did — the source stays unmapped, and
/// nothing else moves. Neither call has an error to report.
pub proof fn lemma_disable_idempotent(v: CoreView, source: int)
    requires
        v.wf(),
        0 <= source < SOURCE_COUNT,
    ensures
        map_post(map_post(v, source, 0u32), source, 0u32) == map_post(v, source, 0u32),
{
    assert(map_post(map_post(v, source, 0u32), source, 0u32) =~= map_post(v, source, 0u32));
}

/// Get the status of peripheral interrupts: the two 32-bit aggregate status
/// registers concatenated into one word whose bit `i` is set exactly when
/// source `i` has a pending, enabled interrupt condition.
pub fn get_status(core: &InterruptCore) -> (status: u128)
    ensures
        status == core@.status_word(),
        forall|s: u128|
            s < 64 ==> #[trigger] bit128(core@.status_word(), s) == core@.source_pending(s as int),
{
    proof {
        assert forall|s: u128| s < 64 implies #[trigger] bit128(core@.status_word(), s)
            == core@.source_pending(s as int) by {
            lemma_status_concat(core@.intr_status_0, core@.intr_status_1, s);
        }
    }
    (core.intr_status_0 as u128) | ((core.intr_status_1 as u128) << 32)
}

} // verus!
