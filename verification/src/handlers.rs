//! Peripheral handler resolution.
//!
//! Each peripheral source has exactly one handler slot, populated by the
//! surrounding firmware at link time: either a user handler entry point or
//! the designated default sentinel, in which case a chip-supplied fallback
//! runs instead. [`PeripheralHandlers`] is the capability the dispatch
//! subsystem invokes through; [`HandlerTable`] is its table-backed
//! implementation, which also records every invocation so the dispatch
//! order is observable.

use vstd::prelude::*;

use crate::frame::TrapFrame;
use crate::registers::SOURCE_COUNT;

verus! {

/// Dispatch target for peripheral interrupt sources.
///
/// `invoked` is the sequence of sources whose handler slot has been
/// resolved and invoked, in invocation order; `handle_source` appends
/// exactly the source it was called for. The trap frame is handed through
/// mutably and a handler may alter it freely.
pub trait PeripheralHandlers {
    /// The implementation's own well-formedness condition.
    spec fn wf(&self) -> bool;

    /// The sources handled so far, in invocation order.
    spec fn invoked(&self) -> Seq<u8>;

    /// Resolve the handler installed for `source` and invoke it, passing
    /// the current trap frame.
    fn handle_source(&mut self, source: u8, context: &mut TrapFrame)
        requires
            old(self).wf(),
            (source as int) < SOURCE_COUNT,
        ensures
            final(self).wf(),
            final(self).invoked() == old(self).invoked().push(source),
    ;
}

/// What a peripheral source's handler slot holds.
#[derive(Debug, Clone, Copy, PartialEq, Eq, Structural)]
pub enum HandlerSlot {
    /// The slot still holds the designated default handler: no user handler
    /// is installed, and the chip-supplied fallback runs for this source.
    DefaultFallback,
    /// A user handler entry point was installed for this source.
    Installed,
}

/// One recorded handler invocation.
#[derive(Debug, Clone, Copy, PartialEq, Eq, Structural)]
pub enum Dispatched {
    /// The source's own installed handler ran.
    User(u8),
    /// The chip-supplied fallback ran for the source.
    Fallback(u8),
}

/// The source a recorded invocation was for.
pub open spec fn dispatched_source(d: Dispatched) -> u8 {
    match d {
        Dispatched::User(s) => s,
        Dispatched::Fallback(s) => s,
    }
}

/// One handler slot per peripheral source, with a record of every
/// invocation and how it was resolved.
pub struct HandlerTable {
    slots: Vec<HandlerSlot>,
    log: Vec<Dispatched>,
}

impl HandlerTable {
    /// The handler slot of each peripheral source.
    pub closed spec fn slots(&self) -> Seq<HandlerSlot> {
        self.slots@
    }

    /// Every invocation so far, in order, with its resolution.
    pub closed spec fn log(&self) -> Seq<Dispatched> {
        self.log@
    }

    /// A table with no user handler installed and nothing invoked yet.
    pub fn new() -> (t: HandlerTable)
        ensures
            t.wf(),
            t.slots() == Seq::new(SOURCE_COUNT as nat, |s: int| HandlerSlot::DefaultFallback),
            t.log() == Seq::<Dispatched>::empty(),
    {
        let t = HandlerTable { slots: vec![HandlerSlot::DefaultFallback; SOURCE_COUNT], log: Vec::new() };
        proof {
            assert(t.slots() =~= Seq::new(SOURCE_COUNT as nat, |s: int| HandlerSlot::DefaultFallback));
            assert(t.log() =~= Seq::<Dispatched>::empty());
        }
        t
    }

    /// Install a user handler for `source`, as the link-time table does.
    pub fn install(&mut self, source: u8)
        requires
            old(self).wf(),
            (source as int) < SOURCE_COUNT,
        ensures
            final(self).wf(),
            final(self).slots() == old(self).slots().update(source as int, HandlerSlot::Installed),
            final(self).log() == old(self).log(),
    {
        self.slots[source as usize] = HandlerSlot::Installed;
    }

    /// How many invocations have been recorded.
    pub fn dispatched_count(&self) -> (n: usize)
        ensures
            n == self.log().len(),
    {
        self.log.len()
    }

    /// The `i`-th recorded invocation.
    pub fn dispatched_at(&self, i: usize) -> (d: Dispatched)
        requires
            i < self.log().len(),
        ensures
            d == self.log()[i as int],
    {
        self.log[i]
    }
}

impl PeripheralHandlers for HandlerTable {
    /// The table has one slot per peripheral source.
    open spec fn wf(&self) -> bool {
        self.slots().len() == SOURCE_COUNT
    }

    /// The invocation record, stripped of how each call was resolved.
    open spec fn invoked(&self) -> Seq<u8> {
        self.log().map_values(|d: Dispatched| dispatched_source(d))
    }

    /// Resolution: a slot still holding the default sentinel routes to the
    /// chip-supplied fallback; an installed slot routes to the user handler.
    /// Either way the invocation is recorded for `source`, the slots are
    /// untouched, and the table itself never alters the trap frame — only a
    /// user handler's entry point could.
    fn handle_source(&mut self, source: u8, context: &mut TrapFrame)
        ensures
            final(self).log() == old(self).log().push(
                if old(self).slots()[source as int] == HandlerSlot::Installed {
                    Dispatched::User(source)
                } else {
                    Dispatched::Fallback(source)
                },
            ),
            final(self).slots() == old(self).slots(),
            *final(context) == *old(context),
    {
        let slot = self.slots[source as usize];
        match slot {
            HandlerSlot::Installed => self.log.push(Dispatched::User(source)),
            HandlerSlot::DefaultFallback => self.log.push(Dispatched::Fallback(source)),
        }
        proof {
            assert(self.invoked() =~= old(self).invoked().push(source));
        }
    }
}

} // verus!
