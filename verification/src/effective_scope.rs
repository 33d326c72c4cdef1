//! The table of active resources: for each resource kind, the resource that
//! the innermost scope currently sees.

use vstd::prelude::*;

verus! {

/// The four kinds of resource that a scope can hold.
#[derive(Clone, Copy, Debug, PartialEq, Eq, Structural)]
pub enum Kind {
    Context,
    HandleScope,
    EscapeSlot,
    TryCatch,
}

/// One entry of the table.
///
/// For `HandleScope`, `EscapeSlot` and `TryCatch` an occupied entry holds the
/// byte offset of a frame on the frame stack. For `Context` it holds the raw
/// value of the context itself, or `Current` while the runtime has not yet
/// been asked which context it is in.
#[derive(Clone, Copy, Debug, PartialEq, Eq, Structural)]
pub enum Slot {
    /// No resource of this kind is active.
    Empty,
    /// Whatever the runtime regards as current; not yet looked up.
    Current,
    /// The resource identified by this value.
    At(usize),
}

/// The active resources of one execution context, one entry per kind.
#[derive(Clone, Copy, Debug, PartialEq, Eq, Structural)]
pub struct EffectiveScope {
    pub context: Slot,
    pub handle_scope: Slot,
    pub escape_slot: Slot,
    pub try_catch: Slot,
}

impl EffectiveScope {
    /// The entry for `kind`.
    pub open spec fn slot(self, kind: Kind) -> Slot {
        match kind {
            Kind::Context => self.context,
            Kind::HandleScope => self.handle_scope,
            Kind::EscapeSlot => self.escape_slot,
            Kind::TryCatch => self.try_catch,
        }
    }

    /// The table with the entry for `kind` replaced by `slot`.
    pub open spec fn with(self, kind: Kind, slot: Slot) -> Self {
        match kind {
            Kind::Context => EffectiveScope { context: slot, ..self },
            Kind::HandleScope => EffectiveScope { handle_scope: slot, ..self },
            Kind::EscapeSlot => EffectiveScope { escape_slot: slot, ..self },
            Kind::TryCatch => EffectiveScope { try_catch: slot, ..self },
        }
    }

    /// The table of a context in which no scope has been entered: nothing is
    /// active, and the context is whatever the runtime says it is.
    pub open spec fn initial() -> Self {
        EffectiveScope {
            context: Slot::Current,
            handle_scope: Slot::Empty,
            escape_slot: Slot::Empty,
            try_catch: Slot::Empty,
        }
    }

    /// Makes the table of a context in which no scope has been entered.
    pub fn new() -> (table: Self)
        ensures
            table == Self::initial(),
    {
        EffectiveScope {
            context: Slot::Current,
            handle_scope: Slot::Empty,
            escape_slot: Slot::Empty,
            try_catch: Slot::Empty,
        }
    }

    /// Reads the entry for `kind`.
    pub fn get(&self, kind: Kind) -> (slot: Slot)
        ensures
            slot == self.slot(kind),
    {
        match kind {
            Kind::Context => self.context,
            Kind::HandleScope => self.handle_scope,
            Kind::EscapeSlot => self.escape_slot,
            Kind::TryCatch => self.try_catch,
        }
    }

    /// Installs `slot` as the entry for `kind` and returns the entry that it
    /// displaces.
    pub fn replace(&mut self, kind: Kind, slot: Slot) -> (previous: Slot)
        ensures
            previous == old(self).slot(kind),
            *final(self) == old(self).with(kind, slot),
    {
        let previous = self.get(kind);
        match kind {
            Kind::Context => {
                self.context = slot;
            },
            Kind::HandleScope => {
                self.handle_scope = slot;
            },
            Kind::EscapeSlot => {
                self.escape_slot = slot;
            },
            Kind::TryCatch => {
                self.try_catch = slot;
            },
        }
        previous
    }
}

} // verus!
