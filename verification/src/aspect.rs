//! The resource kinds. Each is a frame in typed form: the storage of the
//! resource together with the table entry that it displaced on entry.

use vstd::prelude::*;
use crate::effective_scope::EffectiveScope;
use crate::effective_scope::Kind;
use crate::effective_scope::Slot;
use crate::raw;

verus! {

/// A call that the runtime owes to a native object after a frame has been
/// entered or before its storage is given up.
#[derive(Clone, Copy, Debug, PartialEq, Eq, Structural)]
pub enum Hook {
    /// Make this context the current one.
    EnterContext(crate::runtime::Context),
    /// Leave this context again.
    ExitContext(crate::runtime::Context),
    /// Construct a native handle scope in the frame at this offset.
    ConstructHandleScope(usize),
    /// Destruct the native handle scope in the frame at this offset.
    DestructHandleScope(usize),
    /// Construct a native try-catch block in the frame at this offset.
    ConstructTryCatch(usize),
    /// Destruct the native try-catch block in the frame at this offset.
    DestructTryCatch(usize),
}

/// Entering a context.
#[derive(Clone, Copy, Debug)]
pub struct Context {
    pub context: crate::runtime::Context,
    pub prior: Slot,
}

/// A native handle scope.
#[derive(Clone, Copy, Debug)]
pub struct HandleScope {
    pub raw: raw::HandleScope,
    pub prior: Slot,
}

/// A cell, reserved below a handle scope, through which one value may leave
/// that handle scope.
#[derive(Clone, Copy, Debug)]
pub struct EscapeSlot {
    pub cell: raw::Address,
    pub prior: Slot,
}

/// A native try-catch block.
#[derive(Clone, Copy, Debug)]
pub struct TryCatch {
    pub raw: raw::TryCatch,
    pub prior: Slot,
}

impl Context {
    /// The table entry that stands for this frame while no later context
    /// frame hides it.
    pub open spec fn active(self) -> Slot {
        Slot::At(self.context.raw)
    }

    /// The call owed on entry when the entry displaced was `prior`: none if
    /// the context was already the active one.
    pub open spec fn enter_hook(self, prior: Slot) -> Option<Hook> {
        if prior == self.active() {
            None
        } else {
            Some(Hook::EnterContext(self.context))
        }
    }

    /// The call owed on exit: the counterpart of the one owed on entry.
    pub open spec fn exit_hook(self) -> Option<Hook> {
        if self.prior == self.active() {
            None
        } else {
            Some(Hook::ExitContext(self.context))
        }
    }

    /// A frame that will enter `context`.
    pub open spec fn spec_new(context: crate::runtime::Context) -> Self {
        Context { context, prior: Slot::Empty }
    }

    /// A frame that will enter `context`.
    pub fn new(context: &crate::runtime::Context) -> (frame: Self)
        ensures
            frame == Self::spec_new(*context),
    {
        Context { context: *context, prior: Slot::Empty }
    }

    /// Installs the context in the table and keeps what it displaced.
    pub fn enter(&mut self, effective_scope: &mut EffectiveScope) -> (hook: Option<Hook>)
        ensures
            final(self).context == old(self).context,
            final(self).prior == old(effective_scope).context,
            *final(effective_scope) == old(effective_scope).with(
                Kind::Context,
                old(self).active(),
            ),
            hook == old(self).enter_hook(old(effective_scope).context),
    {
        let active = Slot::At(self.context.raw);
        let prior = effective_scope.replace(Kind::Context, active);
        self.prior = prior;
        if prior == active {
            None
        } else {
            Some(Hook::EnterContext(self.context))
        }
    }

    /// Puts back the table entry that `enter` displaced.
    pub fn exit(&self, effective_scope: &mut EffectiveScope) -> (hook: Option<Hook>)
        ensures
            *final(effective_scope) == old(effective_scope).with(Kind::Context, self.prior),
            hook == self.exit_hook(),
    {
        let active = Slot::At(self.context.raw);
        effective_scope.replace(Kind::Context, self.prior);
        if self.prior == active {
            None
        } else {
            Some(Hook::ExitContext(self.context))
        }
    }
}

impl HandleScope {
    /// The table entry that stands for this frame, placed at `offset`, while
    /// no later handle scope hides it.
    pub open spec fn active(self, offset: usize) -> Slot {
        Slot::At(offset)
    }

    /// A frame with storage for one native handle scope.
    pub open spec fn spec_new() -> Self {
        HandleScope { raw: raw::HandleScope::spec_zeroed(), prior: Slot::Empty }
    }

    /// A frame with storage for one native handle scope.
    pub fn new() -> (frame: Self)
        ensures
            frame == Self::spec_new(),
    {
        HandleScope { raw: raw::HandleScope::zeroed(), prior: Slot::Empty }
    }

    /// Installs the frame, placed at `offset`, in the table and keeps what it
    /// displaced.
    pub fn enter(&mut self, effective_scope: &mut EffectiveScope, offset: usize) -> (hook: Option<
        Hook,
    >)
        ensures
            final(self).raw == old(self).raw,
            final(self).prior == old(effective_scope).handle_scope,
            *final(effective_scope) == old(effective_scope).with(
                Kind::HandleScope,
                old(self).active(offset),
            ),
            hook == Some(Hook::ConstructHandleScope(offset)),
    {
        self.prior = effective_scope.replace(Kind::HandleScope, Slot::At(offset));
        Some(Hook::ConstructHandleScope(offset))
    }

    /// Puts back the table entry that `enter` displaced.
    pub fn exit(&self, effective_scope: &mut EffectiveScope, offset: usize) -> (hook: Option<Hook>)
        ensures
            *final(effective_scope) == old(effective_scope).with(Kind::HandleScope, self.prior),
            hook == Some(Hook::DestructHandleScope(offset)),
    {
        effective_scope.replace(Kind::HandleScope, self.prior);
        Some(Hook::DestructHandleScope(offset))
    }
}

impl EscapeSlot {
    /// Whether no value has been put in the cell yet.
    pub open spec fn is_vacant(self) -> bool {
        self.cell.0 == 0
    }

    /// The table entry that stands for this frame, placed at `offset`, while
    /// no later escape slot hides it: the frame itself until a value has
    /// escaped through it, nothing afterwards.
    pub open spec fn active(self, offset: usize) -> Slot {
        if self.is_vacant() {
            Slot::At(offset)
        } else {
            Slot::Empty
        }
    }

    /// A frame with a vacant cell.
    pub open spec fn spec_new() -> Self {
        EscapeSlot { cell: raw::Address(0), prior: Slot::Empty }
    }

    /// A frame with a vacant cell.
    pub fn new() -> (frame: Self)
        ensures
            frame == Self::spec_new(),
    {
        EscapeSlot { cell: raw::Address(0), prior: Slot::Empty }
    }

    /// Installs the frame, placed at `offset`, in the table and keeps what it
    /// displaced.
    pub fn enter(&mut self, effective_scope: &mut EffectiveScope, offset: usize) -> (hook: Option<
        Hook,
    >)
        ensures
            final(self).cell == old(self).cell,
            final(self).prior == old(effective_scope).escape_slot,
            *final(effective_scope) == old(effective_scope).with(
                Kind::EscapeSlot,
                old(self).active(offset),
            ),
            hook.is_none(),
    {
        let active = if self.cell.0 == 0 {
            Slot::At(offset)
        } else {
            Slot::Empty
        };
        self.prior = effective_scope.replace(Kind::EscapeSlot, active);
        None
    }

    /// Puts back the table entry that `enter` displaced. The cell needs no
    /// cleaning up.
    pub fn exit(&self, effective_scope: &mut EffectiveScope) -> (hook: Option<Hook>)
        ensures
            *final(effective_scope) == old(effective_scope).with(Kind::EscapeSlot, self.prior),
            hook.is_none(),
    {
        effective_scope.replace(Kind::EscapeSlot, self.prior);
        None
    }
}

impl TryCatch {
    /// The table entry that stands for this frame, placed at `offset`, while
    /// no later try-catch block hides it.
    pub open spec fn active(self, offset: usize) -> Slot {
        Slot::At(offset)
    }

    /// A frame with storage for one native try-catch block.
    pub open spec fn spec_new() -> Self {
        TryCatch { raw: raw::TryCatch::spec_zeroed(), prior: Slot::Empty }
    }

    /// A frame with storage for one native try-catch block.
    pub fn new() -> (frame: Self)
        ensures
            frame == Self::spec_new(),
    {
        TryCatch { raw: raw::TryCatch::zeroed(), prior: Slot::Empty }
    }

    /// Installs the frame, placed at `offset`, in the table and keeps what it
    /// displaced.
    pub fn enter(&mut self, effective_scope: &mut EffectiveScope, offset: usize) -> (hook: Option<
        Hook,
    >)
        ensures
            final(self).raw == old(self).raw,
            final(self).prior == old(effective_scope).try_catch,
            *final(effective_scope) == old(effective_scope).with(
                Kind::TryCatch,
                old(self).active(offset),
            ),
            hook == Some(Hook::ConstructTryCatch(offset)),
    {
        self.prior = effective_scope.replace(Kind::TryCatch, Slot::At(offset));
        Some(Hook::ConstructTryCatch(offset))
    }

    /// Puts back the table entry that `enter` displaced.
    pub fn exit(&self, effective_scope: &mut EffectiveScope, offset: usize) -> (hook: Option<Hook>)
        ensures
            *final(effective_scope) == old(effective_scope).with(Kind::TryCatch, self.prior),
            hook == Some(Hook::DestructTryCatch(offset)),
    {
        effective_scope.replace(Kind::TryCatch, self.prior);
        Some(Hook::DestructTryCatch(offset))
    }
}

} // verus!
