//! The handles of entered scopes.

use vstd::prelude::*;
use crate::aspect;
use crate::aspect::Hook;
use crate::data;
use crate::data::ScopeDataView;
use crate::frame::Frame;
use crate::runtime::Context;
use crate::runtime::RootHandleScopeParam;
use crate::scope::can_add;
use crate::scope::AddContextScope;
use crate::scope::AddEscapableHandleScope;
use crate::scope::AddHandleScope;
use crate::scope::AddTryCatch;
use crate::scope::GetEffectiveScope;
use crate::scope::Scope;
use crate::scope::ScopeKind;
use crate::store::ScopeStore;

verus! {

/// Handle of a scope in which a context has been entered.
#[derive(Debug)]
pub struct ContextScope {
    scope: Scope,
}

/// Handle of a scope in which a handle scope has been opened.
#[derive(Debug)]
pub struct HandleScope {
    scope: Scope,
}

/// Handle of a scope in which a handle scope has been opened above an
/// escape slot.
#[derive(Debug)]
pub struct EscapableHandleScope {
    scope: Scope,
}

/// Handle of a scope in which a try-catch block has been set up.
#[derive(Debug)]
pub struct TryCatch {
    scope: Scope,
}

impl ContextScope {
    /// The handle of the entered scope `scope`.
    pub(crate) fn from_scope(scope: Scope) -> (handle: Self)
        ensures
            handle.scope() == scope,
    {
        ContextScope { scope }
    }

    /// Declares a scope that enters `context` and has no parent: entering
    /// it shadows whatever scope is live then.
    pub fn root(context: &Context) -> (data: data::ContextScope)
        ensures
            data@.wf(),
            data@ == ScopeDataView::declared(
                ScopeKind::ContextScope,
                None,
                seq![Frame::Context(aspect::Context::spec_new(*context))],
            ),
    {
        data::ContextScope::root(context)
    }

    /// Declares a scope that enters `context` from the scope of `parent`,
    /// in which handles can be made.
    pub fn new<P: AddContextScope>(parent: &P, context: &Context) -> (data: data::ContextScope)
        requires
            can_add(Some(parent.scope().aspects), ScopeKind::ContextScope),
        ensures
            data@.wf(),
            data@ == ScopeDataView::declared(
                ScopeKind::ContextScope,
                Some(parent.scope()),
                seq![Frame::Context(aspect::Context::spec_new(*context))],
            ),
    {
        data::ContextScope::new(parent.get_effective_scope(), context)
    }
}

impl GetEffectiveScope for ContextScope {
    closed spec fn scope(&self) -> Scope {
        self.scope
    }

    fn get_effective_scope(&self) -> (scope: Scope) {
        self.scope
    }
}

impl HandleScope {
    /// The handle of the entered scope `scope`.
    pub(crate) fn from_scope(scope: Scope) -> (handle: Self)
        ensures
            handle.scope() == scope,
    {
        HandleScope { scope }
    }

    /// Declares a scope that opens a handle scope and has no parent. From an
    /// isolate the scope opens the handle scope alone; from a context it
    /// first enters that context.
    pub fn root<P: RootHandleScopeParam>(isolate_or_context: &P) -> (data: P::Data)
        ensures
            data@.wf(),
            data@ == isolate_or_context.root_view(),
    {
        isolate_or_context.root()
    }

    /// Declares a scope that opens a handle scope from the scope of
    /// `parent`, in which a context has been entered.
    pub fn new<P: AddHandleScope>(parent: &P) -> (data: data::HandleScope)
        requires
            can_add(Some(parent.scope().aspects), ScopeKind::HandleScope),
        ensures
            data@.wf(),
            data@ == ScopeDataView::declared(
                ScopeKind::HandleScope,
                Some(parent.scope()),
                seq![Frame::HandleScope(aspect::HandleScope::spec_new())],
            ),
    {
        data::HandleScope::new(parent.get_effective_scope())
    }
}

impl GetEffectiveScope for HandleScope {
    closed spec fn scope(&self) -> Scope {
        self.scope
    }

    fn get_effective_scope(&self) -> (scope: Scope) {
        self.scope
    }
}

impl EscapableHandleScope {
    /// The handle of the entered scope `scope`.
    pub(crate) fn from_scope(scope: Scope) -> (handle: Self)
        ensures
            handle.scope() == scope,
    {
        EscapableHandleScope { scope }
    }

    /// Declares a scope that reserves an escape slot in the handle scope of
    /// `parent` and opens a handle scope above it.
    pub fn new<P: AddEscapableHandleScope>(parent: &P) -> (data: data::EscapableHandleScope)
        requires
            can_add(Some(parent.scope().aspects), ScopeKind::EscapableHandleScope),
        ensures
            data@.wf(),
            data@ == ScopeDataView::declared(
                ScopeKind::EscapableHandleScope,
                Some(parent.scope()),
                seq![
                    Frame::EscapeSlot(aspect::EscapeSlot::spec_new()),
                    Frame::HandleScope(aspect::HandleScope::spec_new()),
                ],
            ),
    {
        data::EscapableHandleScope::new(parent.get_effective_scope())
    }
}

impl GetEffectiveScope for EscapableHandleScope {
    closed spec fn scope(&self) -> Scope {
        self.scope
    }

    fn get_effective_scope(&self) -> (scope: Scope) {
        self.scope
    }
}

impl TryCatch {
    /// The handle of the entered scope `scope`.
    pub(crate) fn from_scope(scope: Scope) -> (handle: Self)
        ensures
            handle.scope() == scope,
    {
        TryCatch { scope }
    }

    /// Declares a scope that sets up a try-catch block from the scope of
    /// `parent`, in which handles can be made and which is not itself a
    /// try-catch block.
    pub fn new<P: AddTryCatch>(parent: &P) -> (data: data::TryCatch)
        requires
            can_add(Some(parent.scope().aspects), ScopeKind::TryCatch),
        ensures
            data@.wf(),
            data@ == ScopeDataView::declared(
                ScopeKind::TryCatch,
                Some(parent.scope()),
                seq![Frame::TryCatch(aspect::TryCatch::spec_new())],
            ),
    {
        data::TryCatch::new(parent.get_effective_scope())
    }
}

impl GetEffectiveScope for TryCatch {
    closed spec fn scope(&self) -> Scope {
        self.scope
    }

    fn get_effective_scope(&self) -> (scope: Scope) {
        self.scope
    }
}

/// A scope that has just been entered: the scope itself, which its owner
/// keeps until it exits the scope; the handle through which the scope's
/// resources are reached; and the calls that the runtime owes for the
/// frames that were pushed.
#[derive(Debug)]
pub struct Entered<D, H> {
    pub scope: D,
    pub handle: H,
    pub hooks: Vec<Hook>,
}

/// Enters `context` from the scope of `parent`: declares the scope and
/// enters it at once. The parent is the innermost live scope, handles can be
/// made in it, a cookie is left, and the frame fits.
pub fn context_scope<P: AddContextScope>(
    store: &mut ScopeStore,
    parent: &P,
    context: &Context,
) -> (entered: Entered<data::ContextScope, ContextScope>)
    requires
        old(store).wf(),
        ({
            let declared = ScopeDataView::declared(
                ScopeKind::ContextScope,
                Some(parent.scope()),
                seq![Frame::Context(aspect::Context::spec_new(*context))],
            );
            declared.wf() && declared.can_enter(old(store)@)
        }),
    ensures
        final(store).wf(),
        ({
            let declared = ScopeDataView::declared(
                ScopeKind::ContextScope,
                Some(parent.scope()),
                seq![Frame::Context(aspect::Context::spec_new(*context))],
            );
            let cookie = (old(store)@.top_cookie + 1) as u32;
            &&& final(store)@ == old(store)@.enter_scope(declared.frames)
            &&& entered.scope@ == declared.with_cookie(cookie)
            &&& entered.scope@.can_exit(final(store)@)
            &&& entered.handle.scope() == declared.scope(cookie)
            &&& entered.hooks@ == old(store)@.init_scope().push_all_hooks(declared.frames)
        }),
{
    let mut scope = ContextScope::new(parent, context);
    let (handle, hooks) = scope.enter(store);
    Entered { scope, handle, hooks }
}

/// Opens a handle scope from the scope of `parent`: declares the scope and
/// enters it at once. The parent is the innermost live scope, a context has
/// been entered in it, a cookie is left, and the frame fits.
pub fn handle_scope<P: AddHandleScope>(store: &mut ScopeStore, parent: &P) -> (entered: Entered<
    data::HandleScope,
    HandleScope,
>)
    requires
        old(store).wf(),
        ({
            let declared = ScopeDataView::declared(
                ScopeKind::HandleScope,
                Some(parent.scope()),
                seq![Frame::HandleScope(aspect::HandleScope::spec_new())],
            );
            declared.wf() && declared.can_enter(old(store)@)
        }),
    ensures
        final(store).wf(),
        ({
            let declared = ScopeDataView::declared(
                ScopeKind::HandleScope,
                Some(parent.scope()),
                seq![Frame::HandleScope(aspect::HandleScope::spec_new())],
            );
            let cookie = (old(store)@.top_cookie + 1) as u32;
            &&& final(store)@ == old(store)@.enter_scope(declared.frames)
            &&& entered.scope@ == declared.with_cookie(cookie)
            &&& entered.scope@.can_exit(final(store)@)
            &&& entered.handle.scope() == declared.scope(cookie)
            &&& entered.hooks@ == old(store)@.init_scope().push_all_hooks(declared.frames)
        }),
{
    let mut scope = HandleScope::new(parent);
    let (handle, hooks) = scope.enter(store);
    Entered { scope, handle, hooks }
}

/// Reserves an escape slot in the handle scope of `parent` and opens a
/// handle scope above it: declares the scope and enters it at once, pushing
/// the escape slot and then the handle scope. The parent is the innermost
/// live scope, handles can be made in it, a cookie is left, and the frames
/// fit.
pub fn escapable_handle_scope<P: AddEscapableHandleScope>(store: &mut ScopeStore, parent: &P) -> (entered:
    Entered<data::EscapableHandleScope, EscapableHandleScope>)
    requires
        old(store).wf(),
        ({
            let declared = ScopeDataView::declared(
                ScopeKind::EscapableHandleScope,
                Some(parent.scope()),
                seq![
                    Frame::EscapeSlot(aspect::EscapeSlot::spec_new()),
                    Frame::HandleScope(aspect::HandleScope::spec_new()),
                ],
            );
            declared.wf() && declared.can_enter(old(store)@)
        }),
    ensures
        final(store).wf(),
        ({
            let declared = ScopeDataView::declared(
                ScopeKind::EscapableHandleScope,
                Some(parent.scope()),
                seq![
                    Frame::EscapeSlot(aspect::EscapeSlot::spec_new()),
                    Frame::HandleScope(aspect::HandleScope::spec_new()),
                ],
            );
            let cookie = (old(store)@.top_cookie + 1) as u32;
            &&& final(store)@ == old(store)@.enter_scope(declared.frames)
            &&& entered.scope@ == declared.with_cookie(cookie)
            &&& entered.scope@.can_exit(final(store)@)
            &&& entered.handle.scope() == declared.scope(cookie)
            &&& entered.hooks@ == old(store)@.init_scope().push_all_hooks(declared.frames)
        }),
{
    let mut scope = EscapableHandleScope::new(parent);
    let (handle, hooks) = scope.enter(store);
    Entered { scope, handle, hooks }
}

/// Sets up a try-catch block from the scope of `parent`: declares the scope
/// and enters it at once. The parent is the innermost live scope, handles
/// can be made in it, it is not itself a try-catch block, a cookie is left,
/// and the frame fits.
pub fn try_catch<P: AddTryCatch>(store: &mut ScopeStore, parent: &P) -> (entered: Entered<
    data::TryCatch,
    TryCatch,
>)
    requires
        old(store).wf(),
        ({
            let declared = ScopeDataView::declared(
                ScopeKind::TryCatch,
                Some(parent.scope()),
                seq![Frame::TryCatch(aspect::TryCatch::spec_new())],
            );
            declared.wf() && declared.can_enter(old(store)@)
        }),
    ensures
        final(store).wf(),
        ({
            let declared = ScopeDataView::declared(
                ScopeKind::TryCatch,
                Some(parent.scope()),
                seq![Frame::TryCatch(aspect::TryCatch::spec_new())],
            );
            let cookie = (old(store)@.top_cookie + 1) as u32;
            &&& final(store)@ == old(store)@.enter_scope(declared.frames)
            &&& entered.scope@ == declared.with_cookie(cookie)
            &&& entered.scope@.can_exit(final(store)@)
            &&& entered.handle.scope() == declared.scope(cookie)
            &&& entered.hooks@ == old(store)@.init_scope().push_all_hooks(declared.frames)
        }),
{
    let mut scope = TryCatch::new(parent);
    let (handle, hooks) = scope.enter(store);
    Entered { scope, handle, hooks }
}

impl AddHandleScope for ContextScope {

}

impl AddEscapableHandleScope for ContextScope {

}

impl AddTryCatch for ContextScope {

}

impl AddContextScope for HandleScope {

}

impl AddHandleScope for HandleScope {

}

impl AddEscapableHandleScope for HandleScope {

}

impl AddTryCatch for HandleScope {

}

impl AddContextScope for EscapableHandleScope {

}

impl AddHandleScope for EscapableHandleScope {

}

impl AddEscapableHandleScope for EscapableHandleScope {

}

impl AddTryCatch for EscapableHandleScope {

}

impl AddContextScope for TryCatch {

}

impl AddHandleScope for TryCatch {

}

impl AddEscapableHandleScope for TryCatch {

}

} // verus!
