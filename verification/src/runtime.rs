//! What the embedding runtime supplies to the engine: the isolate that owns
//! a scope store, contexts, and the values that scopes keep alive.

use vstd::prelude::*;
use std::marker::PhantomData;
use crate::aspect;
use crate::data;
use crate::data::ScopeDataView;
use crate::frame::Frame;
use crate::raw::Address;
use crate::scope::GetEffectiveScope;
use crate::scope::ScopeKind;
use crate::store::ScopeStore;

verus! {

/// An isolated instance of the runtime. It owns the scope store of its
/// execution context.
pub struct Isolate {
    pub annex: ScopeStore,
}

/// An execution context of the runtime, known to the engine by its raw value
/// alone.
#[derive(Clone, Copy, Debug, PartialEq, Eq, Structural)]
pub struct Context {
    pub raw: usize,
}

/// The kind of value that is the supertype of all others.
#[derive(Clone, Copy, Debug)]
pub struct Data;

/// The kind of any script value.
#[derive(Clone, Copy, Debug)]
pub struct Value;

/// The kind of primitive values.
#[derive(Clone, Copy, Debug)]
pub struct Primitive;

/// The kind of integer values.
#[derive(Clone, Copy, Debug)]
pub struct Integer;

/// The kind of error messages.
#[derive(Clone, Copy, Debug)]
pub struct Message;

/// A value of kind `T` that a scope keeps alive.
///
/// The local holds the raw value and the cookie of the scope that keeps it
/// alive. It owns no storage.
#[derive(Debug)]
pub struct Local<T> {
    raw: Address,
    scope: u32,
    _phantom: PhantomData<T>,
}

/// Something from which a handle scope can be opened without a parent.
pub trait RootHandleScopeParam {
    /// The scope that is declared.
    type Data: View<V = ScopeDataView>;

    /// The scope that `root` declares.
    spec fn root_view(&self) -> ScopeDataView;

    /// Declares a scope, without a parent, that opens a handle scope.
    fn root(&self) -> (data: Self::Data)
        ensures
            data@.wf(),
            data@ == self.root_view(),
    ;
}

impl Isolate {
    /// An isolate whose frame stack can hold `capacity` bytes and in which no
    /// scope has been entered.
    pub fn new(capacity: usize) -> (isolate: Self)
        ensures
            isolate.annex.wf(),
            isolate.annex@ == crate::model::StoreModel::initial(capacity as nat),
    {
        Isolate { annex: ScopeStore::new(capacity) }
    }

    /// The scope store of the isolate.
    pub fn get_annex(&self) -> (annex: &ScopeStore)
        ensures
            *annex == self.annex,
    {
        &self.annex
    }
}

impl RootHandleScopeParam for Isolate {
    type Data = data::HandleScope;

    open spec fn root_view(&self) -> ScopeDataView {
        ScopeDataView::declared(
            ScopeKind::HandleScope,
            None,
            seq![Frame::HandleScope(aspect::HandleScope::spec_new())],
        )
    }

    fn root(&self) -> (data: data::HandleScope) {
        data::HandleScope::root()
    }
}

impl RootHandleScopeParam for Context {
    type Data = data::ContextAndHandleScope;

    open spec fn root_view(&self) -> ScopeDataView {
        ScopeDataView::declared(
            ScopeKind::ContextAndHandleScope,
            None,
            seq![
                Frame::Context(aspect::Context::spec_new(*self)),
                Frame::HandleScope(aspect::HandleScope::spec_new()),
            ],
        )
    }

    fn root(&self) -> (data: data::ContextAndHandleScope) {
        data::ContextAndHandleScope::root(self)
    }
}

impl<T> Local<T> {
    /// The raw value of the local; never null.
    pub closed spec fn raw(&self) -> Address {
        self.raw
    }

    /// Cookie of the scope that keeps the value alive.
    pub closed spec fn scope(&self) -> u32 {
        self.scope
    }

    /// The raw value of a local is not null.
    pub closed spec fn wf(&self) -> bool {
        self.raw.0 != 0
    }

    /// A local for the raw value `raw`, kept alive by the handle scope that
    /// `scope` grants access to; `None` if `raw` is null. The scope is the
    /// innermost live one and grants access to a handle scope.
    pub fn new<S: GetEffectiveScope>(scope: &S, store: &ScopeStore, raw: usize) -> (local: Option<
        Self,
    >)
        requires
            store@.is_top(scope.scope().cookie),
            scope.scope().aspects.handles is Some,
        ensures
            local is Some <==> raw != 0,
            local matches Some(l) ==> l.wf() && l.raw() == Address(raw) && Some(l.scope())
                == scope.scope().aspects.handles,
    {
        if raw == 0 {
            None
        } else {
            let handles = scope.get_effective_scope().aspects.handles.unwrap();
            Some(Local { raw: Address(raw), scope: handles, _phantom: PhantomData })
        }
    }

    /// The raw value of the local.
    pub fn get_raw(&self) -> (raw: Address)
        ensures
            raw == self.raw(),
    {
        self.raw
    }

    /// Cookie of the scope that keeps the value alive.
    pub fn get_scope(&self) -> (scope: u32)
        ensures
            scope == self.scope(),
    {
        self.scope
    }

    /// Whether the scope that keeps the value alive is still on the chain of
    /// live scopes, as far as cookies can tell: its cookie is not beyond the
    /// top cookie.
    pub fn is_live(&self, store: &ScopeStore) -> (live: bool)
        ensures
            live == (self.scope() <= store@.top_cookie),
    {
        self.scope <= store.top_cookie()
    }

    /// Lets the value escape from the scope of `scope` into the enclosing
    /// scope that reserved the active escape slot: the slot is consumed, its
    /// cell receives the raw value, and the local that is returned is kept
    /// alive by the enclosing scope. The scope is the innermost live one, it
    /// can let a value escape, and nothing has escaped through the slot
    /// before: only one value can escape.
    pub fn escape<S: GetEffectiveScope>(self, scope: &S, store: &mut ScopeStore) -> (escaped: Self)
        requires
            self.wf(),
            old(store).wf(),
            old(store)@.is_top(scope.scope().cookie),
            scope.scope().aspects.escape is Some,
            old(store)@.can_escape(),
        ensures
            final(store).wf(),
            final(store)@ == old(store)@.escape(self.raw().0),
            !final(store)@.can_escape(),
            escaped.wf(),
            escaped.raw() == self.raw(),
            Some(escaped.scope()) == scope.scope().aspects.escape,
    {
        let effective = scope.get_effective_scope();
        proof {
            store.lemma_wf();
            crate::model::lemma_escape_wf(store@, self.raw.0);
        }
        store.take_escape_slot(effective.cookie, self.raw);
        Local { raw: self.raw, scope: effective.aspects.escape.unwrap(), _phantom: PhantomData }
    }
}

/// Whether a value can escape from the scope of `scope` now: the scope is
/// the innermost live one, it can let values escape, and nothing has
/// escaped through the active escape slot yet.
pub fn can_escape<S: GetEffectiveScope>(scope: &S, store: &ScopeStore) -> (can: bool)
    ensures
        can == (store@.is_top(scope.scope().cookie) && scope.scope().aspects.escape is Some
            && store@.can_escape()),
{
    let effective = scope.get_effective_scope();
    store.is_top(effective.cookie) && effective.aspects.escape.is_some() && store.can_escape()
}

impl Context {
    /// The context with raw value `raw`.
    pub fn new(raw: usize) -> (context: Self)
        ensures
            context.raw == raw,
    {
        Context { raw }
    }
}

} // verus!
