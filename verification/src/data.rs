//! Scopes as their owner holds them: declared, then entered, then exited
//! again.
//!
//! A scope is declared with one of the `root` or `new` functions of the
//! handle types in `active`. Entering it assigns it the next cookie, pushes
//! its frames and yields the handle through which its resources are reached.
//! Exiting it pops exactly those frames and gives the cookie back.

use vstd::prelude::*;
use crate::active;
use crate::aspect;
use crate::aspect::Hook;
use crate::frame::total_bytes;
use crate::frame::Frame;
use crate::model::hook_seq;
use crate::model::StoreModel;
use crate::runtime::Context;
use crate::scope::can_add;
use crate::scope::compose;
use crate::scope::compose_spec;
use crate::scope::Aspects;
use crate::scope::GetEffectiveScope;
use crate::scope::Scope;
use crate::scope::ScopeKind;
use crate::store::ScopeStore;

verus! {

/// The cookie bookkeeping of one scope.
///
/// The cookie is 0 until the scope is entered, then the number the store
/// assigned, and 0 again once the scope has been exited.
#[derive(Debug)]
pub struct Header {
    cookie: u32,
    parent: Option<u32>,
}

impl Header {
    /// The scope's cookie; 0 while the scope is not entered.
    pub closed spec fn cookie(&self) -> u32 {
        self.cookie
    }

    /// Cookie of the scope from which this one was declared; `None` for a
    /// root.
    pub closed spec fn parent(&self) -> Option<u32> {
        self.parent
    }

    /// Whether the scope has been entered and not yet exited.
    pub open spec fn is_entered(&self) -> bool {
        self.cookie() != 0
    }

    /// Whether the scope cannot be used in the state `store`: it is entered
    /// and a scope opened after it is still live, or it is not entered and
    /// the scope it would be opened from is not the innermost live one.
    pub open spec fn shadowed_in(&self, store: StoreModel) -> bool {
        if self.is_entered() {
            !store.is_top(self.cookie())
        } else {
            self.parent() matches Some(p) && !store.is_top(p)
        }
    }

    /// Bookkeeping for a scope that is declared from the scope with cookie
    /// `parent`, or as a root.
    pub fn new(parent: Option<u32>) -> (header: Self)
        ensures
            header.cookie() == 0,
            header.parent() == parent,
    {
        Header { cookie: 0, parent }
    }

    /// The scope's cookie; 0 while the scope is not entered.
    pub fn get_cookie(&self) -> (cookie: u32)
        ensures
            cookie == self.cookie(),
    {
        self.cookie
    }

    /// Whether the scope cannot be used now; see `shadowed_in`.
    pub fn is_shadowed(&self, store: &ScopeStore) -> (shadowed: bool)
        ensures
            shadowed == self.shadowed_in(store@),
    {
        if self.cookie != 0 {
            !store.is_top(self.cookie)
        } else {
            match self.parent {
                Some(p) => !store.is_top(p),
                None => false,
            }
        }
    }

    /// Whether the scope is entered. The scope is not shadowed: of a
    /// shadowed scope the question is not asked.
    pub fn has_scope_been_entered(&self, store: &ScopeStore) -> (entered: bool)
        requires
            !self.shadowed_in(store@),
        ensures
            entered == self.is_entered(),
            entered ==> store@.is_top(self.cookie()),
    {
        self.cookie != 0
    }

    /// Takes the next cookie from the store and makes it the top cookie. The
    /// scope is not entered yet, and it is a root or its parent is the
    /// innermost live scope.
    pub fn enter(&mut self, store: &mut ScopeStore) -> (cookie: u32)
        requires
            !old(self).is_entered(),
            !old(self).shadowed_in(old(store)@),
            old(store).wf(),
            old(store)@.top_cookie < u32::MAX,
        ensures
            final(store).wf(),
            final(store)@ == old(store)@.init_scope(),
            cookie == old(store)@.top_cookie + 1,
            final(self).cookie() == cookie,
            final(self).parent() == old(self).parent(),
    {
        let cookie = store.init_scope_with(self.parent);
        self.cookie = cookie;
        cookie
    }

    /// Pops the scope's `frame_count` frames and gives its cookie back to the
    /// store: the top cookie is again what it was before the scope was
    /// entered. The scope is entered and is the innermost live one. Returns
    /// the calls that the runtime owes.
    pub fn exit(&mut self, store: &mut ScopeStore, frame_count: usize) -> (hooks: Vec<Hook>)
        requires
            old(self).is_entered(),
            !old(self).shadowed_in(old(store)@),
            old(store).wf(),
            frame_count <= old(store)@.frames.len(),
        ensures
            final(store).wf(),
            final(store)@ == old(store)@.drop_scope(frame_count as nat),
            hooks@ == old(store)@.pop_n_hooks(frame_count as nat),
            final(self).cookie() == 0,
            final(self).parent() == old(self).parent(),
    {
        let hooks = store.drop_scope(self.cookie, frame_count);
        self.cookie = 0;
        hooks
    }
}

/// A scope as a mathematical value.
pub struct ScopeDataView {
    /// The kind of scope.
    pub kind: ScopeKind,
    /// The scope this one was declared from; `None` for a root.
    pub parent: Option<Scope>,
    /// The frames that the scope owns while it is entered, in the order in
    /// which they are pushed.
    pub frames: Seq<Frame>,
    /// The scope's cookie; 0 while the scope is not entered.
    pub cookie: u32,
}

impl ScopeDataView {
    /// A scope that has been declared and not entered.
    pub open spec fn declared(kind: ScopeKind, parent: Option<Scope>, frames: Seq<Frame>) -> Self {
        ScopeDataView { kind, parent, frames, cookie: 0 }
    }

    /// A scope of this kind can be opened from this parent, and it owns the
    /// frames that its kind prescribes.
    pub open spec fn wf(self) -> bool {
        &&& can_add(self.parent_aspects(), self.kind)
        &&& self.frames.len() == self.kind.frame_kinds().len()
        &&& forall|i: int|
            0 <= i < self.frames.len() ==> (#[trigger] self.frames[i]).spec_kind()
                == self.kind.frame_kinds()[i]
    }

    /// What the parent grants; `None` for a root.
    pub open spec fn parent_aspects(self) -> Option<Aspects> {
        match self.parent {
            Some(p) => Some(p.aspects),
            None => None,
        }
    }

    /// Whether the scope has been entered and not yet exited.
    pub open spec fn is_entered(self) -> bool {
        self.cookie != 0
    }

    /// Whether the scope cannot be used in the state `store`: it is entered
    /// and a scope opened after it is still live, or it is not entered and
    /// its parent is not the innermost live scope.
    pub open spec fn shadowed_in(self, store: StoreModel) -> bool {
        if self.is_entered() {
            !store.is_top(self.cookie)
        } else {
            self.parent matches Some(p) && !store.is_top(p.cookie)
        }
    }

    /// Whether the scope can be entered in the state `store`: it is not
    /// entered, not shadowed, a cookie is left for it, and its frames fit.
    pub open spec fn can_enter(self, store: StoreModel) -> bool {
        &&& !self.is_entered()
        &&& !self.shadowed_in(store)
        &&& store.top_cookie < u32::MAX
        &&& store.fits(total_bytes(self.frames))
    }

    /// Whether the scope can be exited in the state `store`: it is entered,
    /// it is the innermost live scope, and its frames are on the stack.
    pub open spec fn can_exit(self, store: StoreModel) -> bool {
        &&& self.is_entered()
        &&& !self.shadowed_in(store)
        &&& self.frames.len() <= store.frames.len()
    }

    /// The scope as the store sees it once it has been entered with
    /// `cookie`.
    pub open spec fn scope(self, cookie: u32) -> Scope {
        Scope { cookie, aspects: compose_spec(self.parent_aspects(), self.kind, cookie)->0 }
    }

    /// The same scope with `cookie` for its cookie.
    pub open spec fn with_cookie(self, cookie: u32) -> Self {
        ScopeDataView { cookie, ..self }
    }
}

/// What all kinds of scope have in common: the bookkeeping and up to two
/// frames.
#[derive(Debug)]
pub struct ScopeDataInner {
    header: Header,
    kind: ScopeKind,
    parent_aspects: Aspects,
    aspect1: Frame,
    aspect2: Option<Frame>,
}

impl ScopeDataInner {
    /// The scope as a mathematical value.
    pub closed spec fn view(&self) -> ScopeDataView {
        ScopeDataView {
            kind: self.kind,
            parent: match self.header.parent() {
                Some(cookie) => Some(Scope { cookie, aspects: self.parent_aspects }),
                None => None,
            },
            frames: match self.aspect2 {
                Some(second) => seq![self.aspect1, second],
                None => seq![self.aspect1],
            },
            cookie: self.header.cookie(),
        }
    }

    /// A declared scope of `kind` that owns `aspect1` and, above it,
    /// `aspect2`.
    pub fn new(kind: ScopeKind, parent: Option<Scope>, aspect1: Frame, aspect2: Option<Frame>) -> (inner:
        Self)
        ensures
            inner@ == ScopeDataView::declared(
                kind,
                parent,
                match aspect2 {
                    Some(second) => seq![aspect1, second],
                    None => seq![aspect1],
                },
            ),
    {
        match parent {
            Some(p) => ScopeDataInner {
                header: Header::new(Some(p.cookie)),
                kind,
                parent_aspects: p.aspects,
                aspect1,
                aspect2,
            },
            None => ScopeDataInner {
                header: Header::new(None),
                kind,
                parent_aspects: Aspects {
                    context: false,
                    handles: None,
                    escape: None,
                    try_catch: false,
                },
                aspect1,
                aspect2,
            },
        }
    }

    /// Number of frames that the scope owns while it is entered.
    pub fn frame_count(&self) -> (count: usize)
        ensures
            count == self@.frames.len(),
    {
        match self.aspect2 {
            Some(_) => 2,
            None => 1,
        }
    }

    /// Whether the scope can be entered now; see `ScopeDataView::can_enter`.
    pub fn can_enter(&self, store: &ScopeStore) -> (can: bool)
        requires
            store.wf(),
        ensures
            can == self@.can_enter(store@),
    {
        proof {
            self.lemma_total_bytes();
        }
        let bytes = match self.aspect2 {
            Some(second) => self.aspect1.byte_len() + second.byte_len(),
            None => self.aspect1.byte_len(),
        };
        self.header.get_cookie() == 0 && !self.header.is_shadowed(store) && store.top_cookie()
            < u32::MAX && store.fits(bytes)
    }

    /// Whether the scope is entered and is the innermost live scope.
    pub fn is_top(&self, store: &ScopeStore) -> (top: bool)
        ensures
            top == (self@.is_entered() && !self@.shadowed_in(store@)),
    {
        self.header.get_cookie() != 0 && !self.header.is_shadowed(store)
    }

    /// Whether the scope can be exited now; see `ScopeDataView::can_exit`.
    pub fn can_exit(&self, store: &ScopeStore) -> (can: bool)
        requires
            store.wf(),
        ensures
            can == self@.can_exit(store@),
    {
        self.is_top(store) && self.frame_count() <= store.frame_count()
    }

    /// The scope's frames are as long as its kind makes them.
    proof fn lemma_total_bytes(&self)
        ensures
            total_bytes(self@.frames) == match self.aspect2 {
                Some(second) => self.aspect1.spec_byte_len() + second.spec_byte_len(),
                None => self.aspect1.spec_byte_len(),
            },
            total_bytes(self@.frames) <= 144,
    {
        let frames = self@.frames;
        crate::frame::lemma_total_bytes_first(frames);
        if frames.len() == 2 {
            crate::frame::lemma_total_bytes_first(frames.drop_first());
        }
    }

    /// Enters the scope: takes the next cookie, pushes the scope's frames
    /// and returns the scope as the store now sees it, with the calls that
    /// the runtime owes.
    pub fn enter(&mut self, store: &mut ScopeStore) -> (entered: (Scope, Vec<Hook>))
        requires
            old(self)@.wf(),
            old(store).wf(),
            old(self)@.can_enter(old(store)@),
        ensures
            final(store).wf(),
            final(store)@ == old(store)@.enter_scope(old(self)@.frames),
            final(self)@ == old(self)@.with_cookie(entered.0.cookie),
            entered.0.cookie == old(store)@.top_cookie + 1,
            entered.0 == old(self)@.scope(entered.0.cookie),
            entered.1@ == old(store)@.init_scope().push_all_hooks(old(self)@.frames),
            final(self)@.can_exit(final(store)@),
    {
        proof {
            self.lemma_total_bytes();
            store.lemma_wf();
            crate::model::lemma_with_top_wf(store@, (store@.top_cookie + 1) as u32);
            crate::frame::lemma_total_bytes_first(self@.frames);
            crate::model::lemma_push_all_wf(store@.init_scope(), self@.frames);
        }
        let ghost opened = old(store)@.init_scope();
        let cookie = self.header.enter(store);
        let mut hooks: Vec<Hook> = Vec::new();
        let first = store.push(self.aspect1);
        match first {
            Some(hook) => {
                hooks.push(hook);
            },
            None => {},
        }
        match self.aspect2 {
            Some(second) => {
                proof {
                    crate::model::lemma_push_wf(opened, self.aspect1);
                }
                let above = store.push(second);
                match above {
                    Some(hook) => {
                        hooks.push(hook);
                    },
                    None => {},
                }
                proof {
                    crate::model::lemma_push_all_two(opened, self.aspect1, second);
                }
            },
            None => {
                proof {
                    crate::model::lemma_push_all_one(opened, self.aspect1);
                }
            },
        }
        let parent_aspects = match self.header.parent {
            Some(_) => Some(self.parent_aspects),
            None => None,
        };
        let aspects = compose(parent_aspects, self.kind, cookie).unwrap();
        (Scope { cookie, aspects }, hooks)
    }

    /// Exits the scope: pops its frames, last pushed first, and gives its
    /// cookie back. Returns the calls that the runtime owes.
    pub fn exit(&mut self, store: &mut ScopeStore) -> (hooks: Vec<Hook>)
        requires
            old(store).wf(),
            old(self)@.can_exit(old(store)@),
        ensures
            final(store).wf(),
            final(store)@ == old(store)@.drop_scope(old(self)@.frames.len()),
            hooks@ == old(store)@.pop_n_hooks(old(self)@.frames.len()),
            final(self)@ == old(self)@.with_cookie(0),
    {
        let frame_count = self.frame_count();
        self.header.exit(store, frame_count)
    }
}

/// A scope that enters a context.
#[derive(Debug)]
pub struct ContextScope {
    inner: ScopeDataInner,
}

impl View for ContextScope {
    type V = ScopeDataView;

    closed spec fn view(&self) -> ScopeDataView {
        self.inner@
    }
}

impl ContextScope {
    /// Declares a scope that enters `context` without a parent.
    pub(crate) fn root(context: &Context) -> (data: Self)
        ensures
            data@ == ScopeDataView::declared(
                ScopeKind::ContextScope,
                None,
                seq![Frame::Context(aspect::Context::spec_new(*context))],
            ),
    {
        ContextScope {
            inner: ScopeDataInner::new(
                ScopeKind::ContextScope,
                None,
                Frame::Context(aspect::Context::new(context)),
                None,
            ),
        }
    }

    /// Declares a scope that enters `context` from the scope `parent`.
    pub(crate) fn new(parent: Scope, context: &Context) -> (data: Self)
        ensures
            data@ == ScopeDataView::declared(
                ScopeKind::ContextScope,
                Some(parent),
                seq![Frame::Context(aspect::Context::spec_new(*context))],
            ),
    {
        ContextScope {
            inner: ScopeDataInner::new(
                ScopeKind::ContextScope,
                Some(parent),
                Frame::Context(aspect::Context::new(context)),
                None,
            ),
        }
    }

    /// Whether the scope can be entered now: it is not entered, it is a root
    /// or its parent is the innermost live scope, a cookie is left for it,
    /// and its frames fit on the frame stack.
    pub fn can_enter(&self, store: &ScopeStore) -> (can: bool)
        requires
            store.wf(),
        ensures
            can == self@.can_enter(store@),
    {
        self.inner.can_enter(store)
    }

    /// Whether the scope is entered and is the innermost live scope.
    pub fn is_top(&self, store: &ScopeStore) -> (top: bool)
        ensures
            top == (self@.is_entered() && !self@.shadowed_in(store@)),
    {
        self.inner.is_top(store)
    }

    /// Whether the scope can be exited now: it is entered, it is the
    /// innermost live scope, and its frames are on the frame stack.
    pub fn can_exit(&self, store: &ScopeStore) -> (can: bool)
        requires
            store.wf(),
        ensures
            can == self@.can_exit(store@),
    {
        self.inner.can_exit(store)
    }

    /// Enters the scope: the store assigns it the cookie after the top
    /// cookie and pushes its frames. Returns the handle of the entered scope
    /// and the calls that the runtime owes, in the order of the frames.
    pub fn enter(&mut self, store: &mut ScopeStore) -> (entered: (active::ContextScope, Vec<Hook>))
        requires
            old(self)@.wf(),
            old(store).wf(),
            old(self)@.can_enter(old(store)@),
        ensures
            final(store).wf(),
            final(store)@ == old(store)@.enter_scope(old(self)@.frames),
            final(self)@ == old(self)@.with_cookie((old(store)@.top_cookie + 1) as u32),
            entered.0.scope() == old(self)@.scope((old(store)@.top_cookie + 1) as u32),
            entered.1@ == old(store)@.init_scope().push_all_hooks(old(self)@.frames),
            final(self)@.can_exit(final(store)@),
    {
        let (scope, hooks) = self.inner.enter(store);
        (active::ContextScope::from_scope(scope), hooks)
    }

    /// Exits the scope: the store pops the scope's frames, last pushed
    /// first, and the top cookie is again what it was before the scope was
    /// entered. The scope is entered and is the innermost live one. Returns
    /// the calls that the runtime owes, in the order in which the frames
    /// leave.
    pub fn exit(&mut self, store: &mut ScopeStore) -> (hooks: Vec<Hook>)
        requires
            old(store).wf(),
            old(self)@.can_exit(old(store)@),
        ensures
            final(store).wf(),
            final(store)@ == old(store)@.drop_scope(old(self)@.frames.len()),
            hooks@ == old(store)@.pop_n_hooks(old(self)@.frames.len()),
            final(self)@ == old(self)@.with_cookie(0),
    {
        self.inner.exit(store)
    }
}

/// A scope that opens a handle scope.
#[derive(Debug)]
pub struct HandleScope {
    inner: ScopeDataInner,
}

impl View for HandleScope {
    type V = ScopeDataView;

    closed spec fn view(&self) -> ScopeDataView {
        self.inner@
    }
}

impl HandleScope {
    /// Declares a scope that opens a handle scope without a parent and
    /// without a context.
    pub(crate) fn root() -> (data: Self)
        ensures
            data@ == ScopeDataView::declared(
                ScopeKind::HandleScope,
                None,
                seq![Frame::HandleScope(aspect::HandleScope::spec_new())],
            ),
    {
        HandleScope {
            inner: ScopeDataInner::new(
                ScopeKind::HandleScope,
                None,
                Frame::HandleScope(aspect::HandleScope::new()),
                None,
            ),
        }
    }

    /// Declares a scope that opens a handle scope from the scope `parent`.
    pub(crate) fn new(parent: Scope) -> (data: Self)
        ensures
            data@ == ScopeDataView::declared(
                ScopeKind::HandleScope,
                Some(parent),
                seq![Frame::HandleScope(aspect::HandleScope::spec_new())],
            ),
    {
        HandleScope {
            inner: ScopeDataInner::new(
                ScopeKind::HandleScope,
                Some(parent),
                Frame::HandleScope(aspect::HandleScope::new()),
                None,
            ),
        }
    }

    /// Whether the scope can be entered now: it is not entered, it is a root
    /// or its parent is the innermost live scope, a cookie is left for it,
    /// and its frames fit on the frame stack.
    pub fn can_enter(&self, store: &ScopeStore) -> (can: bool)
        requires
            store.wf(),
        ensures
            can == self@.can_enter(store@),
    {
        self.inner.can_enter(store)
    }

    /// Whether the scope is entered and is the innermost live scope.
    pub fn is_top(&self, store: &ScopeStore) -> (top: bool)
        ensures
            top == (self@.is_entered() && !self@.shadowed_in(store@)),
    {
        self.inner.is_top(store)
    }

    /// Whether the scope can be exited now: it is entered, it is the
    /// innermost live scope, and its frames are on the frame stack.
    pub fn can_exit(&self, store: &ScopeStore) -> (can: bool)
        requires
            store.wf(),
        ensures
            can == self@.can_exit(store@),
    {
        self.inner.can_exit(store)
    }

    /// Enters the scope: the store assigns it the cookie after the top
    /// cookie and pushes its frames. Returns the handle of the entered scope
    /// and the calls that the runtime owes, in the order of the frames.
    pub fn enter(&mut self, store: &mut ScopeStore) -> (entered: (active::HandleScope, Vec<Hook>))
        requires
            old(self)@.wf(),
            old(store).wf(),
            old(self)@.can_enter(old(store)@),
        ensures
            final(store).wf(),
            final(store)@ == old(store)@.enter_scope(old(self)@.frames),
            final(self)@ == old(self)@.with_cookie((old(store)@.top_cookie + 1) as u32),
            entered.0.scope() == old(self)@.scope((old(store)@.top_cookie + 1) as u32),
            entered.1@ == old(store)@.init_scope().push_all_hooks(old(self)@.frames),
            final(self)@.can_exit(final(store)@),
    {
        let (scope, hooks) = self.inner.enter(store);
        (active::HandleScope::from_scope(scope), hooks)
    }

    /// Exits the scope: the store pops the scope's frames, last pushed
    /// first, and the top cookie is again what it was before the scope was
    /// entered. The scope is entered and is the innermost live one. Returns
    /// the calls that the runtime owes, in the order in which the frames
    /// leave.
    pub fn exit(&mut self, store: &mut ScopeStore) -> (hooks: Vec<Hook>)
        requires
            old(store).wf(),
            old(self)@.can_exit(old(store)@),
        ensures
            final(store).wf(),
            final(store)@ == old(store)@.drop_scope(old(self)@.frames.len()),
            hooks@ == old(store)@.pop_n_hooks(old(self)@.frames.len()),
            final(self)@ == old(self)@.with_cookie(0),
    {
        self.inner.exit(store)
    }
}

/// A scope that enters a context and opens a handle scope in it.
#[derive(Debug)]
pub struct ContextAndHandleScope {
    inner: ScopeDataInner,
}

impl View for ContextAndHandleScope {
    type V = ScopeDataView;

    closed spec fn view(&self) -> ScopeDataView {
        self.inner@
    }
}

impl ContextAndHandleScope {
    /// Declares a scope that enters `context` and opens a handle scope in
    /// it, without a parent.
    pub(crate) fn root(context: &Context) -> (data: Self)
        ensures
            data@ == ScopeDataView::declared(
                ScopeKind::ContextAndHandleScope,
                None,
                seq![
                    Frame::Context(aspect::Context::spec_new(*context)),
                    Frame::HandleScope(aspect::HandleScope::spec_new()),
                ],
            ),
    {
        ContextAndHandleScope {
            inner: ScopeDataInner::new(
                ScopeKind::ContextAndHandleScope,
                None,
                Frame::Context(aspect::Context::new(context)),
                Some(Frame::HandleScope(aspect::HandleScope::new())),
            ),
        }
    }

    /// Whether the scope can be entered now: it is not entered, it is a root
    /// or its parent is the innermost live scope, a cookie is left for it,
    /// and its frames fit on the frame stack.
    pub fn can_enter(&self, store: &ScopeStore) -> (can: bool)
        requires
            store.wf(),
        ensures
            can == self@.can_enter(store@),
    {
        self.inner.can_enter(store)
    }

    /// Whether the scope is entered and is the innermost live scope.
    pub fn is_top(&self, store: &ScopeStore) -> (top: bool)
        ensures
            top == (self@.is_entered() && !self@.shadowed_in(store@)),
    {
        self.inner.is_top(store)
    }

    /// Whether the scope can be exited now: it is entered, it is the
    /// innermost live scope, and its frames are on the frame stack.
    pub fn can_exit(&self, store: &ScopeStore) -> (can: bool)
        requires
            store.wf(),
        ensures
            can == self@.can_exit(store@),
    {
        self.inner.can_exit(store)
    }

    /// Enters the scope: the store assigns it the cookie after the top
    /// cookie and pushes its frames. Returns the handle of the entered scope
    /// and the calls that the runtime owes, in the order of the frames.
    pub fn enter(&mut self, store: &mut ScopeStore) -> (entered: (active::HandleScope, Vec<Hook>))
        requires
            old(self)@.wf(),
            old(store).wf(),
            old(self)@.can_enter(old(store)@),
        ensures
            final(store).wf(),
            final(store)@ == old(store)@.enter_scope(old(self)@.frames),
            final(self)@ == old(self)@.with_cookie((old(store)@.top_cookie + 1) as u32),
            entered.0.scope() == old(self)@.scope((old(store)@.top_cookie + 1) as u32),
            entered.1@ == old(store)@.init_scope().push_all_hooks(old(self)@.frames),
            final(self)@.can_exit(final(store)@),
    {
        let (scope, hooks) = self.inner.enter(store);
        (active::HandleScope::from_scope(scope), hooks)
    }

    /// Exits the scope: the store pops the scope's frames, last pushed
    /// first, and the top cookie is again what it was before the scope was
    /// entered. The scope is entered and is the innermost live one. Returns
    /// the calls that the runtime owes, in the order in which the frames
    /// leave.
    pub fn exit(&mut self, store: &mut ScopeStore) -> (hooks: Vec<Hook>)
        requires
            old(store).wf(),
            old(self)@.can_exit(old(store)@),
        ensures
            final(store).wf(),
            final(store)@ == old(store)@.drop_scope(old(self)@.frames.len()),
            hooks@ == old(store)@.pop_n_hooks(old(self)@.frames.len()),
            final(self)@ == old(self)@.with_cookie(0),
    {
        self.inner.exit(store)
    }
}

/// A scope that reserves an escape slot and opens a handle scope above it.
#[derive(Debug)]
pub struct EscapableHandleScope {
    inner: ScopeDataInner,
}

impl View for EscapableHandleScope {
    type V = ScopeDataView;

    closed spec fn view(&self) -> ScopeDataView {
        self.inner@
    }
}

impl EscapableHandleScope {
    /// Declares a scope that reserves an escape slot and opens a handle
    /// scope above it, from the scope `parent`.
    pub(crate) fn new(parent: Scope) -> (data: Self)
        ensures
            data@ == ScopeDataView::declared(
                ScopeKind::EscapableHandleScope,
                Some(parent),
                seq![
                    Frame::EscapeSlot(aspect::EscapeSlot::spec_new()),
                    Frame::HandleScope(aspect::HandleScope::spec_new()),
                ],
            ),
    {
        EscapableHandleScope {
            inner: ScopeDataInner::new(
                ScopeKind::EscapableHandleScope,
                Some(parent),
                Frame::EscapeSlot(aspect::EscapeSlot::new()),
                Some(Frame::HandleScope(aspect::HandleScope::new())),
            ),
        }
    }

    /// Whether the scope can be entered now: it is not entered, it is a root
    /// or its parent is the innermost live scope, a cookie is left for it,
    /// and its frames fit on the frame stack.
    pub fn can_enter(&self, store: &ScopeStore) -> (can: bool)
        requires
            store.wf(),
        ensures
            can == self@.can_enter(store@),
    {
        self.inner.can_enter(store)
    }

    /// Whether the scope is entered and is the innermost live scope.
    pub fn is_top(&self, store: &ScopeStore) -> (top: bool)
        ensures
            top == (self@.is_entered() && !self@.shadowed_in(store@)),
    {
        self.inner.is_top(store)
    }

    /// Whether the scope can be exited now: it is entered, it is the
    /// innermost live scope, and its frames are on the frame stack.
    pub fn can_exit(&self, store: &ScopeStore) -> (can: bool)
        requires
            store.wf(),
        ensures
            can == self@.can_exit(store@),
    {
        self.inner.can_exit(store)
    }

    /// Enters the scope: the store assigns it the cookie after the top
    /// cookie and pushes its frames. Returns the handle of the entered scope
    /// and the calls that the runtime owes, in the order of the frames.
    pub fn enter(&mut self, store: &mut ScopeStore) -> (entered: (active::EscapableHandleScope, Vec<Hook>))
        requires
            old(self)@.wf(),
            old(store).wf(),
            old(self)@.can_enter(old(store)@),
        ensures
            final(store).wf(),
            final(store)@ == old(store)@.enter_scope(old(self)@.frames),
            final(self)@ == old(self)@.with_cookie((old(store)@.top_cookie + 1) as u32),
            entered.0.scope() == old(self)@.scope((old(store)@.top_cookie + 1) as u32),
            entered.1@ == old(store)@.init_scope().push_all_hooks(old(self)@.frames),
            final(self)@.can_exit(final(store)@),
    {
        let (scope, hooks) = self.inner.enter(store);
        (active::EscapableHandleScope::from_scope(scope), hooks)
    }

    /// Exits the scope: the store pops the scope's frames, last pushed
    /// first, and the top cookie is again what it was before the scope was
    /// entered. The scope is entered and is the innermost live one. Returns
    /// the calls that the runtime owes, in the order in which the frames
    /// leave.
    pub fn exit(&mut self, store: &mut ScopeStore) -> (hooks: Vec<Hook>)
        requires
            old(store).wf(),
            old(self)@.can_exit(old(store)@),
        ensures
            final(store).wf(),
            final(store)@ == old(store)@.drop_scope(old(self)@.frames.len()),
            hooks@ == old(store)@.pop_n_hooks(old(self)@.frames.len()),
            final(self)@ == old(self)@.with_cookie(0),
    {
        self.inner.exit(store)
    }
}

/// A scope that sets up a try-catch block.
#[derive(Debug)]
pub struct TryCatch {
    inner: ScopeDataInner,
}

impl View for TryCatch {
    type V = ScopeDataView;

    closed spec fn view(&self) -> ScopeDataView {
        self.inner@
    }
}

impl TryCatch {
    /// Declares a scope that sets up a try-catch block, from the scope
    /// `parent`.
    pub(crate) fn new(parent: Scope) -> (data: Self)
        ensures
            data@ == ScopeDataView::declared(
                ScopeKind::TryCatch,
                Some(parent),
                seq![Frame::TryCatch(aspect::TryCatch::spec_new())],
            ),
    {
        TryCatch {
            inner: ScopeDataInner::new(
                ScopeKind::TryCatch,
                Some(parent),
                Frame::TryCatch(aspect::TryCatch::new()),
                None,
            ),
        }
    }

    /// Whether the scope can be entered now: it is not entered, it is a root
    /// or its parent is the innermost live scope, a cookie is left for it,
    /// and its frames fit on the frame stack.
    pub fn can_enter(&self, store: &ScopeStore) -> (can: bool)
        requires
            store.wf(),
        ensures
            can == self@.can_enter(store@),
    {
        self.inner.can_enter(store)
    }

    /// Whether the scope is entered and is the innermost live scope.
    pub fn is_top(&self, store: &ScopeStore) -> (top: bool)
        ensures
            top == (self@.is_entered() && !self@.shadowed_in(store@)),
    {
        self.inner.is_top(store)
    }

    /// Whether the scope can be exited now: it is entered, it is the
    /// innermost live scope, and its frames are on the frame stack.
    pub fn can_exit(&self, store: &ScopeStore) -> (can: bool)
        requires
            store.wf(),
        ensures
            can == self@.can_exit(store@),
    {
        self.inner.can_exit(store)
    }

    /// Enters the scope: the store assigns it the cookie after the top
    /// cookie and pushes its frames. Returns the handle of the entered scope
    /// and the calls that the runtime owes, in the order of the frames.
    pub fn enter(&mut self, store: &mut ScopeStore) -> (entered: (active::TryCatch, Vec<Hook>))
        requires
            old(self)@.wf(),
            old(store).wf(),
            old(self)@.can_enter(old(store)@),
        ensures
            final(store).wf(),
            final(store)@ == old(store)@.enter_scope(old(self)@.frames),
            final(self)@ == old(self)@.with_cookie((old(store)@.top_cookie + 1) as u32),
            entered.0.scope() == old(self)@.scope((old(store)@.top_cookie + 1) as u32),
            entered.1@ == old(store)@.init_scope().push_all_hooks(old(self)@.frames),
            final(self)@.can_exit(final(store)@),
    {
        let (scope, hooks) = self.inner.enter(store);
        (active::TryCatch::from_scope(scope), hooks)
    }

    /// Exits the scope: the store pops the scope's frames, last pushed
    /// first, and the top cookie is again what it was before the scope was
    /// entered. The scope is entered and is the innermost live one. Returns
    /// the calls that the runtime owes, in the order in which the frames
    /// leave.
    pub fn exit(&mut self, store: &mut ScopeStore) -> (hooks: Vec<Hook>)
        requires
            old(store).wf(),
            old(self)@.can_exit(old(store)@),
        ensures
            final(store).wf(),
            final(store)@ == old(store)@.drop_scope(old(self)@.frames.len()),
            hooks@ == old(store)@.pop_n_hooks(old(self)@.frames.len()),
            final(self)@ == old(self)@.with_cookie(0),
    {
        self.inner.exit(store)
    }
}

} // verus!
