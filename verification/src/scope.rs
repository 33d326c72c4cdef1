//! What a scope grants, and how scopes compose: which kinds of child scope
//! can be opened from which parent, and what the child then grants.

use vstd::prelude::*;
use crate::effective_scope::Kind;

verus! {

/// The resource kinds that a scope grants access to.
///
/// `handles` and `escape` carry the cookie of a scope: values made through
/// the scope live as long as the scope with cookie `handles` does, and a
/// value that escapes from it lives as long as the scope with cookie
/// `escape`.
#[derive(Clone, Copy, Debug, PartialEq, Eq)]
pub struct Aspects {
    /// A context has been entered.
    pub context: bool,
    /// A handle scope is open; the cookie of the scope that opened it.
    pub handles: Option<u32>,
    /// An escape slot was reserved; the cookie of the scope that values
    /// escape to.
    pub escape: Option<u32>,
    /// A try-catch block is the innermost resource.
    pub try_catch: bool,
}

/// A live scope as the store sees it: its cookie and what it grants.
#[derive(Clone, Copy, Debug, PartialEq, Eq)]
pub struct Scope {
    pub cookie: u32,
    pub aspects: Aspects,
}

/// The kinds of scope that can be opened.
#[derive(Clone, Copy, Debug, PartialEq, Eq, Structural)]
pub enum ScopeKind {
    /// Enters a context.
    ContextScope,
    /// Opens a handle scope.
    HandleScope,
    /// Enters a context and opens a handle scope in it.
    ContextAndHandleScope,
    /// Reserves an escape slot and opens a handle scope above it.
    EscapableHandleScope,
    /// Sets up a try-catch block.
    TryCatch,
}

impl ScopeKind {
    /// The kinds of the frames that a scope of this kind owns, in the order
    /// in which they are pushed.
    pub open spec fn frame_kinds(self) -> Seq<Kind> {
        match self {
            ScopeKind::ContextScope => seq![Kind::Context],
            ScopeKind::HandleScope => seq![Kind::HandleScope],
            ScopeKind::ContextAndHandleScope => seq![Kind::Context, Kind::HandleScope],
            ScopeKind::EscapableHandleScope => seq![Kind::EscapeSlot, Kind::HandleScope],
            ScopeKind::TryCatch => seq![Kind::TryCatch],
        }
    }

    /// Whether a scope of this kind enters a context of its own.
    pub open spec fn enters_context(self) -> bool {
        self is ContextScope || self is ContextAndHandleScope
    }

    /// Whether a scope of this kind opens a handle scope of its own.
    pub open spec fn opens_handle_scope(self) -> bool {
        self is HandleScope || self is ContextAndHandleScope || self is EscapableHandleScope
    }
}

/// Whether a child of kind `child` can be opened from a scope that grants
/// `parent`, or as a root where `parent` is `None`.
///
/// A root can enter a context, open a handle scope, or both. From a scope, a
/// context can be entered wherever handles can be made; a handle scope needs
/// a context; an escapable handle scope needs a context and an enclosing
/// handle scope; a try-catch block needs both as well and cannot sit
/// directly in another try-catch block.
pub open spec fn can_add(parent: Option<Aspects>, child: ScopeKind) -> bool {
    match parent {
        None => child is ContextScope || child is HandleScope || child is ContextAndHandleScope,
        Some(p) => match child {
            ScopeKind::ContextScope => p.handles is Some,
            ScopeKind::HandleScope => p.context,
            ScopeKind::ContextAndHandleScope => false,
            ScopeKind::EscapableHandleScope => p.context && p.handles is Some,
            ScopeKind::TryCatch => p.context && p.handles is Some && !p.try_catch,
        },
    }
}

/// What a root grants before anything is opened from it: nothing.
pub open spec fn no_aspects() -> Aspects {
    Aspects { context: false, handles: None, escape: None, try_catch: false }
}

/// What a scope of kind `child` grants when it is opened with cookie
/// `cookie` from a scope that grants `parent`, or as a root where `parent`
/// is `None`; `None` where such a child cannot be opened.
///
/// The child has a context if its parent has one or it enters one. Values
/// made in it are kept alive by the child itself if it opens a handle scope,
/// else by the scope that keeps its parent's values alive. A value escapes
/// from an escapable handle scope to the scope that keeps its parent's
/// values alive, and from any other scope to where it would escape to from
/// the parent. Only a try-catch block is a try-catch block.
pub open spec fn compose_spec(parent: Option<Aspects>, child: ScopeKind, cookie: u32) -> Option<
    Aspects,
> {
    let inherited = match parent {
        Some(p) => p,
        None => no_aspects(),
    };
    if can_add(parent, child) {
        Some(
            Aspects {
                context: inherited.context || child.enters_context(),
                handles: if child.opens_handle_scope() {
                    Some(cookie)
                } else {
                    inherited.handles
                },
                escape: if child is EscapableHandleScope {
                    inherited.handles
                } else {
                    inherited.escape
                },
                try_catch: child is TryCatch,
            },
        )
    } else {
        None
    }
}

/// Computes what a child scope grants; see `compose_spec`.
pub fn compose(parent: Option<Aspects>, child: ScopeKind, cookie: u32) -> (aspects: Option<
    Aspects,
>)
    ensures
        aspects == compose_spec(parent, child, cookie),
{
    match child {
        ScopeKind::ContextScope => match parent {
            None => Some(
                Aspects { context: true, handles: None, escape: None, try_catch: false },
            ),
            Some(p) => if p.handles.is_some() {
                Some(
                    Aspects {
                        context: true,
                        handles: p.handles,
                        escape: p.escape,
                        try_catch: false,
                    },
                )
            } else {
                None
            },
        },
        ScopeKind::HandleScope => match parent {
            None => Some(
                Aspects { context: false, handles: Some(cookie), escape: None, try_catch: false },
            ),
            Some(p) => if p.context {
                Some(
                    Aspects {
                        context: true,
                        handles: Some(cookie),
                        escape: p.escape,
                        try_catch: false,
                    },
                )
            } else {
                None
            },
        },
        ScopeKind::ContextAndHandleScope => match parent {
            None => Some(
                Aspects { context: true, handles: Some(cookie), escape: None, try_catch: false },
            ),
            Some(_) => None,
        },
        ScopeKind::EscapableHandleScope => match parent {
            None => None,
            Some(p) => if p.context && p.handles.is_some() {
                Some(
                    Aspects {
                        context: true,
                        handles: Some(cookie),
                        escape: p.handles,
                        try_catch: false,
                    },
                )
            } else {
                None
            },
        },
        ScopeKind::TryCatch => match parent {
            None => None,
            Some(p) => if p.context && p.handles.is_some() && !p.try_catch {
                Some(
                    Aspects {
                        context: true,
                        handles: p.handles,
                        escape: p.escape,
                        try_catch: true,
                    },
                )
            } else {
                None
            },
        },
    }
}

/// Something that stands for a live scope: the handle types that entering a
/// scope yields.
pub trait GetEffectiveScope {
    /// The scope that the handle stands for.
    spec fn scope(&self) -> Scope;

    /// The scope that the handle stands for.
    fn get_effective_scope(&self) -> (scope: Scope)
        ensures
            scope == self.scope(),
    ;
}

/// A handle from whose scope a context can be entered.
pub trait AddContextScope: GetEffectiveScope {

}

/// A handle from whose scope a handle scope can be opened.
pub trait AddHandleScope: GetEffectiveScope {

}

/// A handle from whose scope an escapable handle scope can be opened.
pub trait AddEscapableHandleScope: GetEffectiveScope {

}

/// A handle from whose scope a try-catch block can be set up.
pub trait AddTryCatch: GetEffectiveScope {

}

/// Whether a child of kind `child` can be opened from the scope of `parent`
/// as far as what that scope grants is concerned.
pub fn can_open<P: GetEffectiveScope>(parent: &P, child: ScopeKind) -> (can: bool)
    ensures
        can == can_add(Some(parent.scope().aspects), child),
{
    compose(Some(parent.get_effective_scope().aspects), child, 0).is_some()
}

} // verus!
