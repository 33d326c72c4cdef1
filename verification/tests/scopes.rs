use scope_stack::aspect::Hook;
use scope_stack::data::Header;
use scope_stack::effective_scope::Kind;
use scope_stack::effective_scope::Slot;
use scope_stack::runtime::can_escape;
use scope_stack::scope::can_open;
use scope_stack::scope::compose;
use scope_stack::scope::Aspects;
use scope_stack::scope::Scope;
use scope_stack::scope::ScopeKind;
use scope_stack::Context;
use scope_stack::ContextScope;
use scope_stack::EscapableHandleScope;
use scope_stack::GetEffectiveScope;
use scope_stack::HandleScope;
use scope_stack::Isolate;
use scope_stack::Local;
use scope_stack::ScopeStore;
use scope_stack::TryCatch;
use scope_stack::Value;

fn aspects(context: bool, handles: Option<u32>, escape: Option<u32>, try_catch: bool) -> Aspects {
    Aspects { context, handles, escape, try_catch }
}

#[test]
fn what_a_root_may_open() {
    assert_eq!(
        compose(None, ScopeKind::ContextScope, 1),
        Some(aspects(true, None, None, false))
    );
    assert_eq!(
        compose(None, ScopeKind::HandleScope, 1),
        Some(aspects(false, Some(1), None, false))
    );
    assert_eq!(
        compose(None, ScopeKind::ContextAndHandleScope, 4),
        Some(aspects(true, Some(4), None, false))
    );
    assert_eq!(compose(None, ScopeKind::EscapableHandleScope, 1), None);
    assert_eq!(compose(None, ScopeKind::TryCatch, 1), None);
}

#[test]
fn what_a_context_without_handles_may_open() {
    let parent = Some(aspects(true, None, None, false));
    assert_eq!(compose(parent, ScopeKind::ContextScope, 2), None);
    assert_eq!(
        compose(parent, ScopeKind::HandleScope, 2),
        Some(aspects(true, Some(2), None, false))
    );
    assert_eq!(compose(parent, ScopeKind::ContextAndHandleScope, 2), None);
    assert_eq!(compose(parent, ScopeKind::EscapableHandleScope, 2), None);
    assert_eq!(compose(parent, ScopeKind::TryCatch, 2), None);
}

#[test]
fn what_handles_without_a_context_may_open() {
    let parent = Some(aspects(false, Some(1), None, false));
    assert_eq!(
        compose(parent, ScopeKind::ContextScope, 2),
        Some(aspects(true, Some(1), None, false))
    );
    assert_eq!(compose(parent, ScopeKind::HandleScope, 2), None);
    assert_eq!(compose(parent, ScopeKind::ContextAndHandleScope, 2), None);
    assert_eq!(compose(parent, ScopeKind::EscapableHandleScope, 2), None);
    assert_eq!(compose(parent, ScopeKind::TryCatch, 2), None);
}

#[test]
fn what_a_handle_scope_in_a_context_may_open() {
    let parent = Some(aspects(true, Some(3), Some(1), false));
    assert_eq!(
        compose(parent, ScopeKind::ContextScope, 4),
        Some(aspects(true, Some(3), Some(1), false))
    );
    assert_eq!(
        compose(parent, ScopeKind::HandleScope, 4),
        Some(aspects(true, Some(4), Some(1), false))
    );
    assert_eq!(compose(parent, ScopeKind::ContextAndHandleScope, 4), None);
    assert_eq!(
        compose(parent, ScopeKind::EscapableHandleScope, 4),
        Some(aspects(true, Some(4), Some(3), false))
    );
    assert_eq!(
        compose(parent, ScopeKind::TryCatch, 4),
        Some(aspects(true, Some(3), Some(1), true))
    );
}

#[test]
fn what_a_try_catch_block_may_open() {
    let parent = Some(aspects(true, Some(3), None, true));
    assert_eq!(compose(parent, ScopeKind::TryCatch, 4), None);
    assert_eq!(
        compose(parent, ScopeKind::ContextScope, 4),
        Some(aspects(true, Some(3), None, false))
    );
    assert_eq!(
        compose(parent, ScopeKind::HandleScope, 4),
        Some(aspects(true, Some(4), None, false))
    );
    assert_eq!(
        compose(parent, ScopeKind::EscapableHandleScope, 4),
        Some(aspects(true, Some(4), Some(3), false))
    );
}

#[test]
fn header_follows_the_cookie() {
    let mut store = ScopeStore::new(1024);
    let mut outer = Header::new(None);
    assert_eq!(outer.get_cookie(), 0);
    assert!(!outer.is_shadowed(&store));
    assert!(!outer.has_scope_been_entered(&store));
    assert_eq!(outer.enter(&mut store), 1);
    assert_eq!(outer.get_cookie(), 1);
    assert!(outer.has_scope_been_entered(&store));

    let mut inner = Header::new(Some(1));
    assert!(!inner.is_shadowed(&store));
    assert!(!inner.has_scope_been_entered(&store));
    let mut late = Header::new(Some(1));
    assert_eq!(inner.enter(&mut store), 2);
    assert!(outer.is_shadowed(&store));
    assert!(late.is_shadowed(&store));
    assert!(!inner.is_shadowed(&store));

    assert_eq!(inner.exit(&mut store, 0), vec![]);
    assert_eq!(inner.get_cookie(), 0);
    assert_eq!(store.top_cookie(), 1);
    assert!(!outer.is_shadowed(&store));
    assert!(!late.is_shadowed(&store));
    assert_eq!(late.enter(&mut store), 2);
    assert_eq!(late.exit(&mut store, 0), vec![]);
    assert_eq!(outer.exit(&mut store, 0), vec![]);
    assert_eq!(store.top_cookie(), 0);
    assert!(!outer.has_scope_been_entered(&store));
}

#[test]
fn entering_and_exiting_leaves_the_store_as_it_was() {
    let mut isolate = Isolate::new(4096);
    let context = Context::new(0x40);
    let mut root = HandleScope::root(&context);
    let (root_scope, _) = root.enter(&mut isolate.annex);
    let len = isolate.annex.len();
    let frames = isolate.annex.frame_count();
    let cookie = isolate.annex.top_cookie();
    let handles = isolate.annex.get(cookie, Kind::HandleScope);

    let mut try_catch = TryCatch::new(&root_scope);
    let (tc_scope, hooks) = try_catch.enter(&mut isolate.annex);
    assert_eq!(hooks, vec![Hook::ConstructTryCatch(80)]);
    assert_eq!(isolate.annex.frame_count(), frames + 1);
    assert_eq!(isolate.annex.top_cookie(), cookie + 1);
    assert_eq!(isolate.annex.get(2, Kind::TryCatch), Slot::At(80));
    assert_eq!(tc_scope.get_effective_scope().aspects.try_catch, true);
    assert_eq!(tc_scope.get_effective_scope().aspects.handles, Some(1));
    assert_eq!(try_catch.exit(&mut isolate.annex), vec![Hook::DestructTryCatch(80)]);
    assert_eq!(isolate.annex.len(), len);
    assert_eq!(isolate.annex.frame_count(), frames);
    assert_eq!(isolate.annex.top_cookie(), cookie);
    assert_eq!(isolate.annex.get(cookie, Kind::HandleScope), handles);
    assert_eq!(isolate.annex.get(cookie, Kind::TryCatch), Slot::Empty);

    let mut escapable = EscapableHandleScope::new(&root_scope);
    escapable.enter(&mut isolate.annex);
    assert_eq!(isolate.annex.frame_count(), frames + 2);
    assert_eq!(isolate.annex.len(), len + 80);
    assert_eq!(escapable.exit(&mut isolate.annex), vec![Hook::DestructHandleScope(112)]);
    assert_eq!(isolate.annex.len(), len);
    assert_eq!(isolate.annex.frame_count(), frames);
    assert_eq!(isolate.annex.top_cookie(), cookie);
    assert_eq!(isolate.annex.get(cookie, Kind::HandleScope), handles);
    assert_eq!(isolate.annex.get(cookie, Kind::EscapeSlot), Slot::Empty);

    assert!(root.can_exit(&isolate.annex));
    root.exit(&mut isolate.annex);
    assert_eq!(isolate.annex.len(), 0);
    assert_eq!(isolate.annex.top_cookie(), 0);
    assert!(!root.can_exit(&isolate.annex));
    assert!(root.can_enter(&isolate.annex));
}

#[test]
fn a_scope_is_entered_once() {
    let mut isolate = Isolate::new(4096);
    let mut root = HandleScope::root(&isolate);
    assert!(root.can_enter(&isolate.annex));
    assert!(!root.can_exit(&isolate.annex));
    root.enter(&mut isolate.annex);
    assert!(!root.can_enter(&isolate.annex));
    assert!(root.can_exit(&isolate.annex));
}

#[test]
fn roots_shadow_whatever_is_live() {
    let mut isolate = Isolate::new(4096);
    let context = Context::new(1);
    let mut first = HandleScope::root(&isolate);
    let (first_scope, _) = first.enter(&mut isolate.annex);
    let mut second = ContextScope::root(&context);
    assert!(second.can_enter(&isolate.annex));
    let (second_scope, _) = second.enter(&mut isolate.annex);
    assert_eq!(second_scope.get_effective_scope().cookie, 2);
    assert_eq!(
        second_scope.get_effective_scope().aspects,
        aspects(true, None, None, false)
    );
    assert!(!isolate.annex.is_top(first_scope.get_effective_scope().cookie));
    let mut third = HandleScope::root(&context);
    let (third_scope, hooks) = third.enter(&mut isolate.annex);
    // The context is the active one already.
    assert_eq!(hooks, vec![Hook::ConstructHandleScope(112)]);
    assert_eq!(
        third_scope.get_effective_scope(),
        Scope { cookie: 3, aspects: aspects(true, Some(3), None, false) }
    );
    third.exit(&mut isolate.annex);
    second.exit(&mut isolate.annex);
    assert!(isolate.annex.is_top(first_scope.get_effective_scope().cookie));
}

#[test]
fn what_handles_allow() {
    let mut isolate = Isolate::new(4096);
    let context = Context::new(1);

    let mut bare = HandleScope::root(&isolate);
    let (bare_scope, _) = bare.enter(&mut isolate.annex);
    assert!(can_open(&bare_scope, ScopeKind::ContextScope));
    assert!(!can_open(&bare_scope, ScopeKind::HandleScope));
    assert!(!can_open(&bare_scope, ScopeKind::EscapableHandleScope));
    assert!(!can_open(&bare_scope, ScopeKind::TryCatch));

    let mut entered = ContextScope::new(&bare_scope, &context);
    let (context_scope, hooks) = entered.enter(&mut isolate.annex);
    assert_eq!(hooks, vec![Hook::EnterContext(context)]);
    assert_eq!(
        context_scope.get_effective_scope().aspects,
        aspects(true, Some(1), None, false)
    );
    assert!(can_open(&context_scope, ScopeKind::HandleScope));
    assert!(can_open(&context_scope, ScopeKind::EscapableHandleScope));
    assert!(can_open(&context_scope, ScopeKind::TryCatch));

    // Values made through the context scope belong to the handle scope below.
    let local: Local<Value> = Local::new(&context_scope, &isolate.annex, 64).unwrap();
    assert_eq!(local.get_scope(), 1);
    let null: Option<Local<Value>> = Local::new(&context_scope, &isolate.annex, 0);
    assert!(null.is_none());

    let mut escapable = EscapableHandleScope::new(&context_scope);
    let (escapable_scope, _) = escapable.enter(&mut isolate.annex);
    assert_eq!(
        escapable_scope.get_effective_scope().aspects,
        aspects(true, Some(3), Some(1), false)
    );

    // A handle scope inside lets values escape to the same scope.
    let mut nested = HandleScope::new(&escapable_scope);
    let (nested_scope, _) = nested.enter(&mut isolate.annex);
    assert_eq!(
        nested_scope.get_effective_scope().aspects,
        aspects(true, Some(4), Some(1), false)
    );
    assert!(can_escape(&nested_scope, &isolate.annex));
    assert!(!can_escape(&escapable_scope, &isolate.annex));
    let local: Local<Value> = Local::new(&nested_scope, &isolate.annex, 72).unwrap();
    assert_eq!(local.get_scope(), 4);
    let escaped = local.escape(&nested_scope, &mut isolate.annex);
    assert_eq!(escaped.get_scope(), 1);
    nested.exit(&mut isolate.annex);
    // The slot was used from the inner scope; the outer one finds it gone.
    assert!(!can_escape(&escapable_scope, &isolate.annex));

    let mut try_catch = TryCatch::new(&escapable_scope);
    let (tc_scope, _) = try_catch.enter(&mut isolate.annex);
    assert_eq!(
        tc_scope.get_effective_scope().aspects,
        aspects(true, Some(3), Some(1), true)
    );
    assert!(!can_open(&tc_scope, ScopeKind::TryCatch));
    assert!(can_open(&tc_scope, ScopeKind::HandleScope));
    assert!(can_open(&tc_scope, ScopeKind::EscapableHandleScope));
    assert!(can_open(&tc_scope, ScopeKind::ContextScope));
}

#[test]
fn a_scope_without_an_escape_slot_lets_nothing_escape() {
    let mut isolate = Isolate::new(4096);
    let context = Context::new(1);
    let mut root = HandleScope::root(&context);
    let (root_scope, _) = root.enter(&mut isolate.annex);
    assert!(!can_escape(&root_scope, &isolate.annex));
    assert_eq!(isolate.get_annex().top_cookie(), 1);
}
