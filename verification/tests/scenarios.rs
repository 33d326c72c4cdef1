use scope_stack::aspect::Hook;
use scope_stack::effective_scope::Kind;
use scope_stack::effective_scope::Slot;
use scope_stack::frame::Frame;
use scope_stack::raw::Address;
use scope_stack::runtime::can_escape;
use scope_stack::scope::can_open;
use scope_stack::scope::ScopeKind;
use scope_stack::Context;
use scope_stack::ContextScope;
use scope_stack::EscapableHandleScope;
use scope_stack::GetEffectiveScope;
use scope_stack::HandleScope;
use scope_stack::Integer;
use scope_stack::Isolate;
use scope_stack::Local;

#[test]
fn shadowed_parent_is_refused_until_child_is_dropped() {
    let mut isolate = Isolate::new(4096);
    let context = Context::new(0x1000);

    let mut outer = HandleScope::root(&context);
    assert!(outer.can_enter(&isolate.annex));
    let (outer_scope, _) = outer.enter(&mut isolate.annex);
    assert_eq!(outer_scope.get_effective_scope().cookie, 1);
    assert!(isolate.annex.is_top(1));

    assert!(can_open(&outer_scope, ScopeKind::HandleScope));
    let mut inner = HandleScope::new(&outer_scope);
    assert!(inner.can_enter(&isolate.annex));
    let (inner_scope, _) = inner.enter(&mut isolate.annex);
    assert_eq!(inner_scope.get_effective_scope().cookie, 2);

    // Every access through the outer scope is refused while the inner one lives.
    assert!(!isolate.annex.is_top(outer_scope.get_effective_scope().cookie));
    assert!(!outer.is_top(&isolate.annex));
    assert!(!outer.can_exit(&isolate.annex));
    assert!(!can_escape(&outer_scope, &isolate.annex));
    let mut sibling = HandleScope::new(&outer_scope);
    assert!(!sibling.can_enter(&isolate.annex));

    // The same access through the inner scope is granted.
    assert!(isolate.annex.is_top(inner_scope.get_effective_scope().cookie));
    assert_eq!(isolate.annex.get(2, Kind::HandleScope), Slot::At(80));

    assert!(inner.can_exit(&isolate.annex));
    inner.exit(&mut isolate.annex);
    assert!(isolate.annex.is_top(outer_scope.get_effective_scope().cookie));
    assert!(outer.is_top(&isolate.annex));
    assert_eq!(isolate.annex.get(1, Kind::HandleScope), Slot::At(32));
    assert!(sibling.can_enter(&isolate.annex));
    let (sibling_scope, _) = sibling.enter(&mut isolate.annex);
    assert_eq!(sibling_scope.get_effective_scope().cookie, 2);
}

#[test]
fn only_one_value_can_escape() {
    let mut isolate = Isolate::new(4096);
    let context = Context::new(0x1000);
    let mut root = HandleScope::root(&context);
    let (root_scope, _) = root.enter(&mut isolate.annex);

    assert!(can_open(&root_scope, ScopeKind::EscapableHandleScope));
    let mut escapable = EscapableHandleScope::new(&root_scope);
    let frames_before = isolate.annex.frame_count();
    let (scope, hooks) = escapable.enter(&mut isolate.annex);
    assert_eq!(isolate.annex.frame_count(), frames_before + 2);
    assert_eq!(hooks, vec![Hook::ConstructHandleScope(112)]);
    assert_eq!(isolate.annex.get(2, Kind::EscapeSlot), Slot::At(80));
    assert_eq!(isolate.annex.get(2, Kind::HandleScope), Slot::At(112));
    assert_eq!(scope.get_effective_scope().aspects.handles, Some(2));
    assert_eq!(scope.get_effective_scope().aspects.escape, Some(1));

    let local: Local<Integer> = Local::new(&scope, &isolate.annex, 0xbeef).unwrap();
    assert_eq!(local.get_scope(), 2);
    assert_eq!(local.get_raw(), Address(0xbeef));

    assert!(can_escape(&scope, &isolate.annex));
    let escaped = local.escape(&scope, &mut isolate.annex);
    assert_eq!(escaped.get_scope(), 1);
    assert_eq!(escaped.get_raw(), Address(0xbeef));
    assert_eq!(isolate.annex.get(2, Kind::EscapeSlot), Slot::Empty);

    // A second value finds no slot.
    let second: Local<Integer> = Local::new(&scope, &isolate.annex, 0xcafe).unwrap();
    assert!(!can_escape(&scope, &isolate.annex));
    assert!(!isolate.annex.can_escape());
    assert_eq!(second.get_scope(), 2);

    // The value sits in the cell below the handle scope that it left.
    assert_eq!(isolate.annex.pop(), Some(Hook::DestructHandleScope(112)));
    match isolate.annex.peek() {
        Frame::EscapeSlot(slot) => {
            assert_eq!(slot.cell, Address(0xbeef));
            assert_eq!(slot.prior, Slot::Empty);
        }
        other => panic!("unexpected frame {:?}", other),
    }
}

#[test]
fn a_fresh_escapable_scope_brings_a_fresh_slot() {
    let mut isolate = Isolate::new(4096);
    let context = Context::new(7);
    let mut root = HandleScope::root(&context);
    let (root_scope, _) = root.enter(&mut isolate.annex);

    let mut first = EscapableHandleScope::new(&root_scope);
    let (first_scope, _) = first.enter(&mut isolate.annex);
    let local: Local<Integer> = Local::new(&first_scope, &isolate.annex, 11).unwrap();
    local.escape(&first_scope, &mut isolate.annex);
    assert!(!can_escape(&first_scope, &isolate.annex));
    first.exit(&mut isolate.annex);
    assert_eq!(isolate.annex.get(1, Kind::EscapeSlot), Slot::Empty);

    let mut second = EscapableHandleScope::new(&root_scope);
    let (second_scope, _) = second.enter(&mut isolate.annex);
    assert!(can_escape(&second_scope, &isolate.annex));
    let local: Local<Integer> = Local::new(&second_scope, &isolate.annex, 12).unwrap();
    let escaped = local.escape(&second_scope, &mut isolate.annex);
    assert_eq!(escaped.get_scope(), 1);
}

#[test]
fn frames_beyond_the_capacity_are_refused() {
    // Room for a context frame (32 bytes) and a handle scope frame (48 bytes),
    // and for nothing more.
    let mut isolate = Isolate::new(100);
    assert_eq!(isolate.annex.capacity(), 100);
    let context = Context::new(1);

    let mut root = HandleScope::root(&context);
    assert!(root.can_enter(&isolate.annex));
    let (root_scope, _) = root.enter(&mut isolate.annex);
    assert_eq!(isolate.annex.len(), 80);

    assert!(isolate.annex.fits(20));
    assert!(!isolate.annex.fits(21));
    let mut child = HandleScope::new(&root_scope);
    assert!(!child.can_enter(&isolate.annex));
    assert_eq!(isolate.annex.len(), 80);
    assert_eq!(isolate.annex.capacity(), 100);
    assert_eq!(isolate.annex.frame_count(), 2);

    // Once the frames are gone there is room again.
    root.exit(&mut isolate.annex);
    assert_eq!(isolate.annex.len(), 0);
    let mut again = HandleScope::root(&isolate);
    assert!(again.can_enter(&isolate.annex));
}

#[test]
fn exact_fit_is_accepted() {
    let mut isolate = Isolate::new(80);
    let context = Context::new(1);
    let mut root = HandleScope::root(&context);
    assert!(root.can_enter(&isolate.annex));
    root.enter(&mut isolate.annex);
    assert_eq!(isolate.annex.len(), 80);
    assert!(isolate.annex.fits(0));
    assert!(!isolate.annex.fits(1));

    let mut small = Isolate::new(79);
    let mut refused = HandleScope::root(&context);
    assert!(!refused.can_enter(&small.annex));
    let mut bare = HandleScope::root(&small);
    assert!(bare.can_enter(&small.annex));
    bare.enter(&mut small.annex);
    assert_eq!(small.annex.len(), 48);
}

#[test]
fn entering_the_active_context_again_calls_no_hook() {
    let mut isolate = Isolate::new(4096);
    let context = Context::new(0x10);
    let other = Context::new(0x20);

    let mut root = HandleScope::root(&context);
    let (root_scope, hooks) = root.enter(&mut isolate.annex);
    assert_eq!(hooks, vec![Hook::EnterContext(context), Hook::ConstructHandleScope(32)]);
    assert_eq!(isolate.annex.get(1, Kind::Context), Slot::At(0x10));

    // The same context: neither entered nor left.
    let mut same = ContextScope::new(&root_scope, &context);
    let (same_scope, hooks) = same.enter(&mut isolate.annex);
    assert_eq!(hooks, vec![]);
    assert_eq!(same_scope.get_effective_scope().cookie, 2);
    assert_eq!(isolate.annex.get(2, Kind::Context), Slot::At(0x10));
    let hooks = same.exit(&mut isolate.annex);
    assert_eq!(hooks, vec![]);
    assert_eq!(isolate.annex.get(1, Kind::Context), Slot::At(0x10));

    // Another context: entered, and left again on exit.
    let mut different = ContextScope::new(&root_scope, &other);
    let (_, hooks) = different.enter(&mut isolate.annex);
    assert_eq!(hooks, vec![Hook::EnterContext(other)]);
    assert_eq!(isolate.annex.get(2, Kind::Context), Slot::At(0x20));
    let hooks = different.exit(&mut isolate.annex);
    assert_eq!(hooks, vec![Hook::ExitContext(other)]);
    assert_eq!(isolate.annex.get(1, Kind::Context), Slot::At(0x10));

    let hooks = root.exit(&mut isolate.annex);
    assert_eq!(hooks, vec![Hook::DestructHandleScope(32), Hook::ExitContext(context)]);
    assert_eq!(isolate.annex.get(0, Kind::Context), Slot::Current);
}

#[test]
fn the_current_context_is_asked_for_once() {
    let mut isolate = Isolate::new(4096);
    let context = Context::new(0x10);

    let mut root = HandleScope::root(&isolate);
    let (root_scope, hooks) = root.enter(&mut isolate.annex);
    assert_eq!(hooks, vec![Hook::ConstructHandleScope(0)]);
    assert_eq!(root_scope.get_effective_scope().aspects.context, false);

    // Nobody has asked yet.
    assert_eq!(isolate.annex.get(1, Kind::Context), Slot::Current);
    // The first answer is kept, a later one is not.
    assert_eq!(isolate.annex.cache_context(1, Some(context)), Slot::At(0x10));
    assert_eq!(isolate.annex.cache_context(1, Some(Context::new(0x30))), Slot::At(0x10));
    assert_eq!(isolate.annex.cache_context(1, None), Slot::At(0x10));
    assert_eq!(isolate.annex.get(1, Kind::Context), Slot::At(0x10));

    // Entering the context that is known to be current calls no hook.
    let mut scope = ContextScope::new(&root_scope, &context);
    let (_, hooks) = scope.enter(&mut isolate.annex);
    assert_eq!(hooks, vec![]);
    assert_eq!(scope.exit(&mut isolate.annex), vec![]);
    assert_eq!(isolate.annex.get(1, Kind::Context), Slot::At(0x10));
}

#[test]
fn no_current_context_is_an_ordinary_answer() {
    let mut isolate = Isolate::new(4096);
    let mut root = HandleScope::root(&isolate);
    root.enter(&mut isolate.annex);
    assert_eq!(isolate.annex.cache_context(1, None), Slot::Empty);
    assert_eq!(isolate.annex.get(1, Kind::Context), Slot::Empty);
    assert_eq!(isolate.annex.get(1, Kind::EscapeSlot), Slot::Empty);
    assert_eq!(isolate.annex.get(1, Kind::TryCatch), Slot::Empty);
}

#[test]
fn an_unknown_context_is_entered_and_left() {
    let mut isolate = Isolate::new(4096);
    let context = Context::new(0x10);
    let mut scope = ContextScope::root(&context);
    let (_, hooks) = scope.enter(&mut isolate.annex);
    assert_eq!(hooks, vec![Hook::EnterContext(context)]);
    match isolate.annex.peek() {
        Frame::Context(frame) => {
            assert_eq!(frame.context, context);
            assert_eq!(frame.prior, Slot::Current);
        }
        other => panic!("unexpected frame {:?}", other),
    }
    assert_eq!(scope.exit(&mut isolate.annex), vec![Hook::ExitContext(context)]);
    assert_eq!(isolate.annex.get(0, Kind::Context), Slot::Current);
}
