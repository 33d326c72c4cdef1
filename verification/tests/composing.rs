use scope_stack::active::context_scope;
use scope_stack::active::escapable_handle_scope;
use scope_stack::active::handle_scope;
use scope_stack::active::try_catch;
use scope_stack::aspect::Hook;
use scope_stack::effective_scope::Kind;
use scope_stack::effective_scope::Slot;
use scope_stack::scope::Aspects;
use scope_stack::Context;
use scope_stack::ContextScope;
use scope_stack::GetEffectiveScope;
use scope_stack::HandleScope;
use scope_stack::Integer;
use scope_stack::Isolate;
use scope_stack::Local;

#[test]
fn scopes_are_declared_and_entered_at_once() {
    let mut isolate = Isolate::new(4096);
    let context = Context::new(0x10);
    let mut root = HandleScope::root(&context);
    let (root_handle, _) = root.enter(&mut isolate.annex);

    let mut outer = handle_scope(&mut isolate.annex, &root_handle);
    assert_eq!(outer.hooks, vec![Hook::ConstructHandleScope(80)]);
    assert_eq!(outer.handle.get_effective_scope().cookie, 2);
    assert!(outer.scope.is_top(&isolate.annex));
    assert!(!root.is_top(&isolate.annex));

    let mut escapable = escapable_handle_scope(&mut isolate.annex, &outer.handle);
    assert_eq!(escapable.hooks, vec![Hook::ConstructHandleScope(160)]);
    assert_eq!(isolate.annex.get(3, Kind::EscapeSlot), Slot::At(128));
    assert_eq!(
        escapable.handle.get_effective_scope().aspects,
        Aspects { context: true, handles: Some(3), escape: Some(2), try_catch: false }
    );

    let mut guarded = try_catch(&mut isolate.annex, &escapable.handle);
    assert_eq!(guarded.hooks, vec![Hook::ConstructTryCatch(208)]);
    assert_eq!(
        guarded.handle.get_effective_scope().aspects,
        Aspects { context: true, handles: Some(3), escape: Some(2), try_catch: true }
    );

    let other = Context::new(0x20);
    let mut entered = context_scope(&mut isolate.annex, &guarded.handle, &other);
    assert_eq!(entered.hooks, vec![Hook::EnterContext(other)]);
    assert_eq!(entered.handle.get_effective_scope().cookie, 5);
    assert_eq!(
        entered.handle.get_effective_scope().aspects,
        Aspects { context: true, handles: Some(3), escape: Some(2), try_catch: false }
    );
    assert_eq!(isolate.annex.frame_count(), 7);
    assert_eq!(isolate.annex.len(), 32 + 48 + 48 + 32 + 48 + 72 + 32);

    assert_eq!(entered.scope.exit(&mut isolate.annex), vec![Hook::ExitContext(other)]);
    assert_eq!(guarded.scope.exit(&mut isolate.annex), vec![Hook::DestructTryCatch(208)]);
    assert_eq!(
        escapable.scope.exit(&mut isolate.annex),
        vec![Hook::DestructHandleScope(160)]
    );
    assert_eq!(outer.scope.exit(&mut isolate.annex), vec![Hook::DestructHandleScope(80)]);
    assert!(root.is_top(&isolate.annex));
    assert_eq!(isolate.annex.frame_count(), 2);
    assert_eq!(isolate.annex.top_cookie(), 1);
}

#[test]
fn locals_know_whether_their_scope_is_on_the_chain() {
    let mut isolate = Isolate::new(4096);
    let context = Context::new(0x10);
    let mut root = HandleScope::root(&context);
    let (root_handle, _) = root.enter(&mut isolate.annex);
    let kept: Local<Integer> = Local::new(&root_handle, &isolate.annex, 8).unwrap();

    let mut inner = handle_scope(&mut isolate.annex, &root_handle);
    let lost: Local<Integer> = Local::new(&inner.handle, &isolate.annex, 16).unwrap();
    assert!(kept.is_live(&isolate.annex));
    assert!(lost.is_live(&isolate.annex));
    inner.scope.exit(&mut isolate.annex);
    assert!(kept.is_live(&isolate.annex));
    assert!(!lost.is_live(&isolate.annex));
    root.exit(&mut isolate.annex);
    assert!(!kept.is_live(&isolate.annex));
}

#[test]
fn a_walk_through_nested_scopes() {
    let mut isolate = Isolate::new(4096);

    let mut root = HandleScope::root(&isolate);
    let (root_handle, _) = root.enter(&mut isolate.annex);
    let context = Context::new(0x100);
    let mut s0 = ContextScope::root(&context);
    s0.enter(&mut isolate.annex);
    let mut root2 = HandleScope::root(&context);
    let (root2_handle, hooks) = root2.enter(&mut isolate.annex);
    assert_eq!(hooks, vec![Hook::ConstructHandleScope(112)]);
    assert_eq!(root2_handle.get_effective_scope().cookie, 3);

    let mut s1 = handle_scope(&mut isolate.annex, &root2_handle);
    assert_eq!(s1.handle.get_effective_scope().cookie, 4);
    let base_len = isolate.annex.len();
    assert_eq!(base_len, 48 + 32 + 32 + 48 + 48);

    {
        let mut s2 = handle_scope(&mut isolate.annex, &s1.handle);
        assert_eq!(s2.handle.get_effective_scope().cookie, 5);
        s2.scope.exit(&mut isolate.annex);
    }
    {
        let inner_context = Context::new(0x200);
        let mut s2 = context_scope(&mut isolate.annex, &s1.handle, &inner_context);
        assert_eq!(s2.hooks, vec![Hook::EnterContext(inner_context)]);
        let mut s3 = handle_scope(&mut isolate.annex, &s2.handle);
        assert_eq!(s3.handle.get_effective_scope().cookie, 6);
        assert_eq!(isolate.annex.get(6, Kind::Context), Slot::At(0x200));
        s3.scope.exit(&mut isolate.annex);
        s2.scope.exit(&mut isolate.annex);
        assert_eq!(isolate.annex.get(4, Kind::Context), Slot::At(0x100));
    }
    {
        let mut s2 = escapable_handle_scope(&mut isolate.annex, &s1.handle);
        {
            let mut s3 = handle_scope(&mut isolate.annex, &s2.handle);
            assert_eq!(s3.handle.get_effective_scope().aspects.escape, Some(4));
            s3.scope.exit(&mut isolate.annex);
        }
        {
            let mut s3 = try_catch(&mut isolate.annex, &s2.handle);
            assert_eq!(isolate.annex.get(6, Kind::TryCatch), Slot::At(base_len + 80));
            s3.scope.exit(&mut isolate.annex);
        }
        s2.scope.exit(&mut isolate.annex);
    }
    {
        let mut s2 = try_catch(&mut isolate.annex, &s1.handle);
        {
            let mut s3 = handle_scope(&mut isolate.annex, &s2.handle);
            assert_eq!(s3.handle.get_effective_scope().aspects.try_catch, false);
            s3.scope.exit(&mut isolate.annex);
        }
        {
            let mut s3 = escapable_handle_scope(&mut isolate.annex, &s2.handle);
            assert_eq!(s3.handle.get_effective_scope().aspects.escape, Some(4));
            s3.scope.exit(&mut isolate.annex);
        }
        s2.scope.exit(&mut isolate.annex);
    }
    assert_eq!(isolate.annex.len(), base_len);
    assert_eq!(isolate.annex.top_cookie(), 4);

    s1.scope.exit(&mut isolate.annex);
    root2.exit(&mut isolate.annex);
    s0.exit(&mut isolate.annex);
    root.exit(&mut isolate.annex);
    assert_eq!(isolate.annex.len(), 0);
    assert_eq!(isolate.annex.top_cookie(), 0);
    assert_eq!(isolate.annex.get(0, Kind::Context), Slot::Current);
    assert_eq!(root_handle.get_effective_scope().cookie, 1);
}
