use scope_stack::aspect;
use scope_stack::aspect::Hook;
use scope_stack::effective_scope::EffectiveScope;
use scope_stack::effective_scope::Kind;
use scope_stack::effective_scope::Slot;
use scope_stack::frame::kind_byte_len;
use scope_stack::frame::read_top;
use scope_stack::frame::tag_of_kind;
use scope_stack::frame::Frame;
use scope_stack::frame_stack::FrameStack;
use scope_stack::frame_stack::WORD_SIZE;
use scope_stack::raw;
use scope_stack::raw::Address;
use scope_stack::Context;

#[test]
fn frame_stack_appends_and_truncates() {
    let mut stack = FrameStack::new(64);
    assert_eq!(stack.capacity(), 64);
    assert_eq!(stack.len(), 0);
    assert!(stack.fits(64));
    assert!(!stack.fits(65));

    assert_eq!(stack.reserve_and_append(&[10, 11, 12]), 0);
    assert_eq!(stack.len(), 24);
    assert_eq!(stack.reserve_and_append(&[13]), 24);
    assert_eq!(stack.len(), 32);
    assert_eq!(stack.word_at(0), 10);
    assert_eq!(stack.word_at(8), 11);
    assert_eq!(stack.word_at(24), 13);
    assert!(stack.fits(32));
    assert!(!stack.fits(33));

    stack.set_word(8, 99);
    assert_eq!(stack.word_at(8), 99);
    assert_eq!(stack.word_at(0), 10);
    assert_eq!(stack.word_at(16), 12);

    stack.truncate_to(16);
    assert_eq!(stack.len(), 16);
    assert_eq!(stack.capacity(), 64);
    assert_eq!(stack.word_at(8), 99);
    assert_eq!(stack.reserve_and_append(&[]), 16);
    assert_eq!(stack.len(), 16);
    stack.truncate_to(0);
    assert_eq!(stack.len(), 0);
}

#[test]
fn frame_stack_capacity_need_not_be_whole_words() {
    let mut stack = FrameStack::new(15);
    assert!(stack.fits(8));
    assert_eq!(stack.reserve_and_append(&[1]), 0);
    assert!(!stack.fits(8));
    assert!(stack.fits(7));
    assert_eq!(WORD_SIZE, 8);
}

#[test]
fn frame_lengths_by_kind() {
    assert_eq!(kind_byte_len(Kind::Context), 32);
    assert_eq!(kind_byte_len(Kind::HandleScope), 48);
    assert_eq!(kind_byte_len(Kind::EscapeSlot), 32);
    assert_eq!(kind_byte_len(Kind::TryCatch), 72);
    assert_eq!(Frame::Context(aspect::Context::new(&Context::new(1))).byte_len(), 32);
    assert_eq!(Frame::HandleScope(aspect::HandleScope::new()).byte_len(), 48);
    assert_eq!(Frame::EscapeSlot(aspect::EscapeSlot::new()).byte_len(), 32);
    assert_eq!(Frame::TryCatch(aspect::TryCatch::new()).byte_len(), 72);
    assert_eq!(Frame::TryCatch(aspect::TryCatch::new()).kind(), Kind::TryCatch);
    assert_eq!(Frame::EscapeSlot(aspect::EscapeSlot::new()).kind(), Kind::EscapeSlot);
}

#[test]
fn kind_tags() {
    assert_eq!(tag_of_kind(Kind::Context), 1);
    assert_eq!(tag_of_kind(Kind::HandleScope), 2);
    assert_eq!(tag_of_kind(Kind::EscapeSlot), 3);
    assert_eq!(tag_of_kind(Kind::TryCatch), 4);
}

#[test]
fn frames_are_encoded_storage_first_kind_last() {
    let context = Frame::Context(aspect::Context {
        context: Context::new(0x77),
        prior: Slot::Current,
    });
    assert_eq!(context.encode(), vec![0x77, 1, 0, 1]);

    let handles = Frame::HandleScope(aspect::HandleScope {
        raw: raw::HandleScope([5, 6, 7]),
        prior: Slot::At(48),
    });
    assert_eq!(handles.encode(), vec![5, 6, 7, 2, 48, 2]);

    let slot = Frame::EscapeSlot(aspect::EscapeSlot { cell: Address(0), prior: Slot::Empty });
    assert_eq!(slot.encode(), vec![0, 0, 0, 3]);

    let try_catch = Frame::TryCatch(aspect::TryCatch {
        raw: raw::TryCatch([1, 2, 3, 4, 5, 6]),
        prior: Slot::At(0),
    });
    assert_eq!(try_catch.encode(), vec![1, 2, 3, 4, 5, 6, 2, 0, 4]);
}

#[test]
fn the_top_frame_is_read_back_as_it_was_written() {
    let mut stack = FrameStack::new(512);
    let below = Frame::EscapeSlot(aspect::EscapeSlot { cell: Address(9), prior: Slot::Empty });
    let top = Frame::TryCatch(aspect::TryCatch {
        raw: raw::TryCatch([1, 2, 3, 4, 5, 6]),
        prior: Slot::At(64),
    });
    stack.reserve_and_append(&below.encode());
    stack.reserve_and_append(&top.encode());
    assert_eq!(stack.len(), 104);
    match read_top(&stack) {
        Frame::TryCatch(frame) => {
            assert_eq!(frame.raw.0, [1, 2, 3, 4, 5, 6]);
            assert_eq!(frame.prior, Slot::At(64));
        }
        other => panic!("unexpected frame {:?}", other),
    }
    stack.truncate_to(32);
    match read_top(&stack) {
        Frame::EscapeSlot(frame) => {
            assert_eq!(frame.cell, Address(9));
            assert_eq!(frame.prior, Slot::Empty);
        }
        other => panic!("unexpected frame {:?}", other),
    }

    let mut stack = FrameStack::new(512);
    let handles = Frame::HandleScope(aspect::HandleScope {
        raw: raw::HandleScope([5, 6, 7]),
        prior: Slot::Current,
    });
    stack.reserve_and_append(&handles.encode());
    match read_top(&stack) {
        Frame::HandleScope(frame) => {
            assert_eq!(frame.raw.0, [5, 6, 7]);
            assert_eq!(frame.prior, Slot::Current);
        }
        other => panic!("unexpected frame {:?}", other),
    }
}

#[test]
fn fresh_frames_hold_zeroed_storage() {
    assert_eq!(aspect::HandleScope::new().raw.0, [0, 0, 0]);
    assert_eq!(aspect::HandleScope::new().prior, Slot::Empty);
    assert_eq!(aspect::TryCatch::new().raw.0, [0, 0, 0, 0, 0, 0]);
    assert_eq!(aspect::EscapeSlot::new().cell, Address(0));
    assert_eq!(aspect::Context::new(&Context::new(3)).context, Context::new(3));
    assert_eq!(raw::HandleScope::zeroed().0, [0, 0, 0]);
    assert_eq!(raw::TryCatch::zeroed().0, [0, 0, 0, 0, 0, 0]);
}

#[test]
fn the_table_replaces_one_entry() {
    let mut table = EffectiveScope::new();
    assert_eq!(table.get(Kind::Context), Slot::Current);
    assert_eq!(table.get(Kind::HandleScope), Slot::Empty);
    assert_eq!(table.get(Kind::EscapeSlot), Slot::Empty);
    assert_eq!(table.get(Kind::TryCatch), Slot::Empty);

    assert_eq!(table.replace(Kind::TryCatch, Slot::At(8)), Slot::Empty);
    assert_eq!(table.replace(Kind::TryCatch, Slot::At(16)), Slot::At(8));
    assert_eq!(table.get(Kind::TryCatch), Slot::At(16));
    assert_eq!(table.get(Kind::HandleScope), Slot::Empty);
    assert_eq!(table.replace(Kind::Context, Slot::Empty), Slot::Current);
    assert_eq!(table.replace(Kind::HandleScope, Slot::At(1)), Slot::Empty);
    assert_eq!(table.replace(Kind::EscapeSlot, Slot::At(2)), Slot::Empty);
    assert_eq!(
        table,
        EffectiveScope {
            context: Slot::Empty,
            handle_scope: Slot::At(1),
            escape_slot: Slot::At(2),
            try_catch: Slot::At(16),
        }
    );
}

#[test]
fn aspects_enter_and_exit_the_table() {
    let mut table = EffectiveScope::new();

    let mut context = aspect::Context::new(&Context::new(4));
    assert_eq!(context.enter(&mut table), Some(Hook::EnterContext(Context::new(4))));
    assert_eq!(context.prior, Slot::Current);
    assert_eq!(table.context, Slot::At(4));
    let mut again = aspect::Context::new(&Context::new(4));
    assert_eq!(again.enter(&mut table), None);
    assert_eq!(again.prior, Slot::At(4));
    assert_eq!(again.exit(&mut table), None);
    assert_eq!(context.exit(&mut table), Some(Hook::ExitContext(Context::new(4))));
    assert_eq!(table.context, Slot::Current);

    let mut handles = aspect::HandleScope::new();
    assert_eq!(handles.enter(&mut table, 40), Some(Hook::ConstructHandleScope(40)));
    assert_eq!(table.handle_scope, Slot::At(40));
    assert_eq!(handles.prior, Slot::Empty);
    assert_eq!(handles.exit(&mut table, 40), Some(Hook::DestructHandleScope(40)));
    assert_eq!(table.handle_scope, Slot::Empty);

    let mut slot = aspect::EscapeSlot::new();
    assert_eq!(slot.enter(&mut table, 24), None);
    assert_eq!(table.escape_slot, Slot::At(24));
    let mut used = aspect::EscapeSlot { cell: Address(5), prior: Slot::Empty };
    assert_eq!(used.enter(&mut table, 56), None);
    assert_eq!(used.prior, Slot::At(24));
    assert_eq!(table.escape_slot, Slot::Empty);
    assert_eq!(used.exit(&mut table), None);
    assert_eq!(table.escape_slot, Slot::At(24));
    assert_eq!(slot.exit(&mut table), None);
    assert_eq!(table.escape_slot, Slot::Empty);

    let mut try_catch = aspect::TryCatch::new();
    assert_eq!(try_catch.enter(&mut table, 72), Some(Hook::ConstructTryCatch(72)));
    assert_eq!(table.try_catch, Slot::At(72));
    assert_eq!(try_catch.exit(&mut table, 72), Some(Hook::DestructTryCatch(72)));
    assert_eq!(table.try_catch, Slot::Empty);
    assert_eq!(table, EffectiveScope::new());

    let mut frame = Frame::TryCatch(aspect::TryCatch::new());
    assert_eq!(frame.enter(&mut table, 16), Some(Hook::ConstructTryCatch(16)));
    assert_eq!(table.get(Kind::TryCatch), Slot::At(16));
    assert_eq!(frame.exit(&mut table, 16), Some(Hook::DestructTryCatch(16)));
    assert_eq!(table, EffectiveScope::new());
}
