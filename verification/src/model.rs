//! The scope store as a mathematical value: the live frames, the table of
//! active resources and the top cookie, with the transitions that the store
//! performs on them.

use vstd::prelude::*;
use crate::aspect::Hook;
use crate::effective_scope::EffectiveScope;
use crate::effective_scope::Kind;
use crate::effective_scope::Slot;
use crate::frame::filled;
use crate::frame::frame_offset;
use crate::frame::total_bytes;
use crate::frame::Frame;

verus! {

/// The table entry for `kind` that a stack of `frames` gives rise to: the
/// entry of the nearest frame of that kind, or `base` if there is none.
pub open spec fn slot_of(frames: Seq<Frame>, kind: Kind, base: Slot) -> Slot
    decreases frames.len(),
{
    if frames.len() == 0 {
        base
    } else if frames.last().spec_kind() == kind {
        frames.last().active(total_bytes(frames.drop_last()) as usize)
    } else {
        slot_of(frames.drop_last(), kind, base)
    }
}

/// The context entry that is in force below all of `frames`: what the lowest
/// context frame displaced, or `fallback` if there is no context frame.
pub open spec fn context_base(frames: Seq<Frame>, fallback: Slot) -> Slot
    decreases frames.len(),
{
    if frames.len() == 0 {
        fallback
    } else if frames.last().spec_kind() == Kind::Context {
        context_base(frames.drop_last(), frames.last().prior())
    } else {
        context_base(frames.drop_last(), fallback)
    }
}

/// The table entry for `kind` that is in force below all frames. Only the
/// context can be set from outside the store.
pub open spec fn base_of(kind: Kind, context: Slot) -> Slot {
    if kind == Kind::Context {
        context
    } else {
        Slot::Empty
    }
}

/// Every frame records as displaced the entry that the frames below it give
/// rise to.
pub open spec fn chain_ok(frames: Seq<Frame>, context: Slot) -> bool
    decreases frames.len(),
{
    frames.len() > 0 ==> {
        &&& chain_ok(frames.drop_last(), context)
        &&& frames.last().prior() == slot_of(
            frames.drop_last(),
            frames.last().spec_kind(),
            base_of(frames.last().spec_kind(), context),
        )
    }
}

/// Abstract state of a scope store.
pub struct StoreModel {
    /// The live frames, bottom first.
    pub frames: Seq<Frame>,
    /// The table of active resources.
    pub active: EffectiveScope,
    /// Cookie of the innermost live scope; 0 while there is none.
    pub top_cookie: u32,
    /// Number of bytes that the frame stack can hold.
    pub capacity: nat,
}

impl StoreModel {
    /// The context entry that is in force below all frames.
    pub open spec fn base_context(self) -> Slot {
        context_base(self.frames, self.active.context)
    }

    /// The table entry for `kind` that the live frames give rise to.
    pub open spec fn nearest(self, kind: Kind) -> Slot {
        slot_of(self.frames, kind, base_of(kind, self.base_context()))
    }

    /// Number of bytes on the frame stack.
    pub open spec fn len(self) -> nat {
        total_bytes(self.frames)
    }

    /// The nesting invariant: every table entry is the one that the nearest
    /// live frame of its kind gives rise to, every frame records the entry
    /// that was in force below it, and the frames fit the stack.
    pub open spec fn wf(self) -> bool {
        &&& chain_ok(self.frames, self.base_context())
        &&& forall|kind: Kind| self.active.slot(kind) == #[trigger] self.nearest(kind)
        &&& self.len() <= self.capacity
        &&& self.capacity <= usize::MAX
    }

    /// The state of a store that was just made.
    pub open spec fn initial(capacity: nat) -> Self {
        StoreModel {
            frames: Seq::empty(),
            active: EffectiveScope::initial(),
            top_cookie: 0,
            capacity,
        }
    }

    /// Whether a scope with `cookie` is the innermost live one, and so may
    /// reach the store's resources.
    pub open spec fn is_top(self, cookie: u32) -> bool {
        cookie == self.top_cookie
    }

    /// Whether `bytes` more bytes fit on the frame stack.
    pub open spec fn fits(self, bytes: nat) -> bool {
        self.len() + bytes <= self.capacity
    }

    /// The frame that pushing `frame` places on the stack: `frame` with the
    /// entry it displaces recorded in it.
    pub open spec fn placed(self, frame: Frame) -> Frame {
        frame.with_prior(self.active.slot(frame.spec_kind()))
    }

    /// The state after `frame` has been pushed.
    pub open spec fn push(self, frame: Frame) -> Self {
        StoreModel {
            frames: self.frames.push(self.placed(frame)),
            active: self.active.with(frame.spec_kind(), frame.active(self.len() as usize)),
            ..self
        }
    }

    /// The call owed to the runtime when `frame` has been pushed.
    pub open spec fn push_hook(self, frame: Frame) -> Option<Hook> {
        frame.enter_hook(self.active.slot(frame.spec_kind()), self.len() as usize)
    }

    /// The state after the topmost frame has been popped.
    pub open spec fn pop(self) -> Self {
        StoreModel {
            frames: self.frames.drop_last(),
            active: self.active.with(self.frames.last().spec_kind(), self.frames.last().prior()),
            ..self
        }
    }

    /// The call owed to the runtime when the topmost frame has been popped.
    pub open spec fn pop_hook(self) -> Option<Hook> {
        self.frames.last().exit_hook(total_bytes(self.frames.drop_last()) as usize)
    }

    /// The state with the top cookie set to `cookie`.
    pub open spec fn with_top(self, cookie: u32) -> Self {
        StoreModel { top_cookie: cookie, ..self }
    }

    /// Whether a value can still escape: the escape slot is active and
    /// vacant.
    pub open spec fn can_escape(self) -> bool {
        self.active.escape_slot is At
    }

    /// The state after `value` has escaped: the active escape slot holds it,
    /// and no escape slot is active any more.
    pub open spec fn escape(self, value: usize) -> Self {
        let index = nearest_index(self.frames, Kind::EscapeSlot)->0;
        StoreModel {
            frames: self.frames.update(index, filled(self.frames[index], value)),
            active: self.active.with(Kind::EscapeSlot, Slot::Empty),
            ..self
        }
    }

    /// The state after the runtime has said which context is current: if the
    /// table was still waiting for that answer it now holds it, else nothing
    /// changes.
    pub open spec fn cache_context(self, current: Slot) -> Self {
        if self.active.context is Current {
            StoreModel { active: self.active.with(Kind::Context, current), ..self }
        } else {
            self
        }
    }

    /// The state after the `count` topmost frames have been popped.
    pub open spec fn pop_n(self, count: nat) -> Self
        decreases count,
    {
        if count == 0 {
            self
        } else {
            self.pop().pop_n((count - 1) as nat)
        }
    }

    /// The calls owed to the runtime when the `count` topmost frames have
    /// been popped, in the order in which the frames leave.
    pub open spec fn pop_n_hooks(self, count: nat) -> Seq<Hook>
        decreases count,
    {
        if count == 0 {
            Seq::empty()
        } else {
            hook_seq(self.pop_hook()) + self.pop().pop_n_hooks((count - 1) as nat)
        }
    }

    /// The state after `frames` have been pushed, first to last.
    pub open spec fn push_all(self, frames: Seq<Frame>) -> Self
        decreases frames.len(),
    {
        if frames.len() == 0 {
            self
        } else {
            self.push(frames.first()).push_all(frames.drop_first())
        }
    }

    /// The calls owed to the runtime when `frames` have been pushed, in the
    /// order in which the frames arrive.
    pub open spec fn push_all_hooks(self, frames: Seq<Frame>) -> Seq<Hook>
        decreases frames.len(),
    {
        if frames.len() == 0 {
            Seq::empty()
        } else {
            hook_seq(self.push_hook(frames.first())) + self.push(frames.first()).push_all_hooks(
                frames.drop_first(),
            )
        }
    }

    /// The state after a scope that owns `frames` has been entered: it has
    /// the next cookie, and its frames are on the stack.
    pub open spec fn enter_scope(self, frames: Seq<Frame>) -> Self {
        self.init_scope().push_all(frames)
    }

    /// The state after a new scope has been opened: the top cookie is one
    /// more than before.
    pub open spec fn init_scope(self) -> Self {
        self.with_top((self.top_cookie + 1) as u32)
    }

    /// The state after the innermost scope, which owns the `frame_count`
    /// topmost frames, has been dropped.
    pub open spec fn drop_scope(self, frame_count: nat) -> Self {
        self.pop_n(frame_count).with_top((self.top_cookie - 1) as u32)
    }
}

/// Position in `frames` of the nearest frame of `kind`, if there is one.
pub open spec fn nearest_index(frames: Seq<Frame>, kind: Kind) -> Option<int>
    decreases frames.len(),
{
    if frames.len() == 0 {
        None
    } else if frames.last().spec_kind() == kind {
        Some(frames.len() - 1)
    } else {
        nearest_index(frames.drop_last(), kind)
    }
}

/// The context entry that stands for the runtime's answer `current`.
pub open spec fn context_slot(current: Option<crate::runtime::Context>) -> Slot {
    match current {
        Some(context) => Slot::At(context.raw),
        None => Slot::Empty,
    }
}

/// The calls that `hook` stands for: one or none.
pub open spec fn hook_seq(hook: Option<Hook>) -> Seq<Hook> {
    match hook {
        Some(h) => seq![h],
        None => Seq::empty(),
    }
}

/// The nesting invariant does not depend on the top cookie.
pub proof fn lemma_with_top_wf(s: StoreModel, cookie: u32)
    requires
        s.wf(),
    ensures
        s.with_top(cookie).wf(),
{
    let t = s.with_top(cookie);
    assert forall|kind: Kind| t.active.slot(kind) == #[trigger] t.nearest(kind) by {
        assert(s.active.slot(kind) == s.nearest(kind));
    }
}

/// The entries of one kind do not depend on a frame of another kind.
pub proof fn lemma_slot_of_push_other(frames: Seq<Frame>, frame: Frame, kind: Kind, base: Slot)
    requires
        frame.spec_kind() != kind,
    ensures
        slot_of(frames.push(frame), kind, base) == slot_of(frames, kind, base),
{
    assert(frames.push(frame).drop_last() =~= frames);
}

/// Pushing a frame keeps the nesting invariant.
pub proof fn lemma_push_wf(s: StoreModel, frame: Frame)
    requires
        s.wf(),
        s.fits(frame.spec_byte_len()),
    ensures
        s.push(frame).wf(),
        s.push(frame).len() == s.len() + frame.spec_byte_len(),
        s.push(frame).base_context() == s.base_context(),
{
    let t = s.push(frame);
    let placed = s.placed(frame);
    let kind = frame.spec_kind();
    assert(t.frames.drop_last() =~= s.frames);
    assert(s.active.slot(kind) == s.nearest(kind));
    assert forall|k: Kind| t.active.slot(k) == #[trigger] t.nearest(k) by {
        if k != kind {
            lemma_slot_of_push_other(s.frames, placed, k, base_of(k, s.base_context()));
            assert(s.active.slot(k) == s.nearest(k));
        }
    }
}

/// Popping a frame keeps the nesting invariant.
pub proof fn lemma_pop_wf(s: StoreModel)
    requires
        s.wf(),
        s.frames.len() > 0,
    ensures
        s.pop().wf(),
        s.pop().len() + s.frames.last().spec_byte_len() == s.len(),
        s.pop().base_context() == s.base_context(),
{
    let t = s.pop();
    let top = s.frames.last();
    let kind = top.spec_kind();
    assert forall|k: Kind| t.active.slot(k) == #[trigger] t.nearest(k) by {
        if k != kind {
            assert(s.active.slot(k) == s.nearest(k));
        }
    }
}

/// Popping undoes pushing: the frames, the table and the cookie are again
/// what they were before the push.
pub proof fn lemma_pop_undoes_push(s: StoreModel, frame: Frame)
    ensures
        s.push(frame).pop() == s,
        s.push(frame).pop_hook() == s.placed(frame).exit_hook(s.len() as usize),
{
    assert(s.push(frame).frames.drop_last() =~= s.frames);
}

/// Where an entry names a frame, that frame is the nearest of its kind, and
/// the entry holds its offset.
pub proof fn lemma_nearest_index(frames: Seq<Frame>, kind: Kind, offset: usize)
    requires
        kind != Kind::Context,
        slot_of(frames, kind, Slot::Empty) == Slot::At(offset),
        total_bytes(frames) <= usize::MAX,
    ensures
        nearest_index(frames, kind) is Some,
        0 <= nearest_index(frames, kind)->0 < frames.len(),
        frames[nearest_index(frames, kind)->0].spec_kind() == kind,
        frames[nearest_index(frames, kind)->0].active(offset) == Slot::At(offset),
        offset == frame_offset(frames, nearest_index(frames, kind)->0),
        forall|i: int|
            nearest_index(frames, kind)->0 < i < frames.len() ==> (#[trigger] frames[i]).spec_kind()
                != kind,
    decreases frames.len(),
{
    if frames.len() > 0 && frames.last().spec_kind() != kind {
        let below = frames.drop_last();
        lemma_nearest_index(below, kind, offset);
        let j = nearest_index(below, kind)->0;
        assert(below.take(j) =~= frames.take(j));
        assert forall|i: int| j < i < frames.len() implies (#[trigger] frames[i]).spec_kind()
            != kind by {
            if i < below.len() {
                assert(below[i] == frames[i]);
            }
        }
    }
}

/// Filling the cell of an escape slot moves no frame.
pub proof fn lemma_filled_total_bytes(frames: Seq<Frame>, index: int, value: usize)
    requires
        0 <= index < frames.len(),
    ensures
        total_bytes(frames.update(index, filled(frames[index], value))) == total_bytes(frames),
    decreases frames.len(),
{
    let after = frames.update(index, filled(frames[index], value));
    if index == frames.len() - 1 {
        assert(after.drop_last() =~= frames.drop_last());
    } else {
        assert(after.drop_last() =~= frames.drop_last().update(
            index,
            filled(frames.drop_last()[index], value),
        ));
        lemma_filled_total_bytes(frames.drop_last(), index, value);
    }
}

/// Filling the cell of an escape slot changes no entry of another kind.
pub proof fn lemma_filled_slot_of_other(
    frames: Seq<Frame>,
    index: int,
    value: usize,
    kind: Kind,
    base: Slot,
)
    requires
        0 <= index < frames.len(),
        frames[index].spec_kind() != kind,
    ensures
        slot_of(frames.update(index, filled(frames[index], value)), kind, base) == slot_of(
            frames,
            kind,
            base,
        ),
    decreases frames.len(),
{
    let after = frames.update(index, filled(frames[index], value));
    if index == frames.len() - 1 {
        assert(after.drop_last() =~= frames.drop_last());
    } else {
        assert(after.drop_last() =~= frames.drop_last().update(
            index,
            filled(frames.drop_last()[index], value),
        ));
        lemma_filled_total_bytes(frames.drop_last(), index, value);
        lemma_filled_slot_of_other(frames.drop_last(), index, value, kind, base);
    }
}

/// Filling the cell of an escape slot leaves the context below all frames
/// as it was.
pub proof fn lemma_filled_context_base(
    frames: Seq<Frame>,
    index: int,
    value: usize,
    fallback: Slot,
)
    requires
        0 <= index < frames.len(),
    ensures
        context_base(frames.update(index, filled(frames[index], value)), fallback) == context_base(
            frames,
            fallback,
        ),
    decreases frames.len(),
{
    let after = frames.update(index, filled(frames[index], value));
    if index == frames.len() - 1 {
        assert(after.drop_last() =~= frames.drop_last());
    } else {
        assert(after.drop_last() =~= frames.drop_last().update(
            index,
            filled(frames.drop_last()[index], value),
        ));
        lemma_filled_context_base(frames.drop_last(), index, value, frames.last().prior());
        lemma_filled_context_base(frames.drop_last(), index, value, fallback);
    }
}

/// Filling the cell of the nearest escape slot keeps every frame's record
/// of what it displaced true, and leaves no escape slot active.
pub proof fn lemma_filled_chain(frames: Seq<Frame>, index: int, value: usize, context: Slot)
    requires
        0 <= index < frames.len(),
        frames[index].spec_kind() == Kind::EscapeSlot,
        forall|i: int| index < i < frames.len() ==> (#[trigger] frames[i]).spec_kind()
            != Kind::EscapeSlot,
        chain_ok(frames, context),
        value != 0,
    ensures
        chain_ok(frames.update(index, filled(frames[index], value)), context),
        slot_of(frames.update(index, filled(frames[index], value)), Kind::EscapeSlot, Slot::Empty)
            == Slot::Empty,
    decreases frames.len(),
{
    let after = frames.update(index, filled(frames[index], value));
    if index == frames.len() - 1 {
        assert(after.drop_last() =~= frames.drop_last());
    } else {
        assert(after.drop_last() =~= frames.drop_last().update(
            index,
            filled(frames.drop_last()[index], value),
        ));
        let kind = frames.last().spec_kind();
        lemma_filled_chain(frames.drop_last(), index, value, context);
        lemma_filled_slot_of_other(
            frames.drop_last(),
            index,
            value,
            kind,
            base_of(kind, context),
        );
    }
}

/// Letting a value escape keeps the nesting invariant and moves no frame.
pub proof fn lemma_escape_wf(s: StoreModel, value: usize)
    requires
        s.wf(),
        s.can_escape(),
        value != 0,
    ensures
        s.escape(value).wf(),
        s.escape(value).len() == s.len(),
        !s.escape(value).can_escape(),
        nearest_index(s.frames, Kind::EscapeSlot) is Some,
        0 <= nearest_index(s.frames, Kind::EscapeSlot)->0 < s.frames.len(),
        s.frames[nearest_index(s.frames, Kind::EscapeSlot)->0] is EscapeSlot,
        s.active.escape_slot matches Slot::At(offset) && offset == frame_offset(
            s.frames,
            nearest_index(s.frames, Kind::EscapeSlot)->0,
        ),
{
    let t = s.escape(value);
    let offset = s.active.escape_slot->At_0;
    assert(s.active.slot(Kind::EscapeSlot) == s.nearest(Kind::EscapeSlot));
    lemma_nearest_index(s.frames, Kind::EscapeSlot, offset);
    let index = nearest_index(s.frames, Kind::EscapeSlot)->0;
    lemma_filled_total_bytes(s.frames, index, value);
    lemma_filled_context_base(s.frames, index, value, s.active.context);
    lemma_filled_chain(s.frames, index, value, s.base_context());
    assert forall|k: Kind| t.active.slot(k) == #[trigger] t.nearest(k) by {
        if k != Kind::EscapeSlot {
            lemma_filled_slot_of_other(s.frames, index, value, k, base_of(k, s.base_context()));
            assert(s.active.slot(k) == s.nearest(k));
        }
    }
}

/// While the context entry does not name a context, no context frame is
/// live.
pub proof fn lemma_no_context_frame(frames: Seq<Frame>, base: Slot)
    requires
        !(slot_of(frames, Kind::Context, base) is At),
    ensures
        forall|i: int| 0 <= i < frames.len() ==> (#[trigger] frames[i]).spec_kind() != Kind::Context,
        slot_of(frames, Kind::Context, base) == base,
    decreases frames.len(),
{
    if frames.len() > 0 {
        let below = frames.drop_last();
        lemma_no_context_frame(below, base);
        assert forall|i: int| 0 <= i < frames.len() implies (#[trigger] frames[i]).spec_kind()
            != Kind::Context by {
            if i < below.len() {
                assert(below[i] == frames[i]);
            }
        }
    }
}

/// Without a context frame, the context below all frames is the fallback,
/// and the frames' records do not depend on it.
pub proof fn lemma_context_free(frames: Seq<Frame>, context: Slot, other: Slot)
    requires
        forall|i: int| 0 <= i < frames.len() ==> (#[trigger] frames[i]).spec_kind() != Kind::Context,
    ensures
        context_base(frames, context) == context,
        slot_of(frames, Kind::Context, context) == context,
        chain_ok(frames, context) == chain_ok(frames, other),
        forall|kind: Kind|
            kind != Kind::Context ==> #[trigger] slot_of(frames, kind, base_of(kind, context))
                == slot_of(frames, kind, base_of(kind, other)),
    decreases frames.len(),
{
    if frames.len() > 0 {
        assert forall|i: int| 0 <= i < frames.drop_last().len() implies (
        #[trigger] frames.drop_last()[i]).spec_kind() != Kind::Context by {
        }
        lemma_context_free(frames.drop_last(), context, other);
    }
}

/// Recording the runtime's current context keeps the nesting invariant.
pub proof fn lemma_cache_context_wf(s: StoreModel, current: Slot)
    requires
        s.wf(),
    ensures
        s.cache_context(current).wf(),
{
    if s.active.context is Current {
        let t = s.cache_context(current);
        assert(s.active.slot(Kind::Context) == s.nearest(Kind::Context));
        lemma_no_context_frame(s.frames, s.base_context());
        lemma_context_free(s.frames, s.active.context, current);
        lemma_context_free(s.frames, current, s.active.context);
        assert forall|k: Kind| t.active.slot(k) == #[trigger] t.nearest(k) by {
            if k != Kind::Context {
                assert(s.active.slot(k) == s.nearest(k));
            }
        }
    }
}

/// Pushing several frames keeps the nesting invariant and adds their
/// lengths to the stack's.
pub proof fn lemma_push_all_wf(s: StoreModel, frames: Seq<Frame>)
    requires
        s.wf(),
        s.fits(total_bytes(frames)),
    ensures
        s.push_all(frames).wf(),
        s.push_all(frames).len() == s.len() + total_bytes(frames),
        s.push_all(frames).frames.len() == s.frames.len() + frames.len(),
        s.push_all(frames).top_cookie == s.top_cookie,
        s.push_all(frames).capacity == s.capacity,
    decreases frames.len(),
{
    if frames.len() > 0 {
        crate::frame::lemma_total_bytes_first(frames);
        lemma_push_wf(s, frames.first());
        lemma_push_all_wf(s.push(frames.first()), frames.drop_first());
    }
}

/// Popping one frame more is popping one frame after the others.
pub proof fn lemma_pop_n_last(s: StoreModel, count: nat)
    ensures
        s.pop_n(count + 1) == s.pop_n(count).pop(),
    decreases count,
{
    if count > 0 {
        lemma_pop_n_last(s.pop(), (count - 1) as nat);
    } else {
        assert(s.pop().pop_n(0) == s.pop());
    }
}

/// Popping as many frames as were pushed undoes the pushes.
pub proof fn lemma_pop_n_undoes_push_all(s: StoreModel, frames: Seq<Frame>)
    ensures
        s.push_all(frames).pop_n(frames.len()) == s,
    decreases frames.len(),
{
    if frames.len() > 0 {
        let first = frames.first();
        let rest = frames.drop_first();
        lemma_pop_n_undoes_push_all(s.push(first), rest);
        lemma_pop_n_last(s.push_all(frames), rest.len());
        lemma_pop_undoes_push(s, first);
    }
}

/// Pushing a run of one frame is pushing that frame.
pub proof fn lemma_push_all_one(s: StoreModel, frame: Frame)
    ensures
        s.push_all(seq![frame]) == s.push(frame),
        s.push_all_hooks(seq![frame]) == hook_seq(s.push_hook(frame)),
{
    let frames = seq![frame];
    assert(frames.drop_first() =~= Seq::<Frame>::empty());
    assert(s.push(frame).push_all_hooks(Seq::<Frame>::empty()) == Seq::<Hook>::empty());
    assert(s.push_all(frames) == s.push(frame).push_all(frames.drop_first()));
}

/// Pushing a run of two frames is pushing the first and then the second.
pub proof fn lemma_push_all_two(s: StoreModel, first: Frame, second: Frame)
    ensures
        s.push_all(seq![first, second]) == s.push(first).push(second),
        s.push_all_hooks(seq![first, second]) == hook_seq(s.push_hook(first)) + hook_seq(
            s.push(first).push_hook(second),
        ),
{
    let frames = seq![first, second];
    assert(frames.drop_first() =~= seq![second]);
    lemma_push_all_one(s.push(first), second);
}

} // verus!
