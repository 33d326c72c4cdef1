//! What holds of every scope store, stated over its mathematical value.

use vstd::prelude::*;
use crate::effective_scope::Kind;
use crate::effective_scope::Slot;
use crate::frame::frame_offset;
use crate::frame::total_bytes;
use crate::frame::Frame;
use crate::model::base_of;
use crate::model::lemma_cache_context_wf;
use crate::model::lemma_escape_wf;
use crate::model::lemma_pop_n_undoes_push_all;
use crate::model::lemma_pop_wf;
use crate::model::lemma_push_wf;
use crate::model::lemma_with_top_wf;
use crate::model::nearest_index;
use crate::model::slot_of;
use crate::model::StoreModel;
use crate::scope::compose_spec;
use crate::scope::Aspects;
use crate::scope::ScopeKind;

verus! {

/// One transition of a scope store.
pub enum Step {
    /// A scope is opened: the top cookie goes up by one.
    InitScope,
    /// A frame is pushed.
    Push(Frame),
    /// The topmost frame is popped.
    Pop,
    /// The innermost scope, owning this many frames, is dropped.
    DropScope(nat),
    /// This value escapes through the active escape slot.
    Escape(usize),
    /// The runtime's current context is recorded.
    CacheContext(Slot),
}

/// Whether the store may take `step` in the state `s`.
pub open spec fn allowed(s: StoreModel, step: Step) -> bool {
    match step {
        Step::InitScope => s.top_cookie < u32::MAX,
        Step::Push(frame) => s.fits(frame.spec_byte_len()),
        Step::Pop => s.frames.len() > 0,
        Step::DropScope(count) => s.top_cookie > 0 && count <= s.frames.len(),
        Step::Escape(value) => s.can_escape() && value != 0,
        Step::CacheContext(_) => true,
    }
}

/// The state after the store has taken `step` in the state `s`.
pub open spec fn apply(s: StoreModel, step: Step) -> StoreModel {
    match step {
        Step::InitScope => s.init_scope(),
        Step::Push(frame) => s.push(frame),
        Step::Pop => s.pop(),
        Step::DropScope(count) => s.drop_scope(count),
        Step::Escape(value) => s.escape(value),
        Step::CacheContext(current) => s.cache_context(current),
    }
}

/// Whether the store may take `steps` one after another from the state `s`.
pub open spec fn all_allowed(s: StoreModel, steps: Seq<Step>) -> bool
    decreases steps.len(),
{
    steps.len() > 0 ==> allowed(s, steps.first()) && all_allowed(
        apply(s, steps.first()),
        steps.drop_first(),
    )
}

/// The state after the store has taken `steps` one after another from the
/// state `s`.
pub open spec fn run(s: StoreModel, steps: Seq<Step>) -> StoreModel
    decreases steps.len(),
{
    if steps.len() == 0 {
        s
    } else {
        run(apply(s, steps.first()), steps.drop_first())
    }
}

/// Popping several frames keeps the nesting invariant and removes exactly
/// those frames.
pub proof fn lemma_pop_n_wf(s: StoreModel, count: nat)
    requires
        s.wf(),
        count <= s.frames.len(),
    ensures
        s.pop_n(count).wf(),
        s.pop_n(count).frames == s.frames.take(s.frames.len() - count),
        s.pop_n(count).top_cookie == s.top_cookie,
        s.pop_n(count).capacity == s.capacity,
    decreases count,
{
    if count > 0 {
        lemma_pop_wf(s);
        lemma_pop_n_wf(s.pop(), (count - 1) as nat);
        assert(s.frames.drop_last().take(s.frames.len() - count) =~= s.frames.take(
            s.frames.len() - count,
        ));
    }
}

/// Every transition that the store may take keeps the nesting invariant.
pub proof fn lemma_step_keeps_nesting(s: StoreModel, step: Step)
    requires
        s.wf(),
        allowed(s, step),
    ensures
        apply(s, step).wf(),
{
    match step {
        Step::InitScope => {
            lemma_with_top_wf(s, (s.top_cookie + 1) as u32);
        },
        Step::Push(frame) => {
            lemma_push_wf(s, frame);
        },
        Step::Pop => {
            lemma_pop_wf(s);
        },
        Step::DropScope(count) => {
            lemma_pop_n_wf(s, count);
            lemma_with_top_wf(s.pop_n(count), (s.top_cookie - 1) as u32);
        },
        Step::Escape(value) => {
            lemma_escape_wf(s, value);
        },
        Step::CacheContext(current) => {
            lemma_cache_context_wf(s, current);
        },
    }
}

/// The nesting invariant holds after every sequence of transitions that the
/// store may take from a state in which it holds; in particular from the
/// state of a new store.
pub proof fn lemma_nesting_invariant(s: StoreModel, steps: Seq<Step>)
    requires
        s.wf(),
        all_allowed(s, steps),
    ensures
        run(s, steps).wf(),
    decreases steps.len(),
{
    if steps.len() > 0 {
        lemma_step_keeps_nesting(s, steps.first());
        lemma_nesting_invariant(apply(s, steps.first()), steps.drop_first());
    }
}

/// The state of a new store satisfies the nesting invariant.
pub proof fn lemma_initial_wf(capacity: nat)
    requires
        capacity <= usize::MAX,
    ensures
        StoreModel::initial(capacity).wf(),
{
    let s = StoreModel::initial(capacity);
    assert forall|kind: Kind| s.active.slot(kind) == #[trigger] s.nearest(kind) by {}
}

/// What the nesting invariant says of a table entry: for a kind other than
/// the context, the entry is empty if no frame of the kind is live;
/// otherwise it is the entry of the last such frame, which names that
/// frame's offset unless the frame is an escape slot that has been used.
/// The frame stack is as long as the live frames together.
pub proof fn lemma_entry_is_nearest_frame(s: StoreModel, kind: Kind)
    requires
        s.wf(),
        kind != Kind::Context,
    ensures
        s.len() == total_bytes(s.frames),
        match nearest_index(s.frames, kind) {
            None => {
                &&& s.active.slot(kind) == Slot::Empty
                &&& forall|i: int|
                    0 <= i < s.frames.len() ==> (#[trigger] s.frames[i]).spec_kind() != kind
            },
            Some(index) => {
                &&& 0 <= index < s.frames.len()
                &&& s.frames[index].spec_kind() == kind
                &&& forall|i: int|
                    index < i < s.frames.len() ==> (#[trigger] s.frames[i]).spec_kind() != kind
                &&& s.active.slot(kind) == s.frames[index].active(
                    frame_offset(s.frames, index) as usize,
                )
            },
        },
{
    assert(s.active.slot(kind) == s.nearest(kind));
    lemma_slot_of_nearest(s.frames, kind, Slot::Empty);
}

/// The entry that a run of frames gives rise to is that of the last frame
/// of the kind, or the base if there is no such frame.
pub proof fn lemma_slot_of_nearest(frames: Seq<Frame>, kind: Kind, base: Slot)
    ensures
        match nearest_index(frames, kind) {
            None => {
                &&& slot_of(frames, kind, base) == base
                &&& forall|i: int| 0 <= i < frames.len() ==> (#[trigger] frames[i]).spec_kind() != kind
            },
            Some(index) => {
                &&& 0 <= index < frames.len()
                &&& frames[index].spec_kind() == kind
                &&& forall|i: int|
                    index < i < frames.len() ==> (#[trigger] frames[i]).spec_kind() != kind
                &&& slot_of(frames, kind, base) == frames[index].active(
                    frame_offset(frames, index) as usize,
                )
            },
        },
    decreases frames.len(),
{
    if frames.len() > 0 && frames.last().spec_kind() != kind {
        let below = frames.drop_last();
        lemma_slot_of_nearest(below, kind, base);
        match nearest_index(below, kind) {
            None => {
                assert forall|i: int| 0 <= i < frames.len() implies (
                #[trigger] frames[i]).spec_kind() != kind by {
                    if i < below.len() {
                        assert(below[i] == frames[i]);
                    }
                }
            },
            Some(index) => {
                assert(below.take(index) =~= frames.take(index));
                assert forall|i: int| index < i < frames.len() implies (
                #[trigger] frames[i]).spec_kind() != kind by {
                    if i < below.len() {
                        assert(below[i] == frames[i]);
                    }
                }
            },
        }
    }
}

/// The context entry is the context of the last context frame, or, if no
/// context frame is live, the entry that is in force below all frames.
pub proof fn lemma_context_is_nearest_frame(s: StoreModel)
    requires
        s.wf(),
    ensures
        match nearest_index(s.frames, Kind::Context) {
            None => s.active.context == s.base_context(),
            Some(index) => {
                &&& 0 <= index < s.frames.len()
                &&& s.frames[index] matches Frame::Context(a) && s.active.context == Slot::At(
                    a.context.raw,
                )
            },
        },
{
    assert(s.active.slot(Kind::Context) == s.nearest(Kind::Context));
    lemma_slot_of_nearest(s.frames, Kind::Context, s.base_context());
}

/// Pushing frames does not change the top cookie.
pub proof fn lemma_push_all_keeps_cookie(s: StoreModel, frames: Seq<Frame>)
    ensures
        s.push_all(frames).top_cookie == s.top_cookie,
    decreases frames.len(),
{
    if frames.len() > 0 {
        lemma_push_all_keeps_cookie(s.push(frames.first()), frames.drop_first());
    }
}

/// The frames of a scope that has just been entered lie on top of the frames
/// that were there before, in the order in which the scope owns them: they
/// are a suffix of the frame stack, and nothing below them has changed.
pub proof fn lemma_entered_frames_are_suffix(s: StoreModel, frames: Seq<Frame>)
    ensures
        s.push_all(frames).frames.len() == s.frames.len() + frames.len(),
        s.push_all(frames).frames.take(s.frames.len() as int) == s.frames,
        forall|i: int|
            0 <= i < frames.len() ==> (#[trigger] s.push_all(frames).frames[s.frames.len() + i])
                == frames[i].with_prior(s.push_all(frames).frames[s.frames.len() + i].prior()),
        s.enter_scope(frames).frames == s.push_all(frames).frames,
    decreases frames.len(),
{
    let below = s.frames.len() as int;
    if frames.len() > 0 {
        let first = frames.first();
        let rest = frames.drop_first();
        let t = s.push(first);
        let all = s.push_all(frames).frames;
        lemma_entered_frames_are_suffix(t, rest);
        assert(all.take(below) =~= t.frames.take(below)) by {
            assert(all.take(below + 1) == t.frames);
            assert(all.take(below + 1).take(below) =~= all.take(below));
        }
        assert(t.frames.take(below) =~= s.frames);
        assert forall|i: int| 0 <= i < frames.len() implies (#[trigger] all[below + i])
            == frames[i].with_prior(all[below + i].prior()) by {
            if i == 0 {
                assert(all.take(below + 1)[below] == all[below]);
                assert(t.frames[below] == s.placed(first));
            } else {
                assert(all[t.frames.len() + (i - 1)] == rest[i - 1].with_prior(
                    all[t.frames.len() + (i - 1)].prior(),
                ));
            }
        }
    } else {
        assert(s.frames.take(below) =~= s.frames);
    }
    lemma_init_scope_keeps_frames(s, frames);
}

/// Opening a scope changes the top cookie and nothing else, so the frames
/// that are pushed afterwards are the same.
pub proof fn lemma_init_scope_keeps_frames(s: StoreModel, frames: Seq<Frame>)
    ensures
        s.enter_scope(frames) == s.push_all(frames).with_top((s.top_cookie + 1) as u32),
{
    lemma_with_top_push_all(s, (s.top_cookie + 1) as u32, frames);
}

/// What is pushed does not depend on the top cookie.
pub proof fn lemma_with_top_push_all(s: StoreModel, cookie: u32, frames: Seq<Frame>)
    ensures
        s.with_top(cookie).push_all(frames) == s.push_all(frames).with_top(cookie),
    decreases frames.len(),
{
    if frames.len() > 0 {
        let first = frames.first();
        assert(s.with_top(cookie).push(first) == s.push(first).with_top(cookie));
        lemma_with_top_push_all(s.push(first), cookie, frames.drop_first());
    }
}

/// Exclusivity: once a scope has been entered from the innermost live
/// scope, the new scope is the innermost live one and may reach the store's
/// resources, and its parent may not.
pub proof fn lemma_child_shadows_parent(s: StoreModel, parent: u32, frames: Seq<Frame>)
    requires
        s.is_top(parent),
        s.top_cookie < u32::MAX,
    ensures
        s.enter_scope(frames).is_top((parent + 1) as u32),
        !s.enter_scope(frames).is_top(parent),
{
    lemma_push_all_keeps_cookie(s.init_scope(), frames);
}

/// Exclusivity: of two scopes with different cookies at most one may reach
/// the store's resources; so while a scope opened later is the innermost
/// live one, no scope opened before it is.
pub proof fn lemma_exclusivity(s: StoreModel, ancestor: u32, descendant: u32)
    requires
        ancestor < descendant,
        s.is_top(descendant),
    ensures
        !s.is_top(ancestor),
{
}

/// Balance: dropping a scope right after it has been entered pops exactly
/// its frames and leaves the store as it was before the scope was entered,
/// top cookie included.
pub proof fn lemma_drop_undoes_enter(s: StoreModel, frames: Seq<Frame>)
    requires
        s.top_cookie < u32::MAX,
    ensures
        s.enter_scope(frames).drop_scope(frames.len()) == s,
        s.enter_scope(frames).top_cookie == s.top_cookie + 1,
{
    let opened = s.init_scope();
    lemma_push_all_keeps_cookie(opened, frames);
    lemma_pop_n_undoes_push_all(opened, frames);
}

/// Only one value can escape: once a value has escaped, no escape slot is
/// active, so a second value cannot escape through the same slot.
pub proof fn lemma_escape_once(s: StoreModel, value: usize)
    requires
        s.wf(),
        s.can_escape(),
        value != 0,
    ensures
        !s.escape(value).can_escape(),
        s.escape(value).wf(),
{
    lemma_escape_wf(s, value);
}

/// A value that escapes from an escapable handle scope is kept alive by the
/// scope that holds the parent's handle scope, and a handle scope opened
/// inside lets values escape to the same scope.
pub proof fn lemma_escape_target(parent: Aspects, cookie: u32)
    ensures
        compose_spec(Some(parent), ScopeKind::EscapableHandleScope, cookie) matches Some(child)
            ==> child.escape == parent.handles && child.handles == Some(cookie),
        compose_spec(Some(parent), ScopeKind::HandleScope, cookie) matches Some(child)
            ==> child.escape == parent.escape,
{
}

} // verus!
