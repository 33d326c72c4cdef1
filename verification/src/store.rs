//! The scope store: the frame stack, the table of active resources and the
//! top cookie of one execution context.

use vstd::prelude::*;
use crate::aspect::Hook;
use crate::effective_scope::EffectiveScope;
use crate::effective_scope::Kind;
use crate::effective_scope::Slot;
use crate::frame::frames_of;
use crate::frame::lemma_encoding_len;
use crate::frame::lemma_frames_of_fill;
use crate::frame::lemma_frames_of_len;
use crate::frame::lemma_frames_of_pop;
use crate::frame::kind_byte_len;
use crate::frame::kind_tagged;
use crate::frame::lemma_frames_of_push;
use crate::frame::read_top;
use crate::frame::top_frame;
use crate::frame::Frame;
use crate::frame_stack::FrameStack;
use crate::frame_stack::WORD_SIZE;
use crate::model::context_slot;
use crate::model::hook_seq;
use crate::model::lemma_cache_context_wf;
use crate::model::lemma_escape_wf;
use crate::model::lemma_pop_wf;
use crate::model::lemma_push_wf;
use crate::model::nearest_index;
use crate::model::StoreModel;
use crate::raw::Address;
use crate::runtime::Context;

verus! {

/// Owner of the frames and the active resources of one execution context.
pub struct ScopeStore {
    stack: FrameStack,
    active: EffectiveScope,
    top_cookie: u32,
}

impl ScopeStore {
    /// The store as a mathematical value.
    pub closed spec fn view(&self) -> StoreModel {
        StoreModel {
            frames: match frames_of(self.stack@) {
                Some(frames) => frames,
                None => Seq::empty(),
            },
            active: self.active,
            top_cookie: self.top_cookie,
            capacity: self.stack.spec_capacity(),
        }
    }

    /// The frame stack holds a run of frames, and they and the table satisfy
    /// the nesting invariant.
    pub closed spec fn wf(&self) -> bool {
        &&& self.stack.wf()
        &&& frames_of(self.stack@) is Some
        &&& self@.wf()
        &&& self@.len() == self.stack.spec_len()
    }

    /// A well-formed store satisfies the nesting invariant.
    pub proof fn lemma_wf(&self)
        requires
            self.wf(),
        ensures
            self@.wf(),
    {
    }

    /// A store without scopes whose frame stack can hold `capacity` bytes.
    pub fn new(capacity: usize) -> (store: Self)
        ensures
            store.wf(),
            store@ == StoreModel::initial(capacity as nat),
    {
        let store = ScopeStore {
            stack: FrameStack::new(capacity),
            active: EffectiveScope::new(),
            top_cookie: 0,
        };
        assert forall|kind: Kind| store@.active.slot(kind) == #[trigger] store@.nearest(kind) by {}
        store
    }

    /// Cookie of the innermost live scope; 0 while there is none.
    pub fn top_cookie(&self) -> (cookie: u32)
        ensures
            cookie == self@.top_cookie,
    {
        self.top_cookie
    }

    /// Whether a scope with `cookie` is the innermost live one. Only such a
    /// scope may reach the store's resources; any other is shadowed.
    pub fn is_top(&self, cookie: u32) -> (top: bool)
        ensures
            top == self@.is_top(cookie),
    {
        cookie == self.top_cookie
    }

    /// Number of bytes on the frame stack.
    pub fn len(&self) -> (len: usize)
        requires
            self.wf(),
        ensures
            len == self@.len(),
    {
        self.stack.len()
    }

    /// Number of bytes that the frame stack can hold.
    pub fn capacity(&self) -> (capacity: usize)
        ensures
            capacity == self@.capacity,
    {
        self.stack.capacity()
    }

    /// Whether `bytes` more bytes of frames fit on the frame stack.
    pub fn fits(&self, bytes: usize) -> (fits: bool)
        requires
            self.wf(),
        ensures
            fits == self@.fits(bytes as nat),
    {
        self.stack.fits(bytes)
    }

    /// Places `frame` on top of the frame stack, makes it the active
    /// resource of its kind, records in it the entry it displaced, and says
    /// which call the runtime owes. The caller has checked that the frame
    /// fits.
    pub fn push(&mut self, frame: Frame) -> (hook: Option<Hook>)
        requires
            old(self).wf(),
            old(self)@.fits(frame.spec_byte_len()),
        ensures
            final(self).wf(),
            final(self)@ == old(self)@.push(frame),
            hook == old(self)@.push_hook(frame),
    {
        let mut placed = frame;
        let offset = self.stack.len();
        let hook = placed.enter(&mut self.active, offset);
        let words = placed.encode();
        proof {
            lemma_encoding_len(placed);
            lemma_frames_of_push(self.stack@, placed);
            lemma_push_wf(old(self)@, frame);
        }
        self.stack.reserve_and_append(words.as_slice());
        hook
    }

    /// Takes the topmost frame off the frame stack, puts back the table
    /// entry that the frame displaced, and says which call the runtime owes.
    /// There is a frame to pop.
    pub fn pop(&mut self) -> (hook: Option<Hook>)
        requires
            old(self).wf(),
            old(self)@.frames.len() > 0,
        ensures
            final(self).wf(),
            final(self)@ == old(self)@.pop(),
            hook == old(self)@.pop_hook(),
    {
        proof {
            lemma_frames_of_len(self.stack@);
            lemma_frames_of_pop(self.stack@);
            lemma_pop_wf(self@);
        }
        let frame = read_top(&self.stack);
        let start = self.stack.len() - frame.byte_len();
        let hook = frame.exit(&mut self.active, start);
        self.stack.truncate_to(start);
        hook
    }

    /// The active resource of `kind`, read through the scope with `cookie`,
    /// which is the innermost live one.
    pub fn get(&self, cookie: u32, kind: Kind) -> (slot: Slot)
        requires
            self.wf(),
            self@.is_top(cookie),
        ensures
            slot == self@.active.slot(kind),
            slot == self@.nearest(kind),
    {
        self.active.get(kind)
    }

    /// Whether no frame is live.
    pub fn is_empty(&self) -> (empty: bool)
        requires
            self.wf(),
        ensures
            empty == (self@.frames.len() == 0),
    {
        proof {
            lemma_frames_of_len(self.stack@);
        }
        self.stack.len() == 0
    }

    /// The topmost frame, as it lies on the frame stack. There is one.
    pub fn peek(&self) -> (frame: Frame)
        requires
            self.wf(),
            self@.frames.len() > 0,
        ensures
            frame == self@.frames.last(),
    {
        proof {
            lemma_frames_of_len(self.stack@);
            lemma_frames_of_pop(self.stack@);
        }
        read_top(&self.stack)
    }

    /// Number of live frames, counted from the top of the frame stack down.
    pub fn frame_count(&self) -> (count: usize)
        requires
            self.wf(),
        ensures
            count == self@.frames.len(),
    {
        let ghost frames = self@.frames;
        let mut end = self.stack.len();
        let mut count: usize = 0;
        proof {
            assert(self.stack@.take(self.stack@.len() as int) =~= self.stack@);
        }
        while end > 0
            invariant
                self.stack.wf(),
                end % WORD_SIZE == 0,
                end <= self.stack.spec_len(),
                count <= frames.len(),
                count * 32 + end <= self.stack.spec_len() <= usize::MAX,
                frames_of(self.stack@.take(end as int / WORD_SIZE as int)) == Some(
                    frames.take(frames.len() - count),
                ),
            decreases end,
        {
            let ghost below = self.stack@.take(end as int / WORD_SIZE as int);
            proof {
                lemma_frames_of_pop(below);
                assert(below.take(below.len() - top_frame(below)->0.spec_words())
                    =~= self.stack@.take(
                    end as int / WORD_SIZE as int - top_frame(below)->0.spec_words(),
                ));
            }
            let kind = kind_tagged(self.stack.word_at(end - WORD_SIZE));
            end = end - kind_byte_len(kind);
            count = count + 1;
        }
        proof {
            assert(frames.take(frames.len() - count).len() == frames.len() - count);
        }
        count
    }

    /// Opens a scope: assigns it the cookie after the top cookie and makes
    /// that the top cookie. A scope that has a parent can only be opened
    /// from the innermost live scope; a root has no parent and shadows
    /// whatever is live.
    pub fn init_scope_with(&mut self, parent: Option<u32>) -> (cookie: u32)
        requires
            old(self).wf(),
            parent matches Some(p) ==> old(self)@.is_top(p),
            old(self)@.top_cookie < u32::MAX,
        ensures
            final(self).wf(),
            final(self)@ == old(self)@.init_scope(),
            cookie == old(self)@.top_cookie + 1,
    {
        self.top_cookie = self.top_cookie + 1;
        assert forall|kind: Kind| self@.active.slot(kind) == #[trigger] self@.nearest(kind) by {
            assert(old(self)@.active.slot(kind) == old(self)@.nearest(kind));
        }
        self.top_cookie
    }

    /// Drops the innermost live scope, whose cookie is `cookie` and which
    /// owns the `frame_count` topmost frames: pops those frames, last pushed
    /// first, and makes the cookie before `cookie` the top cookie. Returns
    /// the calls that the runtime owes, in the order in which the frames
    /// leave.
    pub fn drop_scope(&mut self, cookie: u32, frame_count: usize) -> (hooks: Vec<Hook>)
        requires
            old(self).wf(),
            old(self)@.is_top(cookie),
            cookie > 0,
            frame_count <= old(self)@.frames.len(),
        ensures
            final(self).wf(),
            final(self)@ == old(self)@.drop_scope(frame_count as nat),
            hooks@ == old(self)@.pop_n_hooks(frame_count as nat),
    {
        let mut hooks: Vec<Hook> = Vec::new();
        let mut popped: usize = 0;
        while popped < frame_count
            invariant
                popped <= frame_count,
                self.wf(),
                frame_count - popped <= self@.frames.len(),
                self@.pop_n((frame_count - popped) as nat) == old(self)@.pop_n(frame_count as nat),
                hooks@ + self@.pop_n_hooks((frame_count - popped) as nat) == old(self)@.pop_n_hooks(
                    frame_count as nat,
                ),
                self@.top_cookie == cookie,
            decreases frame_count - popped,
        {
            let ghost done = hooks@;
            let hook = self.pop();
            match hook {
                Some(h) => {
                    hooks.push(h);
                },
                None => {},
            }
            popped += 1;
            proof {
                assert(hooks@ + self@.pop_n_hooks((frame_count - popped) as nat) =~= done + (
                hook_seq(hook) + self@.pop_n_hooks((frame_count - popped) as nat)));
            }
        }
        self.top_cookie = cookie - 1;
        assert forall|kind: Kind| self@.active.slot(kind) == #[trigger] self@.nearest(kind) by {
            let before = self@.with_top(cookie);
            assert(before.active.slot(kind) == before.nearest(kind));
        }
        hooks
    }

    /// Whether a value can still escape: an escape slot is active and
    /// nothing has escaped through it yet.
    pub fn can_escape(&self) -> (can: bool)
        ensures
            can == self@.can_escape(),
    {
        match self.active.escape_slot {
            Slot::At(_) => true,
            _ => false,
        }
    }

    /// Consumes the active escape slot through the scope with `cookie`,
    /// which is the innermost live one: writes `value` into the slot's cell,
    /// leaves no escape slot active, and returns the byte offset of the
    /// cell. A slot is there to take, and `value` is not null.
    pub fn take_escape_slot(&mut self, cookie: u32, value: Address) -> (offset: usize)
        requires
            old(self).wf(),
            old(self)@.is_top(cookie),
            old(self)@.can_escape(),
            value.0 != 0,
        ensures
            final(self).wf(),
            final(self)@ == old(self)@.escape(value.0),
            old(self)@.active.escape_slot == Slot::At(offset),
    {
        let slot = self.active.replace(Kind::EscapeSlot, Slot::Empty);
        let offset = match slot {
            Slot::At(offset) => offset,
            _ => 0,
        };
        proof {
            lemma_escape_wf(old(self)@, value.0);
            let index = nearest_index(old(self)@.frames, Kind::EscapeSlot)->0;
            lemma_frames_of_fill(self.stack@, index, value.0);
            lemma_frames_of_len(self.stack@);
        }
        self.stack.set_word(offset, value.0);
        proof {
            lemma_frames_of_len(self.stack@);
        }
        offset
    }

    /// Records, through the scope with `cookie`, which is the innermost live
    /// one, the runtime's answer to the question which context is current.
    /// The answer is kept only if the table was waiting for it; it then
    /// stays until a frame is popped that was pushed before it was given.
    /// Returns the context entry as it now stands.
    pub fn cache_context(&mut self, cookie: u32, current: Option<Context>) -> (slot: Slot)
        requires
            old(self).wf(),
            old(self)@.is_top(cookie),
        ensures
            final(self).wf(),
            final(self)@ == old(self)@.cache_context(context_slot(current)),
            slot == final(self)@.active.context,
    {
        proof {
            lemma_cache_context_wf(self@, context_slot(current));
        }
        match self.active.context {
            Slot::Current => {
                let resolved = match current {
                    Some(context) => Slot::At(context.raw),
                    None => Slot::Empty,
                };
                self.active.replace(Kind::Context, resolved);
            },
            _ => {},
        }
        self.active.context
    }
}

} // verus!
