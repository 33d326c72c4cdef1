//! Frames as they lie on the frame stack.
//!
//! A frame occupies a run of words: the storage of its resource, then the
//! table entry that the frame displaced (two words), then one word that names
//! the resource kind and so selects the cleanup that popping the frame
//! performs. Because the kind comes last, the topmost frame of a stack can be
//! found from the end of the buffer alone.

use vstd::prelude::*;
use crate::aspect;
use crate::aspect::Hook;
use crate::effective_scope::EffectiveScope;
use crate::effective_scope::Kind;
use crate::effective_scope::Slot;
use crate::frame_stack::FrameStack;
use crate::frame_stack::WORD_SIZE;
use crate::raw;

verus! {

/// One entry of the frame stack.
#[derive(Clone, Copy, Debug)]
pub enum Frame {
    Context(aspect::Context),
    HandleScope(aspect::HandleScope),
    EscapeSlot(aspect::EscapeSlot),
    TryCatch(aspect::TryCatch),
}

/// Number of words that follow the storage in every frame.
pub const TRAILER_WORDS: usize = 3;

/// The word that names `kind` at the end of a frame.
pub open spec fn kind_tag(kind: Kind) -> usize {
    match kind {
        Kind::Context => 1,
        Kind::HandleScope => 2,
        Kind::EscapeSlot => 3,
        Kind::TryCatch => 4,
    }
}

/// The kind that `tag` names, if any.
pub open spec fn kind_of_tag(tag: usize) -> Option<Kind> {
    if tag == 1 {
        Some(Kind::Context)
    } else if tag == 2 {
        Some(Kind::HandleScope)
    } else if tag == 3 {
        Some(Kind::EscapeSlot)
    } else if tag == 4 {
        Some(Kind::TryCatch)
    } else {
        None
    }
}

/// Number of words in the storage of a resource of `kind`.
pub open spec fn storage_words(kind: Kind) -> nat {
    match kind {
        Kind::Context => 1,
        Kind::HandleScope => 3,
        Kind::EscapeSlot => 1,
        Kind::TryCatch => 6,
    }
}

/// Number of words in a frame of `kind`.
pub open spec fn frame_words(kind: Kind) -> nat {
    storage_words(kind) + TRAILER_WORDS as nat
}

/// The two words that record a table entry.
pub open spec fn slot_words(slot: Slot) -> Seq<usize> {
    match slot {
        Slot::Empty => seq![0usize, 0usize],
        Slot::Current => seq![1usize, 0usize],
        Slot::At(value) => seq![2usize, value],
    }
}

/// The table entry that the words `tag` and `value` record, if any.
pub open spec fn slot_of_words(tag: usize, value: usize) -> Option<Slot> {
    if tag == 0 {
        Some(Slot::Empty)
    } else if tag == 1 {
        Some(Slot::Current)
    } else if tag == 2 {
        Some(Slot::At(value))
    } else {
        None
    }
}

/// The frame of `kind` whose storage holds `storage` and which displaced
/// `prior`.
pub open spec fn frame_of_parts(kind: Kind, storage: Seq<usize>, prior: Slot) -> Frame {
    match kind {
        Kind::Context => Frame::Context(
            aspect::Context { context: crate::runtime::Context { raw: storage[0] }, prior },
        ),
        Kind::HandleScope => Frame::HandleScope(
            aspect::HandleScope {
                raw: raw::HandleScope([storage[0], storage[1], storage[2]]),
                prior,
            },
        ),
        Kind::EscapeSlot => Frame::EscapeSlot(
            aspect::EscapeSlot { cell: raw::Address(storage[0]), prior },
        ),
        Kind::TryCatch => Frame::TryCatch(
            aspect::TryCatch {
                raw: raw::TryCatch(
                    [storage[0], storage[1], storage[2], storage[3], storage[4], storage[5]],
                ),
                prior,
            },
        ),
    }
}

impl Frame {
    /// The resource kind of the frame.
    pub open spec fn spec_kind(self) -> Kind {
        match self {
            Frame::Context(_) => Kind::Context,
            Frame::HandleScope(_) => Kind::HandleScope,
            Frame::EscapeSlot(_) => Kind::EscapeSlot,
            Frame::TryCatch(_) => Kind::TryCatch,
        }
    }

    /// The table entry that the frame displaced when it was pushed.
    pub open spec fn prior(self) -> Slot {
        match self {
            Frame::Context(a) => a.prior,
            Frame::HandleScope(a) => a.prior,
            Frame::EscapeSlot(a) => a.prior,
            Frame::TryCatch(a) => a.prior,
        }
    }

    /// The same frame, recorded as having displaced `prior`.
    pub open spec fn with_prior(self, prior: Slot) -> Frame {
        match self {
            Frame::Context(a) => Frame::Context(aspect::Context { prior, ..a }),
            Frame::HandleScope(a) => Frame::HandleScope(aspect::HandleScope { prior, ..a }),
            Frame::EscapeSlot(a) => Frame::EscapeSlot(aspect::EscapeSlot { prior, ..a }),
            Frame::TryCatch(a) => Frame::TryCatch(aspect::TryCatch { prior, ..a }),
        }
    }

    /// The table entry that stands for the frame, placed at byte offset
    /// `offset`, while it is the nearest frame of its kind.
    pub open spec fn active(self, offset: usize) -> Slot {
        match self {
            Frame::Context(a) => a.active(),
            Frame::HandleScope(a) => a.active(offset),
            Frame::EscapeSlot(a) => a.active(offset),
            Frame::TryCatch(a) => a.active(offset),
        }
    }

    /// The call owed to the runtime when the frame has been pushed at byte
    /// offset `offset`, displacing `prior`.
    pub open spec fn enter_hook(self, prior: Slot, offset: usize) -> Option<Hook> {
        match self {
            Frame::Context(a) => a.enter_hook(prior),
            Frame::HandleScope(_) => Some(Hook::ConstructHandleScope(offset)),
            Frame::EscapeSlot(_) => None,
            Frame::TryCatch(_) => Some(Hook::ConstructTryCatch(offset)),
        }
    }

    /// The call owed to the runtime when the frame, placed at byte offset
    /// `offset`, is popped.
    pub open spec fn exit_hook(self, offset: usize) -> Option<Hook> {
        match self {
            Frame::Context(a) => a.exit_hook(),
            Frame::HandleScope(_) => Some(Hook::DestructHandleScope(offset)),
            Frame::EscapeSlot(_) => None,
            Frame::TryCatch(_) => Some(Hook::DestructTryCatch(offset)),
        }
    }

    /// The words of the frame's storage.
    pub open spec fn storage(self) -> Seq<usize> {
        match self {
            Frame::Context(a) => seq![a.context.raw],
            Frame::HandleScope(a) => a.raw@,
            Frame::EscapeSlot(a) => seq![a.cell.0],
            Frame::TryCatch(a) => a.raw@,
        }
    }

    /// Number of words the frame occupies.
    pub open spec fn spec_words(self) -> nat {
        frame_words(self.spec_kind())
    }

    /// Number of bytes the frame occupies.
    pub open spec fn spec_byte_len(self) -> nat {
        self.spec_words() * WORD_SIZE as nat
    }

    /// The words that the frame occupies on the stack.
    pub open spec fn encoding(self) -> Seq<usize> {
        self.storage() + slot_words(self.prior()) + seq![kind_tag(self.spec_kind())]
    }

    /// The resource kind of the frame.
    pub fn kind(&self) -> (kind: Kind)
        ensures
            kind == self.spec_kind(),
    {
        match self {
            Frame::Context(_) => Kind::Context,
            Frame::HandleScope(_) => Kind::HandleScope,
            Frame::EscapeSlot(_) => Kind::EscapeSlot,
            Frame::TryCatch(_) => Kind::TryCatch,
        }
    }

    /// Number of bytes the frame occupies.
    pub fn byte_len(&self) -> (len: usize)
        ensures
            len == self.spec_byte_len(),
    {
        kind_byte_len(self.kind())
    }

    /// The words that the frame occupies on the stack.
    pub fn encode(&self) -> (words: Vec<usize>)
        ensures
            words@ == self.encoding(),
    {
        let mut words: Vec<usize> = Vec::new();
        match self {
            Frame::Context(a) => {
                words.push(a.context.raw);
            },
            Frame::HandleScope(a) => {
                words.push(a.raw.0[0]);
                words.push(a.raw.0[1]);
                words.push(a.raw.0[2]);
            },
            Frame::EscapeSlot(a) => {
                words.push(a.cell.0);
            },
            Frame::TryCatch(a) => {
                words.push(a.raw.0[0]);
                words.push(a.raw.0[1]);
                words.push(a.raw.0[2]);
                words.push(a.raw.0[3]);
                words.push(a.raw.0[4]);
                words.push(a.raw.0[5]);
            },
        }
        let prior = match self {
            Frame::Context(a) => a.prior,
            Frame::HandleScope(a) => a.prior,
            Frame::EscapeSlot(a) => a.prior,
            Frame::TryCatch(a) => a.prior,
        };
        match prior {
            Slot::Empty => {
                words.push(0);
                words.push(0);
            },
            Slot::Current => {
                words.push(1);
                words.push(0);
            },
            Slot::At(value) => {
                words.push(2);
                words.push(value);
            },
        }
        words.push(tag_of_kind(self.kind()));
        words
    }

    /// Installs the frame, placed at byte offset `offset`, in the table,
    /// records in the frame what it displaced, and says which call the
    /// runtime owes.
    pub fn enter(&mut self, effective_scope: &mut EffectiveScope, offset: usize) -> (hook: Option<
        Hook,
    >)
        ensures
            *final(self) == old(self).with_prior(old(effective_scope).slot(old(self).spec_kind())),
            *final(effective_scope) == old(effective_scope).with(
                old(self).spec_kind(),
                old(self).active(offset),
            ),
            hook == old(self).enter_hook(old(effective_scope).slot(old(self).spec_kind()), offset),
    {
        match self {
            Frame::Context(a) => a.enter(effective_scope),
            Frame::HandleScope(a) => a.enter(effective_scope, offset),
            Frame::EscapeSlot(a) => a.enter(effective_scope, offset),
            Frame::TryCatch(a) => a.enter(effective_scope, offset),
        }
    }

    /// Puts back the table entry that the frame displaced and says which
    /// call the runtime owes for the frame placed at byte offset `offset`.
    pub fn exit(&self, effective_scope: &mut EffectiveScope, offset: usize) -> (hook: Option<Hook>)
        ensures
            *final(effective_scope) == old(effective_scope).with(self.spec_kind(), self.prior()),
            hook == self.exit_hook(offset),
    {
        match self {
            Frame::Context(a) => a.exit(effective_scope),
            Frame::HandleScope(a) => a.exit(effective_scope, offset),
            Frame::EscapeSlot(a) => a.exit(effective_scope),
            Frame::TryCatch(a) => a.exit(effective_scope, offset),
        }
    }
}

/// The word that names `kind` at the end of a frame.
pub fn tag_of_kind(kind: Kind) -> (tag: usize)
    ensures
        tag == kind_tag(kind),
{
    match kind {
        Kind::Context => 1,
        Kind::HandleScope => 2,
        Kind::EscapeSlot => 3,
        Kind::TryCatch => 4,
    }
}

/// The kind that `tag` names at the end of a frame. The tag names one.
pub fn kind_tagged(tag: usize) -> (kind: Kind)
    requires
        kind_of_tag(tag) is Some,
    ensures
        kind_of_tag(tag) == Some(kind),
{
    if tag == 1 {
        Kind::Context
    } else if tag == 2 {
        Kind::HandleScope
    } else if tag == 3 {
        Kind::EscapeSlot
    } else {
        Kind::TryCatch
    }
}

/// Number of bytes that a frame of `kind` occupies.
pub fn kind_byte_len(kind: Kind) -> (len: usize)
    ensures
        len == frame_words(kind) * WORD_SIZE as nat,
{
    match kind {
        Kind::Context => 4 * WORD_SIZE,
        Kind::HandleScope => 6 * WORD_SIZE,
        Kind::EscapeSlot => 4 * WORD_SIZE,
        Kind::TryCatch => 9 * WORD_SIZE,
    }
}

/// Reads the topmost frame of `stack`.
pub fn read_top(stack: &FrameStack) -> (frame: Frame)
    requires
        stack.wf(),
        top_frame(stack@) is Some,
    ensures
        frame == top_frame(stack@)->0,
        frame.spec_byte_len() <= stack.spec_len(),
{
    let len = stack.len();
    let kind = kind_tagged(stack.word_at(len - WORD_SIZE));
    let start = len - kind_byte_len(kind);
    let prior_tag = stack.word_at(len - 3 * WORD_SIZE);
    let prior_value = stack.word_at(len - 2 * WORD_SIZE);
    let prior = if prior_tag == 0 {
        Slot::Empty
    } else if prior_tag == 1 {
        Slot::Current
    } else {
        Slot::At(prior_value)
    };
    match kind {
        Kind::Context => Frame::Context(
            aspect::Context {
                context: crate::runtime::Context { raw: stack.word_at(start) },
                prior,
            },
        ),
        Kind::HandleScope => Frame::HandleScope(
            aspect::HandleScope {
                raw: raw::HandleScope(
                    [
                        stack.word_at(start),
                        stack.word_at(start + WORD_SIZE),
                        stack.word_at(start + 2 * WORD_SIZE),
                    ],
                ),
                prior,
            },
        ),
        Kind::EscapeSlot => Frame::EscapeSlot(
            aspect::EscapeSlot { cell: raw::Address(stack.word_at(start)), prior },
        ),
        Kind::TryCatch => Frame::TryCatch(
            aspect::TryCatch {
                raw: raw::TryCatch(
                    [
                        stack.word_at(start),
                        stack.word_at(start + WORD_SIZE),
                        stack.word_at(start + 2 * WORD_SIZE),
                        stack.word_at(start + 3 * WORD_SIZE),
                        stack.word_at(start + 4 * WORD_SIZE),
                        stack.word_at(start + 5 * WORD_SIZE),
                    ],
                ),
                prior,
            },
        ),
    }
}

/// The frame that ends `words`, if `words` ends with the encoding of one.
pub open spec fn top_frame(words: Seq<usize>) -> Option<Frame> {
    if words.len() == 0 {
        None
    } else {
        match kind_of_tag(words.last()) {
            None => None,
            Some(kind) => {
                let n = frame_words(kind);
                if words.len() < n {
                    None
                } else {
                    let start = words.len() - n;
                    match slot_of_words(words[words.len() - 3], words[words.len() - 2]) {
                        None => None,
                        Some(prior) => Some(
                            frame_of_parts(
                                kind,
                                words.subrange(start, start + storage_words(kind)),
                                prior,
                            ),
                        ),
                    }
                }
            },
        }
    }
}

/// The frames that `words` holds, bottom first, if `words` is a run of
/// encoded frames.
pub open spec fn frames_of(words: Seq<usize>) -> Option<Seq<Frame>>
    decreases words.len(),
{
    if words.len() == 0 {
        Some(Seq::empty())
    } else {
        match top_frame(words) {
            None => None,
            Some(frame) => match frames_of(words.take(words.len() - frame.spec_words())) {
                None => None,
                Some(below) => Some(below.push(frame)),
            },
        }
    }
}

/// Number of bytes that `frames` occupy together.
pub open spec fn total_bytes(frames: Seq<Frame>) -> nat
    decreases frames.len(),
{
    if frames.len() == 0 {
        0
    } else {
        total_bytes(frames.drop_last()) + frames.last().spec_byte_len()
    }
}

/// An encoded frame has the length that its kind prescribes.
pub proof fn lemma_encoding_len(frame: Frame)
    ensures
        frame.encoding().len() == frame.spec_words(),
        frame.spec_words() >= 4,
{
}

/// A buffer that ends with the encoding of a frame has that frame on top.
pub proof fn lemma_top_frame_of_encoding(below: Seq<usize>, frame: Frame)
    ensures
        top_frame(below + frame.encoding()) == Some(frame),
{
    let words = below + frame.encoding();
    let kind = frame.spec_kind();
    lemma_encoding_len(frame);
    let start = words.len() - frame_words(kind);
    let storage = words.subrange(start, start + storage_words(kind));
    match frame {
        Frame::Context(_) => {},
        Frame::HandleScope(a) => {
            assert(raw::HandleScope([storage[0], storage[1], storage[2]]).0 =~= a.raw.0);
        },
        Frame::EscapeSlot(_) => {},
        Frame::TryCatch(a) => {
            assert(raw::TryCatch(
                [storage[0], storage[1], storage[2], storage[3], storage[4], storage[5]],
            ).0 =~= a.raw.0);
        },
    }
}

/// Appending the encoding of a frame to a run of frames appends the frame.
pub proof fn lemma_frames_of_push(below: Seq<usize>, frame: Frame)
    requires
        frames_of(below) is Some,
    ensures
        frames_of(below + frame.encoding()) == Some(frames_of(below)->0.push(frame)),
{
    let words = below + frame.encoding();
    lemma_encoding_len(frame);
    lemma_top_frame_of_encoding(below, frame);
    assert(words.take(words.len() - frame.spec_words()) =~= below);
}

/// A non-empty run of frames ends with its last frame, and what lies below
/// that frame is the run of the frames before it.
pub proof fn lemma_frames_of_pop(words: Seq<usize>)
    requires
        frames_of(words) is Some,
        words.len() > 0,
    ensures
        top_frame(words) is Some,
        top_frame(words)->0.spec_words() <= words.len(),
        frames_of(words)->0.len() > 0,
        frames_of(words)->0.last() == top_frame(words)->0,
        frames_of(words.take(words.len() - top_frame(words)->0.spec_words())) == Some(
            frames_of(words)->0.drop_last(),
        ),
{
}

/// A run of frames is exactly as long as its frames together.
pub proof fn lemma_frames_of_len(words: Seq<usize>)
    requires
        frames_of(words) is Some,
    ensures
        total_bytes(frames_of(words)->0) == words.len() * WORD_SIZE as nat,
        frames_of(words)->0.len() == 0 <==> words.len() == 0,
    decreases words.len(),
{
    if words.len() > 0 {
        lemma_frames_of_pop(words);
        let frame = top_frame(words)->0;
        lemma_frames_of_len(words.take(words.len() - frame.spec_words()));
    }
}

/// An escape slot frame with `value` in its cell; any other frame unchanged.
pub open spec fn filled(frame: Frame, value: usize) -> Frame {
    match frame {
        Frame::EscapeSlot(a) => Frame::EscapeSlot(
            aspect::EscapeSlot { cell: raw::Address(value), ..a },
        ),
        _ => frame,
    }
}

/// Byte offset at which the frame at `index` starts.
pub open spec fn frame_offset(frames: Seq<Frame>, index: int) -> nat {
    total_bytes(frames.take(index))
}

/// Overwriting the cell of an escape slot frame in a run of frames changes
/// that frame's cell and nothing else.
pub proof fn lemma_frames_of_fill(words: Seq<usize>, index: int, value: usize)
    requires
        frames_of(words) is Some,
        0 <= index < frames_of(words)->0.len(),
        frames_of(words)->0[index] is EscapeSlot,
    ensures
        frame_offset(frames_of(words)->0, index) % (WORD_SIZE as nat) == 0,
        frame_offset(frames_of(words)->0, index) / (WORD_SIZE as nat) < words.len(),
        frames_of(
            words.update(
                frame_offset(frames_of(words)->0, index) as int / WORD_SIZE as int,
                value,
            ),
        ) == Some(frames_of(words)->0.update(index, filled(frames_of(words)->0[index], value))),
    decreases words.len(),
{
    let frames = frames_of(words)->0;
    lemma_frames_of_len(words);
    lemma_frames_of_pop(words);
    let top = top_frame(words)->0;
    let n = top.spec_words();
    let len = words.len();
    let below_words = words.take(len - n);
    let below = frames.drop_last();
    lemma_frames_of_len(below_words);
    let at = frame_offset(frames, index) as int / WORD_SIZE as int;
    let after = words.update(at, value);
    if index == frames.len() - 1 {
        assert(after.take(len - n) =~= below_words);
    } else {
        assert(below.take(index) =~= frames.take(index));
        lemma_frames_of_fill(below_words, index, value);
        let kind = top.spec_kind();
        assert(after.subrange(len - n, len - n + storage_words(kind)) =~= words.subrange(
            len - n,
            len - n + storage_words(kind),
        ));
        assert(after.take(len - n) =~= below_words.update(at, value));
        assert(below.update(index, filled(below[index], value)).push(top) =~= frames.update(
            index,
            filled(frames[index], value),
        ));
    }
}

/// The length of a run of frames is that of its first frame and that of the
/// rest together.
pub proof fn lemma_total_bytes_first(frames: Seq<Frame>)
    requires
        frames.len() > 0,
    ensures
        total_bytes(frames) == frames.first().spec_byte_len() + total_bytes(frames.drop_first()),
    decreases frames.len(),
{
    if frames.len() == 1 {
        assert(frames.drop_last() =~= frames.drop_first());
    } else {
        lemma_total_bytes_first(frames.drop_last());
        assert(frames.drop_last().drop_first() =~= frames.drop_first().drop_last());
    }
}

} // verus!
