//! The frame stack: an append/truncate-only buffer of machine words whose
//! capacity is fixed when the stack is made.
//!
//! The stack is pure storage. It is addressed by byte offset; every offset it
//! hands out or accepts is a multiple of `WORD_SIZE`.

use vstd::prelude::*;

verus! {

/// Number of bytes that one word of the frame stack occupies.
pub const WORD_SIZE: usize = 8;

/// Word buffer that holds the frames of one scope store.
pub struct FrameStack {
    words: Vec<usize>,
    capacity: usize,
}

impl FrameStack {
    /// The words on the stack, bottom first.
    pub closed spec fn view(&self) -> Seq<usize> {
        self.words@
    }

    /// Number of bytes the stack may hold at most.
    pub closed spec fn spec_capacity(&self) -> nat {
        self.capacity as nat
    }

    /// Number of bytes on the stack.
    pub open spec fn spec_len(&self) -> nat {
        self@.len() * WORD_SIZE as nat
    }

    /// The stack never holds more than its capacity.
    pub open spec fn wf(&self) -> bool {
        self.spec_len() <= self.spec_capacity()
    }

    /// An empty stack which can hold `capacity` bytes.
    pub fn new(capacity: usize) -> (stack: Self)
        ensures
            stack.wf(),
            stack@ == Seq::<usize>::empty(),
            stack.spec_capacity() == capacity,
    {
        FrameStack { words: Vec::with_capacity(capacity / WORD_SIZE), capacity }
    }

    /// Number of bytes the stack may hold at most.
    pub fn capacity(&self) -> (capacity: usize)
        ensures
            capacity == self.spec_capacity(),
    {
        self.capacity
    }

    /// Number of bytes on the stack.
    pub fn len(&self) -> (len: usize)
        requires
            self.wf(),
        ensures
            len == self.spec_len(),
    {
        self.words.len() * WORD_SIZE
    }

    /// Whether `bytes` more bytes can be appended without exceeding the
    /// capacity.
    pub fn fits(&self, bytes: usize) -> (fits: bool)
        requires
            self.wf(),
        ensures
            fits == (self.spec_len() + bytes <= self.spec_capacity()),
    {
        bytes <= self.capacity - self.words.len() * WORD_SIZE
    }

    /// Appends `words` and returns the byte offset at which the first of them
    /// was placed. The caller has checked that they fit: the stack never
    /// grows beyond its capacity.
    pub fn reserve_and_append(&mut self, words: &[usize]) -> (offset: usize)
        requires
            old(self).wf(),
            old(self).spec_len() + words@.len() * WORD_SIZE as nat <= old(self).spec_capacity(),
        ensures
            final(self).wf(),
            final(self)@ == old(self)@ + words@,
            final(self).spec_capacity() == old(self).spec_capacity(),
            offset == old(self).spec_len(),
    {
        let offset = self.words.len() * WORD_SIZE;
        let mut i: usize = 0;
        while i < words.len()
            invariant
                i <= words@.len(),
                self.capacity == old(self).capacity,
                self.words@ == old(self).words@ + words@.subrange(0, i as int),
            decreases words@.len() - i,
        {
            self.words.push(words[i]);
            assert(words@.subrange(0, i + 1) =~= words@.subrange(0, i as int).push(words@[i as int]));
            i += 1;
        }
        assert(words@.subrange(0, i as int) =~= words@);
        offset
    }

    /// Drops everything at and above byte offset `len`.
    pub fn truncate_to(&mut self, len: usize)
        requires
            old(self).wf(),
            len <= old(self).spec_len(),
            len % WORD_SIZE == 0,
        ensures
            final(self).wf(),
            final(self)@ == old(self)@.take(len as int / WORD_SIZE as int),
            final(self).spec_capacity() == old(self).spec_capacity(),
            final(self).spec_len() == len,
    {
        self.words.truncate(len / WORD_SIZE);
    }

    /// The word at byte offset `offset`.
    pub fn word_at(&self, offset: usize) -> (word: usize)
        requires
            offset < self.spec_len(),
            offset % WORD_SIZE == 0,
        ensures
            word == self@[offset as int / WORD_SIZE as int],
    {
        self.words[offset / WORD_SIZE]
    }

    /// Overwrites the word at byte offset `offset`.
    pub fn set_word(&mut self, offset: usize, word: usize)
        requires
            old(self).wf(),
            offset < old(self).spec_len(),
            offset % WORD_SIZE == 0,
        ensures
            final(self).wf(),
            final(self)@ == old(self)@.update(offset as int / WORD_SIZE as int, word),
            final(self).spec_capacity() == old(self).spec_capacity(),
    {
        self.words[offset / WORD_SIZE] = word;
    }
}

} // verus!
