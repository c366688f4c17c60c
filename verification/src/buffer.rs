//! The unit of work that circulates: a reusable frame buffer.

use vstd::prelude::*;

verus! {

/// A frame buffer, as a mathematical value.
pub struct BufferView<T> {
    /// Tells the buffer apart from the others of its pool.
    pub tag: usize,
    /// What the draw stage records and the presentation stage submits.
    pub contents: T,
}

/// A frame buffer: contents of the caller's choosing under a tag that tells
/// the buffer apart from the others of its pool. A buffer cannot be copied,
/// and only a pool makes one, so whoever holds the value owns the buffer.
#[derive(Debug)]
pub struct Buffer<T> {
    tag: usize,
    contents: T,
}

impl<T> View for Buffer<T> {
    type V = BufferView<T>;

    closed spec fn view(&self) -> BufferView<T> {
        BufferView { tag: self.tag, contents: self.contents }
    }
}

impl<T> Buffer<T> {
    pub(crate) fn new(tag: usize, contents: T) -> (b: Self)
        ensures
            b@ == (BufferView { tag, contents }),
    {
        Buffer { tag, contents }
    }

    /// The tag of the buffer within its pool.
    pub fn tag(&self) -> (t: usize)
        ensures
            t == self@.tag,
    {
        self.tag
    }

    /// The contents, to read.
    pub fn contents(&self) -> (c: &T)
        ensures
            *c == self@.contents,
    {
        &self.contents
    }

    /// The contents, to write. The tag stays.
    pub fn contents_mut(&mut self) -> (c: &mut T)
        ensures
            *c == old(self)@.contents,
            final(self)@ == (BufferView { tag: old(self)@.tag, contents: *final(c) }),
    {
        &mut self.contents
    }
}

} // verus!
