//! What the kinds of buffers have in common: each wraps one native buffer,
//! and a typed one knows how many elements it holds.

use vstd::prelude::*;
use core::marker::PhantomData;
use crate::buffer::sys::UnsafeBuffer;
use crate::buffer::sys::UnsafeBufferView;
use crate::pipeline::input_assembly::Index;

verus! {

/// The native buffer beneath a buffer, and where in it the buffer starts.
pub struct BufferInner<'a> {
    /// The native buffer.
    pub buffer: &'a UnsafeBuffer,
    /// The offset in bytes from the start of the native buffer.
    pub offset: usize,
}

/// Implemented by every kind of buffer.
pub trait BufferAccess {
    /// The native buffer beneath.
    spec fn raw(&self) -> UnsafeBufferView;

    /// The offset in bytes at which this buffer starts in the native buffer.
    spec fn start(&self) -> usize;

    /// The native buffer beneath, and where in it this buffer starts.
    fn inner(&self) -> (r: BufferInner<'_>)
        ensures
            r.buffer@ == self.raw(),
            r.offset == self.start(),
    ;
}

/// Implemented by every kind of buffer whose content has a type.
pub trait TypedBufferAccess: BufferAccess {
    /// The type of the content.
    type Content: ?Sized;

    /// The number of elements of the content.
    spec fn count(&self) -> usize;

    /// The number of elements of the content.
    fn len(&self) -> (n: usize)
        ensures
            n == self.count(),
    ;
}

/// A native buffer whose content is a slice of indices of type `I`.
pub struct TypedBuffer<I> {
    buffer: UnsafeBuffer,
    marker: PhantomData<I>,
}

impl<I: Index> TypedBuffer<I> {
    /// Takes `buffer` to hold indices of type `I`, as many as fit in it.
    pub fn from_buffer(buffer: UnsafeBuffer) -> (r: Self)
        ensures
            r.raw() == buffer@,
    {
        TypedBuffer { buffer, marker: PhantomData }
    }
}

impl<I> BufferAccess for TypedBuffer<I> {
    closed spec fn raw(&self) -> UnsafeBufferView {
        self.buffer@
    }

    open spec fn start(&self) -> usize {
        0
    }

    fn inner(&self) -> (r: BufferInner<'_>) {
        BufferInner { buffer: &self.buffer, offset: 0 }
    }
}

impl<I: Index> TypedBufferAccess for TypedBuffer<I> {
    type Content = [I];

    open spec fn count(&self) -> usize {
        (self.raw().size / I::index_type().bytes()) as usize
    }

    fn len(&self) -> (n: usize) {
        self.buffer.size() / I::ty().size()
    }
}

} // verus!
