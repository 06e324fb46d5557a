//! Buffers that request bodies are sent from: small ones are made as needed, one
//! large one is kept.

use vstd::array::ref_mut_array_unsizing_coercion;
use vstd::pervasive::unreached;
use vstd::prelude::*;

verus! {

/// The size of a small buffer, and the body size from which on a large one is used.
pub const REQUEST_BODY_SEND_STACK_BUFFER_SIZE: usize = 32768;

/// A large buffer.
pub struct HeapRequestBodyBuffer {
    pub buffer: [u8; 524288],
    pub cursor: usize,
}

impl HeapRequestBodyBuffer {
    /// A large buffer of zeros.
    pub fn init() -> (r: Box<HeapRequestBodyBuffer>)
        ensures
            r.cursor == 0,
            forall|i: int| 0 <= i < 524288 ==> #[trigger] r.buffer@[i] == 0,
    {
        Box::new(HeapRequestBodyBuffer { buffer: [0u8; 524288], cursor: 0 })
    }

    /// Gives a large buffer back: it is kept, at its start, if none is kept yet, and
    /// dropped if one is.
    pub fn put(self: Box<Self>, kept: &mut Option<Box<HeapRequestBodyBuffer>>)
        ensures
            *final(kept) == kept_after(*old(kept), RequestBodyBuffer::Heap(Some(self))),
    {
        if kept.is_none() {
            let mut buffer = self;
            buffer.cursor = 0;
            *kept = Some(buffer);
        }
    }
}

/// The buffer that a request body is sent from.
pub enum RequestBodyBuffer {
    /// A large buffer, until it is given back.
    Heap(Option<Box<HeapRequestBodyBuffer>>),
    /// A small buffer.
    Stack(Box<[u8; 32768]>),
}

impl RequestBodyBuffer {
    /// How many bytes the buffer holds.
    pub open spec fn size(&self) -> int {
        match self {
            RequestBodyBuffer::Heap(_) => 524288,
            RequestBodyBuffer::Stack(_) => 32768,
        }
    }

    /// The bytes of the buffer.
    pub open spec fn bytes(&self) -> Seq<u8> {
        match self {
            RequestBodyBuffer::Heap(heap) => heap->0.buffer@,
            RequestBodyBuffer::Stack(stack) => stack@,
        }
    }

    /// Where a large buffer stands.
    pub open spec fn cursor(&self) -> Option<usize> {
        match self {
            RequestBodyBuffer::Heap(Some(heap)) => Some(heap.cursor),
            _ => None,
        }
    }

    /// All of the buffer, to write to.
    pub fn allocated_slice(&mut self) -> (r: &mut [u8])
        requires
            *old(self) matches RequestBodyBuffer::Heap(heap) ==> heap is Some,
        ensures
            r@ == old(self).bytes(),
            r@.len() == old(self).size(),
            final(self).bytes() == final(r)@,
            final(self).size() == old(self).size(),
            final(self).cursor() == old(self).cursor(),
    {
        match self {
            RequestBodyBuffer::Heap(heap) => match heap {
                Some(h) => ref_mut_array_unsizing_coercion(&mut h.buffer),
                None => unreached(),
            },
            RequestBodyBuffer::Stack(stack) => ref_mut_array_unsizing_coercion(&mut **stack),
        }
    }

    /// An empty list, made with room for as many bytes as the buffer holds. How much
    /// room the allocator gave is no part of its value, and the contract leaves it open.
    pub fn to_array_list(&mut self) -> (r: Vec<u8>)
        requires
            *old(self) matches RequestBodyBuffer::Heap(heap) ==> heap is Some,
        ensures
            r@ == Seq::<u8>::empty(),
            *final(self) == *old(self),
    {
        let size: usize = match self {
            RequestBodyBuffer::Heap(_) => 524288,
            RequestBodyBuffer::Stack(_) => 32768,
        };
        Vec::with_capacity(size)
    }

    /// The body has been sent: a large buffer is given back.
    pub fn release(self, kept: &mut Option<Box<HeapRequestBodyBuffer>>)
        ensures
            *final(kept) == kept_after(*old(kept), self),
    {
        match self {
            RequestBodyBuffer::Heap(Some(used)) => used.put(kept),
            _ => {},
        }
    }
}

/// What is kept once a buffer has been given back: a large one, at its start, if none
/// is kept yet.
pub open spec fn kept_after(
    kept: Option<Box<HeapRequestBodyBuffer>>,
    buffer: RequestBodyBuffer,
) -> Option<Box<HeapRequestBodyBuffer>> {
    match (kept, buffer) {
        (None, RequestBodyBuffer::Heap(Some(used))) => Some(
            Box::new(HeapRequestBodyBuffer { cursor: 0, buffer: used.buffer }),
        ),
        _ => kept,
    }
}

/// The buffer that is lent for a body of about `estimated_size` bytes: the kept large
/// buffer, or a new one, or for a small body a small buffer of zeros.
pub open spec fn lends(
    kept: Option<Box<HeapRequestBodyBuffer>>,
    estimated_size: usize,
    r: RequestBodyBuffer,
) -> bool {
    if estimated_size < REQUEST_BODY_SEND_STACK_BUFFER_SIZE {
        &&& r is Stack
        &&& forall|i: int| 0 <= i < 32768 ==> #[trigger] r.bytes()[i] == 0
    } else {
        &&& r matches RequestBodyBuffer::Heap(Some(buffer))
        &&& kept matches Some(b) ==> buffer == b
        &&& kept is None ==> buffer.cursor == 0 && forall|i: int|
            0 <= i < 524288 ==> #[trigger] buffer.buffer@[i] == 0
    }
}

/// The buffer for a body of about `estimated_size` bytes; a large one is no longer
/// kept while it is lent.
pub(super) fn get_request_body_send_buffer(
    kept: &mut Option<Box<HeapRequestBodyBuffer>>,
    estimated_size: usize,
) -> (r: RequestBodyBuffer)
    ensures
        lends(*old(kept), estimated_size, r),
        *final(kept) == if estimated_size < REQUEST_BODY_SEND_STACK_BUFFER_SIZE {
            *old(kept)
        } else {
            None
        },
{
    if estimated_size >= REQUEST_BODY_SEND_STACK_BUFFER_SIZE {
        if kept.is_none() {
            return RequestBodyBuffer::Heap(Some(HeapRequestBodyBuffer::init()));
        }
        return RequestBodyBuffer::Heap(kept.take());
    }
    RequestBodyBuffer::Stack(Box::new([0u8; 32768]))
}

/// A large buffer that was given back is the one that is lent next.
pub proof fn large_buffers_are_reused(
    kept: Option<Box<HeapRequestBodyBuffer>>,
    given_back: RequestBodyBuffer,
    estimated_size: usize,
    lent: RequestBodyBuffer,
)
    requires
        kept is None,
        given_back matches RequestBodyBuffer::Heap(used) && used is Some,
        estimated_size >= REQUEST_BODY_SEND_STACK_BUFFER_SIZE,
        lends(kept_after(kept, given_back), estimated_size, lent),
    ensures
        lent.bytes() == given_back.bytes(),
{
}

/// At most one large buffer is kept: a second one that is given back changes nothing.
pub proof fn one_large_buffer_is_kept(
    kept: Option<Box<HeapRequestBodyBuffer>>,
    first: RequestBodyBuffer,
    second: RequestBodyBuffer,
)
    requires
        first matches RequestBodyBuffer::Heap(used) && used is Some,
    ensures
        kept_after(kept_after(kept, first), second) == kept_after(kept, first),
{
}

} // verus!
