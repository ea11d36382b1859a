//! The capacity of the device's vertex and index buffers.
//!
//! A device buffer cannot grow. Where a frame needs more than the buffer
//! holds, a larger one is created in its place, with room to spare so that
//! the next larger frame does not need another at once.

use vstd::prelude::*;

verus! {

/// The vertices that a new vertex buffer holds beyond what the frame needs.
pub const VERTEX_BUF_ADD_CAPACITY: usize = 5000;

/// The indices that a new index buffer holds beyond what the frame needs.
pub const INDEX_BUF_ADD_CAPACITY: usize = 10000;

/// Which of the two buffers.
#[derive(Clone, Copy, Debug, PartialEq, Eq)]
pub enum BufferKind {
    Vertex,
    Index,
}

impl BufferKind {
    /// The room to spare in a new buffer of this kind.
    pub open spec fn spec_slack(self) -> nat {
        match self {
            BufferKind::Vertex => VERTEX_BUF_ADD_CAPACITY as nat,
            BufferKind::Index => INDEX_BUF_ADD_CAPACITY as nat,
        }
    }

    /// The room to spare in a new buffer of this kind.
    pub fn slack(self) -> (slack: usize)
        ensures
            slack == self.spec_slack(),
    {
        match self {
            BufferKind::Vertex => VERTEX_BUF_ADD_CAPACITY,
            BufferKind::Index => INDEX_BUF_ADD_CAPACITY,
        }
    }
}

/// The elements that a buffer can take: none where there is no buffer yet.
pub open spec fn capacity_of(held: Option<usize>) -> nat {
    match held {
        Some(capacity) => capacity as nat,
        None => 0,
    }
}

/// A buffer must be created: there is none yet, or the one held is too small.
pub open spec fn needs_growth(held: Option<usize>, required: nat) -> bool {
    held is None || held->0 < required
}

/// The capacity of the buffer that is created for `required` elements.
pub open spec fn grown_capacity(kind: BufferKind, required: nat) -> nat {
    required + kind.spec_slack()
}

/// What the renderer knows of one of the device's buffers: whether there is
/// one, and how many elements it takes. The buffer itself is the host's.
#[derive(Debug, PartialEq, Eq)]
pub struct GpuBuffer {
    capacity: Option<usize>,
}

impl View for GpuBuffer {
    type V = Option<usize>;

    /// The capacity of the buffer held, if one is held.
    closed spec fn view(&self) -> Option<usize> {
        self.capacity
    }
}

impl GpuBuffer {
    /// No buffer yet: the first frame creates one.
    pub fn new() -> (buffer: GpuBuffer)
        ensures
            buffer@ is None,
    {
        GpuBuffer { capacity: None }
    }

    /// The elements that the buffer takes.
    pub fn capacity(&self) -> (capacity: usize)
        ensures
            capacity == capacity_of(self@),
    {
        match self.capacity {
            Some(capacity) => capacity,
            None => 0,
        }
    }

    /// The capacity of the buffer to create in place of this one, where this
    /// one cannot take the `required` elements of the kind; `None` where it
    /// can.
    pub fn ensure_capacity(&self, kind: BufferKind, required: usize) -> (len: Option<usize>)
        requires
            grown_capacity(kind, required as nat) <= usize::MAX,
        ensures
            len is Some <==> needs_growth(self@, required as nat),
            len is Some ==> len->0 == grown_capacity(kind, required as nat),
    {
        let sufficient = match self.capacity {
            Some(capacity) => capacity >= required,
            None => false,
        };
        if sufficient {
            None
        } else {
            Some(required + kind.slack())
        }
    }

    /// Takes note that the device has created a buffer of `len` elements in
    /// place of the one held.
    pub fn replace(&mut self, len: usize)
        ensures
            final(self)@ == Some(len),
    {
        self.capacity = Some(len);
    }
}

} // verus!
