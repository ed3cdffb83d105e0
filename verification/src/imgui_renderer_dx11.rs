//! What the Direct3D 11 renderer of the UI decides about its buffers.

use vstd::prelude::*;

verus! {

/// The witness that a frame was rendered.
#[derive(PartialEq, Eq, Copy, Clone, Debug, Structural)]
pub struct RenderToken;

/// How many vertices a vertex buffer holds beyond what was asked for.
pub const VERTEX_BUF_ADD_CAPACITY: usize = 5000;

/// How many indices an index buffer holds beyond what was asked for.
pub const INDEX_BUF_ADD_CAPACITY: usize = 10000;

/// `DXGI_FORMAT_R16_UINT`.
pub const DXGI_FORMAT_R16_UINT: u32 = 57;

/// `DXGI_FORMAT_R32_UINT`.
pub const DXGI_FORMAT_R32_UINT: u32 = 42;

/// The length of a buffer on the device that grows in steps: whenever
/// it is too short it is made anew, `ADD_CAPACITY` elements longer than
/// what was asked for.
#[derive(PartialEq, Eq, Copy, Clone, Debug)]
pub struct ImGuiBuffer<const ADD_CAPACITY: usize> {
    len: usize,
}

impl<const ADD_CAPACITY: usize> ImGuiBuffer<ADD_CAPACITY> {
    /// The number of elements that the buffer holds.
    pub closed spec fn spec_len(&self) -> usize {
        self.len
    }

    /// The buffer as first created: of `ADD_CAPACITY` elements.
    pub fn new() -> (buffer: Self)
        ensures
            buffer.len() == ADD_CAPACITY,
    {
        ImGuiBuffer { len: ADD_CAPACITY }
    }

    /// The number of elements that the buffer holds.
    #[verifier::when_used_as_spec(spec_len)]
    pub fn len(&self) -> (len: usize)
        ensures
            len == self.spec_len(),
    {
        self.len
    }

    /// Makes room for `count` elements. Returns the length at which the
    /// buffer has to be created anew, or `None` where it is long enough
    /// as it is.
    pub fn reserve(&mut self, count: usize) -> (create: Option<usize>)
        requires
            count + ADD_CAPACITY <= usize::MAX,
        ensures
            create == if old(self).len() < count {
                Some((count + ADD_CAPACITY) as usize)
            } else {
                None
            },
            final(self).len() == if old(self).len() < count {
                (count + ADD_CAPACITY) as usize
            } else {
                old(self).len()
            },
            final(self).len() >= count,
    {
        if self.len < count {
            let len = count + ADD_CAPACITY;
            self.len = len;
            Some(len)
        } else {
            None
        }
    }
}

/// The format of the indices of a draw call, by the size of an index in
/// bytes.
pub fn idx_format(index_bytes: usize) -> (format: u32)
    ensures
        format == if index_bytes == 2 {
            DXGI_FORMAT_R16_UINT
        } else {
            DXGI_FORMAT_R32_UINT
        },
{
    if index_bytes == 2 {
        DXGI_FORMAT_R16_UINT
    } else {
        DXGI_FORMAT_R32_UINT
    }
}

} // verus!
