//! GPU memory regions: a handle, a usage fixed at creation, and the bytes
//! last written.

use vstd::prelude::*;
use vstd::slice::slice_to_vec;

verus! {

/// What a buffer is for. It is chosen when the buffer is made and never
/// changes.
#[derive(Clone, Copy, Debug, PartialEq, Eq, Structural)]
pub enum BufferUsage {
    Vertex,
    Index,
    Uniform,
}

/// A buffer bound whole to a shader slot.
#[derive(Clone, Copy, Debug, PartialEq, Eq, Structural)]
pub struct BufferBinding {
    /// Handle of the bound buffer.
    pub buffer: usize,
    /// First bound byte.
    pub offset: usize,
    /// Number of bound bytes.
    pub size: usize,
}

/// The content of a buffer after `data` has been written over its start:
/// `data`, followed by what lay behind it before.
pub open spec fn overwritten(content: Seq<u8>, data: Seq<u8>) -> Seq<u8> {
    data + content.skip(data.len() as int)
}

/// Of two writes to one buffer the later one wins: its bytes are what the
/// buffer starts with afterwards. Where the later write covers the earlier
/// one, nothing of the earlier one is left, and where it covers the whole
/// buffer, the buffer holds exactly the later bytes.
pub proof fn lemma_last_write_wins(content: Seq<u8>, first: Seq<u8>, second: Seq<u8>)
    requires
        first.len() <= content.len(),
        second.len() <= content.len(),
    ensures
        overwritten(overwritten(content, first), second).len() == content.len(),
        overwritten(overwritten(content, first), second).take(second.len() as int) == second,
        first.len() <= second.len() ==> overwritten(overwritten(content, first), second)
            == overwritten(content, second),
        second.len() == content.len() ==> overwritten(overwritten(content, first), second)
            == second,
{
    let once = overwritten(content, first);
    let twice = overwritten(once, second);
    assert(twice.take(second.len() as int) =~= second);
    if first.len() <= second.len() {
        assert(twice =~= overwritten(content, second));
    }
    if second.len() == content.len() {
        assert(twice =~= second);
    }
}

/// A region of GPU memory.
#[derive(Debug)]
pub struct Buffer {
    id: usize,
    usage: BufferUsage,
    data: Vec<u8>,
}

impl View for Buffer {
    type V = Seq<u8>;

    closed spec fn view(&self) -> Seq<u8> {
        self.data@
    }
}

impl Buffer {
    /// The handle under which the backend keeps the allocation.
    pub closed spec fn handle(self) -> usize {
        self.id
    }

    /// What the buffer was made for.
    pub closed spec fn usage(self) -> BufferUsage {
        self.usage
    }

    /// The binding of the whole buffer.
    pub open spec fn whole(self) -> BufferBinding {
        BufferBinding { buffer: self.handle(), offset: 0, size: self@.len() as usize }
    }

    /// A buffer under handle `id` that holds a copy of `data`.
    pub fn new(id: usize, usage: BufferUsage, data: &[u8]) -> (buffer: Buffer)
        ensures
            buffer.handle() == id,
            buffer.usage() == usage,
            buffer@ == data@,
    {
        Buffer { id, usage, data: slice_to_vec(data) }
    }

    pub fn get_buf(&self) -> (id: usize)
        ensures
            id == self.handle(),
    {
        self.id
    }

    pub fn kind(&self) -> (usage: BufferUsage)
        ensures
            usage == self.usage(),
    {
        self.usage
    }

    pub fn len(&self) -> (len: usize)
        ensures
            len == self@.len(),
    {
        self.data.len()
    }

    /// The bytes the buffer holds.
    pub fn contents(&self) -> (bytes: &[u8])
        ensures
            bytes@ == self@,
    {
        self.data.as_slice()
    }

    pub fn binding_resource(&self) -> (binding: BufferBinding)
        ensures
            binding == self.whole(),
    {
        BufferBinding { buffer: self.id, offset: 0, size: self.data.len() }
    }

    /// Writes `data` over the start of the buffer. Handle, usage and
    /// length stay as they were.
    pub(crate) fn overwrite(&mut self, data: &[u8])
        requires
            data@.len() <= old(self)@.len(),
        ensures
            final(self)@ == overwritten(old(self)@, data@),
            final(self).handle() == old(self).handle(),
            final(self).usage() == old(self).usage(),
    {
        let mut i: usize = 0;
        while i < data.len()
            invariant
                i <= data@.len() <= self.data@.len(),
                self.data@.len() == old(self).data@.len(),
                self.id == old(self).id,
                self.usage == old(self).usage,
                forall|j: int| 0 <= j < i ==> self.data@[j] == data@[j],
                forall|j: int| i <= j < self.data@.len() ==> self.data@[j] == old(self).data@[j],
            decreases data@.len() - i,
        {
            self.data.set(i, data[i]);
            i += 1;
        }
        assert(self.data@ =~= overwritten(old(self).data@, data@));
    }
}

} // verus!
