//! Externally owned handles the mapping core works against: buffers and
//! fences.

use vstd::prelude::*;

use crate::memory::Usage;

verus! {

/// A point in device execution. The device signals the fence when it
/// reaches that point; the host observes it only by waiting.
#[derive(Clone, Copy, Debug, PartialEq, Eq)]
pub struct Fence {
    /// Identity of the fence among those the device has issued.
    pub id: u64,
}

impl Fence {
    /// Block until the device signals this fence. This is the one
    /// blocking point of the subsystem: it either completes or blocks
    /// forever, and reports nothing. In this model the device side is
    /// external, so completing the call is itself the observation that
    /// the fence was signaled.
    pub fn wait(&self) {
    }
}

/// A buffer as the mapping core sees it: an identity, a declared usage,
/// and whether a live mapping currently exists over it. The buffer's
/// memory itself is the backend's; the core only gates access to it.
pub struct RawBuffer {
    id: u64,
    usage: Usage,
    mapped: bool,
}

impl RawBuffer {
    /// Identity of the buffer.
    pub closed spec fn spec_id(self) -> u64 {
        self.id
    }

    /// The usage the buffer was declared with.
    pub closed spec fn spec_usage(self) -> Usage {
        self.usage
    }

    /// A live mapping currently exists over this buffer.
    pub closed spec fn is_mapped(self) -> bool {
        self.mapped
    }

    /// Describe a buffer: it starts with no live mapping.
    pub fn new(id: u64, usage: Usage) -> (b: RawBuffer)
        ensures
            b.spec_id() == id,
            b.spec_usage() == usage,
            !b.is_mapped(),
    {
        RawBuffer { id, usage, mapped: false }
    }

    /// Identity of the buffer.
    pub fn id(&self) -> (i: u64)
        ensures
            i == self.spec_id(),
    {
        self.id
    }

    /// The usage the buffer was declared with.
    pub fn usage(&self) -> (u: Usage)
        ensures
            u == self.spec_usage(),
    {
        self.usage
    }

    /// Whether a live mapping currently exists over this buffer.
    pub fn mapping(&self) -> (m: bool)
        ensures
            m == self.is_mapped(),
    {
        self.mapped
    }

    /// Record that a mapping was granted over this buffer. Only the
    /// mapping core calls this, as one atomic step with the `can_map`
    /// check.
    pub(crate) fn was_mapped(&mut self)
        ensures
            final(self).spec_id() == old(self).spec_id(),
            final(self).spec_usage() == old(self).spec_usage(),
            final(self).is_mapped(),
    {
        self.mapped = true;
    }

    /// The unmap notification: the live mapping over this buffer is gone.
    /// Only the destruction path of a mapping calls this, so the flag
    /// clears exactly once per mapping.
    pub(crate) fn was_unmapped(&mut self)
        ensures
            final(self).spec_id() == old(self).spec_id(),
            final(self).spec_usage() == old(self).spec_usage(),
            !final(self).is_mapped(),
    {
        self.mapped = false;
    }
}

} // verus!
