//! Memory access modes and buffer usages.
//!
//! An [`Access`] names the host operations a mapping performs; a buffer's
//! [`Usage`] declares which host accesses, if any, the buffer grants.

use vstd::prelude::*;

verus! {

/// A host access mode. A single value serves two purposes: it names the
/// operation a mapping is requested for, and, as a capability, the set of
/// operations a `Persistent` buffer grants.
#[derive(Clone, Copy, Debug, PartialEq, Eq)]
pub enum Access {
    /// Host reads only.
    Read,
    /// Host writes only.
    Write,
    /// Host reads and writes.
    ReadWrite,
}

impl Access {
    /// This capability grants every operation of `requested`:
    /// `ReadWrite` grants everything, `Read` and `Write` only themselves.
    pub open spec fn grants(self, requested: Access) -> bool {
        match self {
            Access::ReadWrite => true,
            Access::Read => requested is Read,
            Access::Write => requested is Write,
        }
    }

    /// Executable test for [`Access::grants`].
    pub fn contains(self, requested: Access) -> (r: bool)
        ensures
            r == self.grants(requested),
    {
        match (self, requested) {
            (Access::ReadWrite, _) => true,
            (Access::Read, Access::Read) => true,
            (Access::Write, Access::Write) => true,
            _ => false,
        }
    }
}

/// Declared usage of a buffer. Only `Persistent` buffers may be mapped;
/// the carried [`Access`] is the capability set the buffer grants to
/// host mappings.
#[derive(Clone, Copy, Debug, PartialEq, Eq)]
pub enum Usage {
    /// Contents fixed at creation, read by the device only.
    Const,
    /// Device-local memory, never visible to the host.
    GpuOnly,
    /// Updated by the host through staging, not mappable directly.
    Dynamic,
    /// Host-visible staging memory, accessed through copies rather than
    /// through a mapping.
    CpuOnly(Access),
    /// Persistently mappable memory; the host may map it with any access
    /// mode the carried capability grants.
    Persistent(Access),
}

} // verus!
