//! A host-memory backend: the reference [`Gate`] implementation, backed
//! by plain host memory, and a factory offering the view builders. It
//! lets the mapping core run end to end without a device, and shows what
//! a backend owes the core.

use vstd::prelude::*;

use crate::mapping::{Builder, Gate};

verus! {

/// A mapped region living in host memory.
pub struct HostMapping<T> {
    data: Vec<T>,
}

impl<T: Copy> HostMapping<T> {
    /// Wrap host memory as a mappable resource.
    pub fn new(data: Vec<T>) -> (m: HostMapping<T>)
        ensures
            m.contents() == data@,
    {
        HostMapping { data }
    }

    /// Hand the memory back, for example to map it afresh.
    pub fn into_vec(self) -> (v: Vec<T>)
        ensures
            v@ == self.contents(),
    {
        self.data
    }
}

impl<T: Copy> Gate for HostMapping<T> {
    type Elem = T;

    closed spec fn contents(&self) -> Seq<T> {
        self.data@
    }

    fn read_at(&self, index: usize) -> (v: T) {
        self.data[index]
    }

    fn set(&mut self, index: usize, val: T) {
        self.data[index] = val;
    }
}

/// A factory over host memory. It carries no state of its own; it exists
/// to offer the provided view builders.
pub struct HostFactory;

impl Builder for HostFactory {
}

} // verus!
