//! Memory mapping: the synchronization core.
//!
//! A host mapping of a buffer passes three gates. First the access
//! policy: [`validate`] admits a request only when the buffer's usage is
//! `Persistent` and its capability set grants the requested access, and
//! [`can_map`] additionally refuses a buffer that already has a live
//! mapping. Second, exclusivity: a [`Raw`] mapping hands its state out to
//! at most one guard at a time, so host readers and writers of one
//! mapping never overlap. Third, device synchronization: before a guard
//! is produced, the mapping's [`Status`] drains any outstanding device
//! dependency by waiting on the recorded fence.
//!
//! Typed views ([`Readable`], [`Writable`], [`RWable`]) wrap one raw
//! mapping with an element count and expose the scoped guards
//! ([`Reader`], [`Writer`], [`RWer`]); a [`Builder`] constructs them on
//! the factory side.

use vstd::prelude::*;

use crate::handle::{Fence, RawBuffer};
use crate::memory::{Access, Usage};

verus! {

/// Why a mapping request was refused. Both cases surface at creation
/// time and are recoverable; every in-guard misuse is a caller bug and
/// is excluded by contract instead.
#[derive(Clone, Copy, Debug, PartialEq, Eq)]
pub enum Error {
    /// The buffer's usage does not grant the requested access.
    InvalidAccess(Access, Usage),
    /// The buffer already has a live mapping.
    AlreadyMapped,
}

/// The access policy admits the request: the usage is `Persistent` and
/// its capability set grants the requested access.
pub open spec fn validate_ok(access: Access, usage: Usage) -> bool {
    match usage {
        Usage::Persistent(allowed) => allowed.grants(access),
        _ => false,
    }
}

/// A new mapping with mode `access` may be created over `buffer`: the
/// access policy admits it and no mapping is currently live.
pub open spec fn can_map_ok(access: Access, buffer: RawBuffer) -> bool {
    validate_ok(access, buffer.spec_usage()) && !buffer.is_mapped()
}

/// Access policy: admit the request iff the usage is `Persistent` and its
/// capability set grants `access`. Pure; called before any mapping is
/// constructed.
pub fn validate(access: Access, usage: Usage) -> (r: Result<(), Error>)
    ensures
        r is Ok <==> validate_ok(access, usage),
        !validate_ok(access, usage) ==> r == Err::<(), Error>(Error::InvalidAccess(access, usage)),
{
    match usage {
        Usage::Persistent(allowed) => {
            if allowed.contains(access) {
                Ok(())
            } else {
                Err(Error::InvalidAccess(access, usage))
            }
        },
        _ => Err(Error::InvalidAccess(access, usage)),
    }
}

/// The sole gate for creating a mapping: run the access policy, then
/// refuse a buffer that already reports a live mapping.
pub fn can_map(access: Access, buffer: &RawBuffer) -> (r: Result<(), Error>)
    ensures
        r is Ok <==> can_map_ok(access, *buffer),
        !validate_ok(access, buffer.spec_usage()) ==> r == Err::<(), Error>(
            Error::InvalidAccess(access, buffer.spec_usage()),
        ),
        validate_ok(access, buffer.spec_usage()) && buffer.is_mapped() ==> r == Err::<(), Error>(
            Error::AlreadyMapped,
        ),
{
    match validate(access, buffer.usage()) {
        Ok(()) => {
            if buffer.mapping() {
                Err(Error::AlreadyMapped)
            } else {
                Ok(())
            }
        },
        Err(e) => Err(e),
    }
}

/// Host/device synchronization state of one mapping.
#[derive(Clone, Copy, Debug, PartialEq, Eq)]
pub struct Status {
    /// The host has written since the last device synchronization point.
    pub cpu_write: bool,
    /// The fence of the most recent device work touching this memory that
    /// has not been waited on yet, if any.
    pub gpu_access: Option<Fence>,
}

impl Status {
    /// No host write recorded and no outstanding device dependency.
    pub open spec fn is_clean(self) -> bool {
        !self.cpu_write && self.gpu_access is None
    }

    /// A fresh status, as every mapping starts.
    pub fn clean() -> (s: Status)
        ensures
            s.is_clean(),
    {
        Status { cpu_write: false, gpu_access: None }
    }

    /// Drain the outstanding device dependency, if any: wait on the
    /// recorded fence, then clear it. Idempotent: with no dependency
    /// recorded the status is left untouched.
    pub fn sync(&mut self)
        ensures
            final(self).gpu_access is None,
            final(self).cpu_write == old(self).cpu_write,
            old(self).gpu_access is None ==> *final(self) == *old(self),
    {
        match self.gpu_access.take() {
            Some(fence) => fence.wait(),
            None => (),
        }
    }

    /// Synchronize against the device, then record that the host is about
    /// to write.
    pub fn begin_write(&mut self)
        ensures
            final(self).gpu_access is None,
            final(self).cpu_write,
    {
        self.sync();
        self.cpu_write = true;
    }
}

/// Backend capability interface of one mapped memory resource: bounded
/// element reads and writes over the mapped region, plus two hooks the
/// core runs at fixed points before handing out a guard. The hooks come
/// provided as no-ops; a backend that must invalidate caches before a
/// read or flush them before a write overrides them, and either way must
/// leave the logical mapping state unchanged.
pub trait Gate: Sized {
    /// The element type the resource stores.
    type Elem;

    /// The elements currently in the mapped region.
    spec fn contents(&self) -> Seq<Self::Elem>;

    /// Read the element at `index`.
    fn read_at(&self, index: usize) -> (v: Self::Elem)
        requires
            index < self.contents().len(),
        ensures
            v == self.contents()[index as int],
    ;

    /// Set the element at `index` to `val`.
    fn set(&mut self, index: usize, val: Self::Elem)
        requires
            index < old(self).contents().len(),
        ensures
            final(self).contents() == old(self).contents().update(index as int, val),
    ;

    /// Hook run before a read guard is handed out.
    fn before_read(inner: &mut RawInner<Self>)
        ensures
            final(inner).resource.contents() == old(inner).resource.contents(),
            final(inner).buffer_id == old(inner).buffer_id,
            final(inner).access == old(inner).access,
            final(inner).status == old(inner).status,
    {
    }

    /// Hook run before a write guard is handed out.
    fn before_write(inner: &mut RawInner<Self>)
        ensures
            final(inner).resource.contents() == old(inner).resource.contents(),
            final(inner).buffer_id == old(inner).buffer_id,
            final(inner).access == old(inner).access,
            final(inner).status == old(inner).status,
    {
    }
}

/// The state of one live mapping. The raw mapping owns it exclusively and
/// hands it out whole as the access guard, which is what serializes host
/// access: while a guard is out, nothing else can reach this state.
pub struct RawInner<M: Gate> {
    /// The backend memory resource the mapping exposes.
    pub resource: M,
    /// Identity of the buffer the mapping was granted over.
    pub buffer_id: u64,
    /// The access mode the mapping was granted with.
    pub access: Access,
    /// Host/device synchronization state.
    pub status: Status,
}

/// Raw mapping: the synchronization core. It holds the mapping state and
/// gives it out to at most one guard at a time; while a guard is
/// outstanding every further acquisition reports contention. A raw
/// mapping is created at most once per live mapping of a buffer and is
/// consumed, never re-mapped, when the view over it is dropped.
pub struct Raw<M: Gate> {
    inner: Option<RawInner<M>>,
}

impl<M: Gate> Raw<M> {
    /// No guard is outstanding.
    pub closed spec fn is_free(self) -> bool {
        self.inner is Some
    }

    /// The mapping state, meaningful while no guard is outstanding.
    pub closed spec fn spec_inner(self) -> RawInner<M>
        recommends
            self.is_free(),
    {
        self.inner->Some_0
    }

    /// How many elements the mapped region holds.
    pub open spec fn capacity(self) -> nat
        recommends
            self.is_free(),
    {
        self.spec_inner().resource.contents().len()
    }

    /// Create the sole mapping over `buffer`. Runs [`can_map`]; on
    /// success it marks the buffer mapped — one atomic check-and-set, so
    /// two mappings can never be granted over one buffer — and invokes
    /// the backend-supplied resource constructor. On failure the buffer
    /// is left untouched and the constructor is never invoked.
    pub fn new<F: FnOnce() -> M>(access: Access, buffer: &mut RawBuffer, f: F) -> (r: Result<
        Raw<M>,
        Error,
    >)
        requires
            call_requires(f, ()),
        ensures
            r is Ok <==> can_map_ok(access, *old(buffer)),
            r is Err ==> *final(buffer) == *old(buffer),
            !validate_ok(access, old(buffer).spec_usage()) ==> r == Err::<Raw<M>, Error>(
                Error::InvalidAccess(access, old(buffer).spec_usage()),
            ),
            validate_ok(access, old(buffer).spec_usage()) && old(buffer).is_mapped() ==> r
                == Err::<Raw<M>, Error>(Error::AlreadyMapped),
            r matches Ok(raw) ==> {
                &&& final(buffer).spec_id() == old(buffer).spec_id()
                &&& final(buffer).spec_usage() == old(buffer).spec_usage()
                &&& final(buffer).is_mapped()
                &&& raw.is_free()
                &&& raw.spec_inner().access == access
                &&& raw.spec_inner().buffer_id == old(buffer).spec_id()
                &&& raw.spec_inner().status.is_clean()
                &&& call_ensures(f, (), raw.spec_inner().resource)
            },
    {
        match can_map(access, buffer) {
            Ok(()) => {
                buffer.was_mapped();
                let inner = RawInner {
                    resource: f(),
                    buffer_id: buffer.id(),
                    access,
                    status: Status::clean(),
                };
                Ok(Raw { inner: Some(inner) })
            },
            Err(e) => Err(e),
        }
    }

    /// Attempt a non-blocking exclusive acquisition. `None` is not an
    /// error: it signals that another guard is currently held, and the
    /// caller should treat it as transient contention.
    pub fn access(&mut self) -> (g: Option<RawInner<M>>)
        ensures
            old(self).is_free() ==> g == Some(old(self).spec_inner()) && !final(self).is_free(),
            !old(self).is_free() ==> g is None && *final(self) == *old(self),
    {
        self.inner.take()
    }

    /// Return a guard, making the mapping state available again.
    pub fn release(&mut self, g: RawInner<M>)
        requires
            !old(self).is_free(),
        ensures
            final(self).is_free(),
            final(self).spec_inner() == g,
    {
        self.inner = Some(g);
    }

    /// Observe the synchronization status without acquiring a guard.
    pub fn status(&self) -> (s: Option<Status>)
        ensures
            self.is_free() ==> s == Some(self.spec_inner().status),
            !self.is_free() ==> s is None,
    {
        match &self.inner {
            Some(inner) => Some(inner.status),
            None => None,
        }
    }

    /// Acquire the guard, run the backend's pre-read hook, synchronize
    /// against the device, and hand out a reader over the first `len`
    /// elements. Acquisition while another guard is live, or a `len`
    /// beyond the mapped region, is a caller bug and excluded by
    /// contract; the views discharge the length bound once, at build
    /// time.
    fn read(&mut self, len: usize) -> (r: Reader<M>)
        requires
            old(self).is_free(),
            len <= old(self).capacity(),
        ensures
            !final(self).is_free(),
            r.wf(),
            r.spec_len() == len,
            r.spec_inner().resource.contents() == old(self).spec_inner().resource.contents(),
            r.spec_inner().buffer_id == old(self).spec_inner().buffer_id,
            r.spec_inner().access == old(self).spec_inner().access,
            r.spec_inner().status.gpu_access is None,
            r.spec_inner().status.cpu_write == old(self).spec_inner().status.cpu_write,
    {
        let mut inner = self.inner.take().unwrap();
        M::before_read(&mut inner);
        inner.status.sync();
        Reader { inner, len }
    }

    /// Acquire the guard, run the backend's pre-write hook, synchronize
    /// against the device, record the host write, and hand out a writer
    /// bounded to `len` elements.
    fn write(&mut self, len: usize) -> (w: Writer<M>)
        requires
            old(self).is_free(),
            len <= old(self).capacity(),
        ensures
            !final(self).is_free(),
            w.wf(),
            w.spec_len() == len,
            w.spec_inner().resource.contents() == old(self).spec_inner().resource.contents(),
            w.spec_inner().buffer_id == old(self).spec_inner().buffer_id,
            w.spec_inner().access == old(self).spec_inner().access,
            w.spec_inner().status.gpu_access is None,
            w.spec_inner().status.cpu_write,
    {
        let mut inner = self.inner.take().unwrap();
        M::before_write(&mut inner);
        inner.status.begin_write();
        Writer { inner, len }
    }

    /// Acquire the guard, run both backend hooks, synchronize against the
    /// device, record the host write, and hand out a combined
    /// reader-writer over the first `len` elements.
    fn read_write(&mut self, len: usize) -> (rw: RWer<M>)
        requires
            old(self).is_free(),
            len <= old(self).capacity(),
        ensures
            !final(self).is_free(),
            rw.wf(),
            rw.spec_len() == len,
            rw.spec_inner().resource.contents() == old(self).spec_inner().resource.contents(),
            rw.spec_inner().buffer_id == old(self).spec_inner().buffer_id,
            rw.spec_inner().access == old(self).spec_inner().access,
            rw.spec_inner().status.gpu_access is None,
            rw.spec_inner().status.cpu_write,
    {
        let mut inner = self.inner.take().unwrap();
        M::before_read(&mut inner);
        M::before_write(&mut inner);
        inner.status.begin_write();
        RWer { inner, len }
    }
}

/// Scoped read guard of a mapping: it owns the mapping state for its
/// whole lifetime, so no other guard can exist until it is given back,
/// and it exposes the first `len` elements of the mapped region.
pub struct Reader<M: Gate> {
    inner: RawInner<M>,
    len: usize,
}

impl<M: Gate> Reader<M> {
    /// The mapping state this guard holds.
    pub closed spec fn spec_inner(self) -> RawInner<M> {
        self.inner
    }

    /// How many elements the guard exposes.
    pub closed spec fn spec_len(self) -> usize {
        self.len
    }

    /// The exposed element count fits the mapped region.
    pub open spec fn wf(self) -> bool {
        self.spec_len() <= self.spec_inner().resource.contents().len()
    }

    /// The elements visible through this reader.
    pub open spec fn contents(self) -> Seq<M::Elem>
        recommends
            self.wf(),
    {
        self.spec_inner().resource.contents().take(self.spec_len() as int)
    }

    /// How many elements the guard exposes.
    pub fn len(&self) -> (n: usize)
        ensures
            n == self.spec_len(),
    {
        self.len
    }

    /// Read element `index` of the mapped region.
    pub fn get(&self, index: usize) -> (v: M::Elem)
        requires
            self.wf(),
            index < self.spec_len(),
        ensures
            v == self.contents()[index as int],
    {
        self.inner.resource.read_at(index)
    }
}

/// Scoped write guard of a mapping. Every write goes through the
/// bounds-checked [`Writer::set`]; the guard never exposes the region
/// wholesale.
pub struct Writer<M: Gate> {
    inner: RawInner<M>,
    len: usize,
}

impl<M: Gate> Writer<M> {
    /// The mapping state this guard holds.
    pub closed spec fn spec_inner(self) -> RawInner<M> {
        self.inner
    }

    /// How many elements the guard exposes.
    pub closed spec fn spec_len(self) -> usize {
        self.len
    }

    /// The exposed element count fits the mapped region.
    pub open spec fn wf(self) -> bool {
        self.spec_len() <= self.spec_inner().resource.contents().len()
    }

    /// The elements visible through this writer.
    pub open spec fn contents(self) -> Seq<M::Elem>
        recommends
            self.wf(),
    {
        self.spec_inner().resource.contents().take(self.spec_len() as int)
    }

    /// How many elements the guard exposes.
    pub fn len(&self) -> (n: usize)
        ensures
            n == self.spec_len(),
    {
        self.len
    }

    /// Set element `index` of the mapped region to `value`. Every index
    /// below the writer's element count is accepted; an index at or past
    /// it is a caller bug, excluded by contract rather than reported.
    pub fn set(&mut self, index: usize, value: M::Elem)
        requires
            old(self).wf(),
            index < old(self).spec_len(),
        ensures
            final(self).wf(),
            final(self).spec_len() == old(self).spec_len(),
            final(self).contents() == old(self).contents().update(index as int, value),
            final(self).spec_inner().resource.contents() == old(
                self,
            ).spec_inner().resource.contents().update(index as int, value),
            final(self).spec_inner().buffer_id == old(self).spec_inner().buffer_id,
            final(self).spec_inner().access == old(self).spec_inner().access,
            final(self).spec_inner().status == old(self).spec_inner().status,
    {
        self.inner.resource.set(index, value);
    }
}

/// Scoped combined guard of a mapping: reads and writes through one
/// acquisition.
pub struct RWer<M: Gate> {
    inner: RawInner<M>,
    len: usize,
}

impl<M: Gate> RWer<M> {
    /// The mapping state this guard holds.
    pub closed spec fn spec_inner(self) -> RawInner<M> {
        self.inner
    }

    /// How many elements the guard exposes.
    pub closed spec fn spec_len(self) -> usize {
        self.len
    }

    /// The exposed element count fits the mapped region.
    pub open spec fn wf(self) -> bool {
        self.spec_len() <= self.spec_inner().resource.contents().len()
    }

    /// The elements visible through this guard.
    pub open spec fn contents(self) -> Seq<M::Elem>
        recommends
            self.wf(),
    {
        self.spec_inner().resource.contents().take(self.spec_len() as int)
    }

    /// How many elements the guard exposes.
    pub fn len(&self) -> (n: usize)
        ensures
            n == self.spec_len(),
    {
        self.len
    }

    /// Read element `index` of the mapped region.
    pub fn get(&self, index: usize) -> (v: M::Elem)
        requires
            self.wf(),
            index < self.spec_len(),
        ensures
            v == self.contents()[index as int],
    {
        self.inner.resource.read_at(index)
    }

    /// Set element `index` of the mapped region to `value`, under the
    /// same bounds rule as [`Writer::set`].
    pub fn set(&mut self, index: usize, value: M::Elem)
        requires
            old(self).wf(),
            index < old(self).spec_len(),
        ensures
            final(self).wf(),
            final(self).spec_len() == old(self).spec_len(),
            final(self).contents() == old(self).contents().update(index as int, value),
            final(self).spec_inner().resource.contents() == old(
                self,
            ).spec_inner().resource.contents().update(index as int, value),
            final(self).spec_inner().buffer_id == old(self).spec_inner().buffer_id,
            final(self).spec_inner().access == old(self).spec_inner().access,
            final(self).spec_inner().status == old(self).spec_inner().status,
    {
        self.inner.resource.set(index, value);
    }
}

/// Readable mapping: one raw mapping under a fixed element count, handing
/// out read guards.
pub struct Readable<M: Gate> {
    raw: Raw<M>,
    len: usize,
}

impl<M: Gate> Readable<M> {
    /// The raw mapping under this view.
    pub closed spec fn spec_raw(self) -> Raw<M> {
        self.raw
    }

    /// The element count the view was built with.
    pub closed spec fn spec_len(self) -> usize {
        self.len
    }

    /// The view is idle: no guard is out, and its element count fits the
    /// mapped region. The builder establishes this and every guard
    /// round-trip restores it.
    pub open spec fn ready(self) -> bool {
        self.spec_raw().is_free() && self.spec_len() <= self.spec_raw().capacity()
    }

    /// The elements visible through this view.
    pub open spec fn contents(self) -> Seq<M::Elem>
        recommends
            self.ready(),
    {
        self.spec_raw().spec_inner().resource.contents().take(self.spec_len() as int)
    }

    /// The element count the view was built with.
    pub fn len(&self) -> (n: usize)
        ensures
            n == self.spec_len(),
    {
        self.len
    }

    /// The raw mapping under this view.
    pub fn raw(&self) -> (r: &Raw<M>)
        ensures
            *r == self.spec_raw(),
    {
        &self.raw
    }

    /// Acquire a read guard: synchronize against the device, then expose
    /// the view's elements.
    pub fn read(&mut self) -> (r: Reader<M>)
        requires
            old(self).ready(),
        ensures
            !final(self).spec_raw().is_free(),
            final(self).spec_len() == old(self).spec_len(),
            r.wf(),
            r.spec_len() == old(self).spec_len(),
            r.contents() == old(self).contents(),
            r.spec_inner().status.gpu_access is None,
            r.spec_inner().status.cpu_write == old(
                self,
            ).spec_raw().spec_inner().status.cpu_write,
            r.spec_inner().buffer_id == old(self).spec_raw().spec_inner().buffer_id,
            r.spec_inner().access == old(self).spec_raw().spec_inner().access,
    {
        self.raw.read(self.len)
    }

    /// Give the read guard back, making the view ready again.
    pub fn end_read(&mut self, r: Reader<M>)
        requires
            !old(self).spec_raw().is_free(),
            r.wf(),
            r.spec_len() == old(self).spec_len(),
        ensures
            final(self).ready(),
            final(self).spec_len() == old(self).spec_len(),
            final(self).spec_raw().spec_inner() == r.spec_inner(),
            final(self).contents() == r.contents(),
    {
        self.raw.release(r.inner);
    }

    /// Drop the view: the unmap notification fires, exactly once, on this
    /// one destruction path, and the backend resource is handed back.
    pub fn unmap(self, buffer: &mut RawBuffer) -> (m: M)
        requires
            self.spec_raw().is_free(),
            old(buffer).spec_id() == self.spec_raw().spec_inner().buffer_id,
        ensures
            final(buffer).spec_id() == old(buffer).spec_id(),
            final(buffer).spec_usage() == old(buffer).spec_usage(),
            !final(buffer).is_mapped(),
            m == self.spec_raw().spec_inner().resource,
    {
        buffer.was_unmapped();
        let inner = self.raw.inner.unwrap();
        inner.resource
    }
}

/// Writable mapping: one raw mapping under a fixed element count, handing
/// out write guards.
pub struct Writable<M: Gate> {
    raw: Raw<M>,
    len: usize,
}

impl<M: Gate> Writable<M> {
    /// The raw mapping under this view.
    pub closed spec fn spec_raw(self) -> Raw<M> {
        self.raw
    }

    /// The element count the view was built with.
    pub closed spec fn spec_len(self) -> usize {
        self.len
    }

    /// The view is idle: no guard is out, and its element count fits the
    /// mapped region.
    pub open spec fn ready(self) -> bool {
        self.spec_raw().is_free() && self.spec_len() <= self.spec_raw().capacity()
    }

    /// The elements visible through this view.
    pub open spec fn contents(self) -> Seq<M::Elem>
        recommends
            self.ready(),
    {
        self.spec_raw().spec_inner().resource.contents().take(self.spec_len() as int)
    }

    /// The element count the view was built with.
    pub fn len(&self) -> (n: usize)
        ensures
            n == self.spec_len(),
    {
        self.len
    }

    /// The raw mapping under this view.
    pub fn raw(&self) -> (r: &Raw<M>)
        ensures
            *r == self.spec_raw(),
    {
        &self.raw
    }

    /// Acquire a write guard: synchronize against the device, record the
    /// host write, then accept bounded element writes.
    pub fn write(&mut self) -> (w: Writer<M>)
        requires
            old(self).ready(),
        ensures
            !final(self).spec_raw().is_free(),
            final(self).spec_len() == old(self).spec_len(),
            w.wf(),
            w.spec_len() == old(self).spec_len(),
            w.contents() == old(self).contents(),
            w.spec_inner().status.gpu_access is None,
            w.spec_inner().status.cpu_write,
            w.spec_inner().buffer_id == old(self).spec_raw().spec_inner().buffer_id,
            w.spec_inner().access == old(self).spec_raw().spec_inner().access,
    {
        self.raw.write(self.len)
    }

    /// Give the write guard back, making the view ready again; the view
    /// then holds whatever the writer wrote.
    pub fn end_write(&mut self, w: Writer<M>)
        requires
            !old(self).spec_raw().is_free(),
            w.wf(),
            w.spec_len() == old(self).spec_len(),
        ensures
            final(self).ready(),
            final(self).spec_len() == old(self).spec_len(),
            final(self).spec_raw().spec_inner() == w.spec_inner(),
            final(self).contents() == w.contents(),
    {
        self.raw.release(w.inner);
    }

    /// Drop the view: the unmap notification fires, exactly once, on this
    /// one destruction path, and the backend resource is handed back.
    pub fn unmap(self, buffer: &mut RawBuffer) -> (m: M)
        requires
            self.spec_raw().is_free(),
            old(buffer).spec_id() == self.spec_raw().spec_inner().buffer_id,
        ensures
            final(buffer).spec_id() == old(buffer).spec_id(),
            final(buffer).spec_usage() == old(buffer).spec_usage(),
            !final(buffer).is_mapped(),
            m == self.spec_raw().spec_inner().resource,
    {
        buffer.was_unmapped();
        let inner = self.raw.inner.unwrap();
        inner.resource
    }
}

/// Readable and writable mapping: one raw mapping under a fixed element
/// count, handing out read, write, or combined guards.
pub struct RWable<M: Gate> {
    raw: Raw<M>,
    len: usize,
}

impl<M: Gate> RWable<M> {
    /// The raw mapping under this view.
    pub closed spec fn spec_raw(self) -> Raw<M> {
        self.raw
    }

    /// The element count the view was built with.
    pub closed spec fn spec_len(self) -> usize {
        self.len
    }

    /// The view is idle: no guard is out, and its element count fits the
    /// mapped region.
    pub open spec fn ready(self) -> bool {
        self.spec_raw().is_free() && self.spec_len() <= self.spec_raw().capacity()
    }

    /// The elements visible through this view.
    pub open spec fn contents(self) -> Seq<M::Elem>
        recommends
            self.ready(),
    {
        self.spec_raw().spec_inner().resource.contents().take(self.spec_len() as int)
    }

    /// The element count the view was built with.
    pub fn len(&self) -> (n: usize)
        ensures
            n == self.spec_len(),
    {
        self.len
    }

    /// The raw mapping under this view.
    pub fn raw(&self) -> (r: &Raw<M>)
        ensures
            *r == self.spec_raw(),
    {
        &self.raw
    }

    /// Acquire a read guard.
    pub fn read(&mut self) -> (r: Reader<M>)
        requires
            old(self).ready(),
        ensures
            !final(self).spec_raw().is_free(),
            final(self).spec_len() == old(self).spec_len(),
            r.wf(),
            r.spec_len() == old(self).spec_len(),
            r.contents() == old(self).contents(),
            r.spec_inner().status.gpu_access is None,
            r.spec_inner().status.cpu_write == old(
                self,
            ).spec_raw().spec_inner().status.cpu_write,
            r.spec_inner().buffer_id == old(self).spec_raw().spec_inner().buffer_id,
            r.spec_inner().access == old(self).spec_raw().spec_inner().access,
    {
        self.raw.read(self.len)
    }

    /// Acquire a write guard.
    pub fn write(&mut self) -> (w: Writer<M>)
        requires
            old(self).ready(),
        ensures
            !final(self).spec_raw().is_free(),
            final(self).spec_len() == old(self).spec_len(),
            w.wf(),
            w.spec_len() == old(self).spec_len(),
            w.contents() == old(self).contents(),
            w.spec_inner().status.gpu_access is None,
            w.spec_inner().status.cpu_write,
            w.spec_inner().buffer_id == old(self).spec_raw().spec_inner().buffer_id,
            w.spec_inner().access == old(self).spec_raw().spec_inner().access,
    {
        self.raw.write(self.len)
    }

    /// Acquire a combined reader-writer guard.
    pub fn read_write(&mut self) -> (rw: RWer<M>)
        requires
            old(self).ready(),
        ensures
            !final(self).spec_raw().is_free(),
            final(self).spec_len() == old(self).spec_len(),
            rw.wf(),
            rw.spec_len() == old(self).spec_len(),
            rw.contents() == old(self).contents(),
            rw.spec_inner().status.gpu_access is None,
            rw.spec_inner().status.cpu_write,
            rw.spec_inner().buffer_id == old(self).spec_raw().spec_inner().buffer_id,
            rw.spec_inner().access == old(self).spec_raw().spec_inner().access,
    {
        self.raw.read_write(self.len)
    }

    /// Give a read guard back, making the view ready again.
    pub fn end_read(&mut self, r: Reader<M>)
        requires
            !old(self).spec_raw().is_free(),
            r.wf(),
            r.spec_len() == old(self).spec_len(),
        ensures
            final(self).ready(),
            final(self).spec_len() == old(self).spec_len(),
            final(self).spec_raw().spec_inner() == r.spec_inner(),
            final(self).contents() == r.contents(),
    {
        self.raw.release(r.inner);
    }

    /// Give a write guard back, making the view ready again.
    pub fn end_write(&mut self, w: Writer<M>)
        requires
            !old(self).spec_raw().is_free(),
            w.wf(),
            w.spec_len() == old(self).spec_len(),
        ensures
            final(self).ready(),
            final(self).spec_len() == old(self).spec_len(),
            final(self).spec_raw().spec_inner() == w.spec_inner(),
            final(self).contents() == w.contents(),
    {
        self.raw.release(w.inner);
    }

    /// Give a combined guard back, making the view ready again.
    pub fn end_read_write(&mut self, rw: RWer<M>)
        requires
            !old(self).spec_raw().is_free(),
            rw.wf(),
            rw.spec_len() == old(self).spec_len(),
        ensures
            final(self).ready(),
            final(self).spec_len() == old(self).spec_len(),
            final(self).spec_raw().spec_inner() == rw.spec_inner(),
            final(self).contents() == rw.contents(),
    {
        self.raw.release(rw.inner);
    }

    /// Drop the view: the unmap notification fires, exactly once, on this
    /// one destruction path, and the backend resource is handed back.
    pub fn unmap(self, buffer: &mut RawBuffer) -> (m: M)
        requires
            self.spec_raw().is_free(),
            old(buffer).spec_id() == self.spec_raw().spec_inner().buffer_id,
        ensures
            final(buffer).spec_id() == old(buffer).spec_id(),
            final(buffer).spec_usage() == old(buffer).spec_usage(),
            !final(buffer).is_mapped(),
            m == self.spec_raw().spec_inner().resource,
    {
        buffer.was_unmapped();
        let inner = self.raw.inner.unwrap();
        inner.resource
    }
}

/// Factory-side construction of typed views: the sanctioned path from a
/// granted raw mapping to a typed view, discharging the element-count
/// bound once, at build time. The methods come fully provided; a device
/// factory implements the trait to offer them.
pub trait Builder {
    /// Build a readable view of `len` elements over `raw`.
    fn map_readable<M: Gate>(&mut self, raw: Raw<M>, len: usize) -> (v: Readable<M>)
        requires
            raw.is_free(),
            len <= raw.capacity(),
        ensures
            v.ready(),
            v.spec_len() == len,
            v.spec_raw() == raw,
    {
        Readable { raw, len }
    }

    /// Build a writable view of `len` elements over `raw`.
    fn map_writable<M: Gate>(&mut self, raw: Raw<M>, len: usize) -> (v: Writable<M>)
        requires
            raw.is_free(),
            len <= raw.capacity(),
        ensures
            v.ready(),
            v.spec_len() == len,
            v.spec_raw() == raw,
    {
        Writable { raw, len }
    }

    /// Build a readable and writable view of `len` elements over `raw`.
    fn map_read_write<M: Gate>(&mut self, raw: Raw<M>, len: usize) -> (v: RWable<M>)
        requires
            raw.is_free(),
            len <= raw.capacity(),
        ensures
            v.ready(),
            v.spec_len() == len,
            v.spec_raw() == raw,
    {
        RWable { raw, len }
    }
}

/// Access policy law: a usage other than `Persistent` grants no mapping
/// access, whatever access is requested.
pub proof fn lemma_non_persistent_refused(access: Access, usage: Usage)
    requires
        !(usage is Persistent),
    ensures
        !validate_ok(access, usage),
{
}

/// Access policy law: a `Persistent` usage admits exactly the requests
/// its capability set grants.
pub proof fn lemma_persistent_grants(access: Access, allowed: Access)
    ensures
        validate_ok(access, Usage::Persistent(allowed)) <==> allowed.grants(access),
{
}

/// Round-trip law: the element a write guard set is the element any
/// later guard over the same mapping observes at that index.
/// [`Writer::set`] turns the mapped contents into `contents.update(index,
/// value)`, ending the guard hands exactly those contents back to the
/// view, and a fresh [`Reader::get`] at `index` returns what the contents
/// hold there — which this law pins down as `value`.
pub proof fn lemma_write_then_read<T>(contents: Seq<T>, index: int, value: T)
    requires
        0 <= index < contents.len(),
    ensures
        contents.update(index, value)[index] == value,
{
}

/// Mapping-exclusion law: over a buffer that reports a live mapping no
/// second mapping may be created; once the buffer reports the mapping
/// gone, a request the access policy admits succeeds again.
pub proof fn lemma_single_mapping(access: Access, before: RawBuffer, after: RawBuffer)
    requires
        before.is_mapped(),
        !after.is_mapped(),
        after.spec_usage() == before.spec_usage(),
    ensures
        !can_map_ok(access, before),
        validate_ok(access, before.spec_usage()) ==> can_map_ok(access, after),
{
}

} // verus!
