use gfx_app::handle::{Fence, RawBuffer};
use gfx_app::host::{HostFactory, HostMapping};
use gfx_app::mapping::{can_map, Builder, Error, Raw, Status};
use gfx_app::memory::{Access, Usage};

fn mapped_u32s(id: u64, usage: Usage, access: Access, data: Vec<u32>) -> (RawBuffer, Raw<HostMapping<u32>>) {
    let mut buffer = RawBuffer::new(id, usage);
    let raw = Raw::new(access, &mut buffer, move || HostMapping::new(data)).unwrap();
    (buffer, raw)
}

#[test]
fn mapping_marks_the_buffer_and_failure_leaves_it_alone() {
    let mut buffer = RawBuffer::new(1, Usage::Persistent(Access::ReadWrite));
    let refused = Raw::new(Access::Read, &mut RawBuffer::new(2, Usage::Dynamic), || {
        HostMapping::new(vec![0u32])
    });
    assert_eq!(refused.err(), Some(Error::InvalidAccess(Access::Read, Usage::Dynamic)));
    assert!(!buffer.mapping());
    let raw = Raw::new(Access::ReadWrite, &mut buffer, || HostMapping::new(vec![0u32, 1]));
    assert!(raw.is_ok());
    assert!(buffer.mapping());
}

#[test]
fn second_mapping_refused_until_the_first_is_dropped() {
    let (mut buffer, raw) = mapped_u32s(1, Usage::Persistent(Access::ReadWrite), Access::Read, vec![5u32]);
    // The buffer reports a live mapping: a second request is AlreadyMapped.
    assert_eq!(can_map(Access::Read, &buffer), Err(Error::AlreadyMapped));
    let second = Raw::new(Access::Read, &mut buffer, || HostMapping::new(vec![0u32]));
    assert_eq!(second.err(), Some(Error::AlreadyMapped));
    assert!(buffer.mapping());
    // Dropping the live mapping clears the flag and a new request succeeds.
    let mut factory = HostFactory;
    let view = factory.map_readable(raw, 1);
    view.unmap(&mut buffer);
    assert!(!buffer.mapping());
    assert_eq!(can_map(Access::Read, &buffer), Ok(()));
    let third = Raw::new(Access::Read, &mut buffer, || HostMapping::new(vec![0u32]));
    assert!(third.is_ok());
}

#[test]
fn acquisition_is_busy_while_a_guard_is_held() {
    let (_buffer, mut raw) = mapped_u32s(1, Usage::Persistent(Access::ReadWrite), Access::ReadWrite, vec![1u32, 2]);
    let guard = raw.access().expect("mapping starts free");
    // While the guard is held, acquisition signals contention.
    assert!(raw.access().is_none());
    assert!(raw.status().is_none());
    raw.release(guard);
    // As soon as the guard is given back, acquisition succeeds.
    let again = raw.access();
    assert!(again.is_some());
    raw.release(again.unwrap());
}

#[test]
fn read_waits_on_the_recorded_fence_and_clears_it() {
    let (_buffer, mut raw) = mapped_u32s(1, Usage::Persistent(Access::ReadWrite), Access::ReadWrite, vec![7u32, 8]);
    let mut guard = raw.access().unwrap();
    guard.status.gpu_access = Some(Fence { id: 42 });
    raw.release(guard);
    let mut factory = HostFactory;
    let mut view = factory.map_readable(raw, 2);
    let reader = view.read();
    assert_eq!(reader.get(0), 7);
    view.end_read(reader);
    // The dependency was drained before the read and stays cleared.
    assert_eq!(view.raw().status(), Some(Status { cpu_write: false, gpu_access: None }));
}

#[test]
fn write_waits_on_the_recorded_fence_and_records_the_host_write() {
    let (_buffer, mut raw) = mapped_u32s(1, Usage::Persistent(Access::ReadWrite), Access::ReadWrite, vec![0u32, 0]);
    let mut guard = raw.access().unwrap();
    guard.status.gpu_access = Some(Fence { id: 3 });
    raw.release(guard);
    let mut factory = HostFactory;
    let mut view = factory.map_writable(raw, 2);
    let mut writer = view.write();
    writer.set(1, 99);
    view.end_write(writer);
    assert_eq!(view.raw().status(), Some(Status { cpu_write: true, gpu_access: None }));
}

#[test]
fn write_then_read_observes_the_written_value() {
    let (_buffer, raw) = mapped_u32s(1, Usage::Persistent(Access::ReadWrite), Access::ReadWrite, vec![0u32; 3]);
    let mut factory = HostFactory;
    let mut view = factory.map_read_write(raw, 3);
    let mut writer = view.write();
    writer.set(1, 77);
    view.end_write(writer);
    let reader = view.read();
    assert_eq!(reader.get(0), 0);
    assert_eq!(reader.get(1), 77);
    assert_eq!(reader.get(2), 0);
    view.end_read(reader);
}

#[test]
fn writer_accepts_every_index_below_its_element_count() {
    let (_buffer, raw) = mapped_u32s(1, Usage::Persistent(Access::Write), Access::Write, vec![0u32; 4]);
    let mut factory = HostFactory;
    let mut view = factory.map_writable(raw, 4);
    let mut writer = view.write();
    assert_eq!(writer.len(), 4);
    for i in 0..4usize {
        writer.set(i, (i as u32) + 1);
    }
    view.end_write(writer);
}

#[test]
fn combined_guard_reads_and_writes_in_one_acquisition() {
    let (_buffer, raw) = mapped_u32s(1, Usage::Persistent(Access::ReadWrite), Access::ReadWrite, vec![4u32, 5]);
    let mut factory = HostFactory;
    let mut view = factory.map_read_write(raw, 2);
    let mut rw = view.read_write();
    assert_eq!(rw.len(), 2);
    assert_eq!(rw.get(0), 4);
    rw.set(0, rw.get(1) + 1);
    assert_eq!(rw.get(0), 6);
    view.end_read_write(rw);
    let reader = view.read();
    assert_eq!(reader.get(0), 6);
    view.end_read(reader);
}

#[test]
fn reader_exposes_only_the_built_element_count() {
    let (_buffer, raw) = mapped_u32s(1, Usage::Persistent(Access::Read), Access::Read, vec![9u32, 8, 7, 6]);
    let mut factory = HostFactory;
    let mut view = factory.map_readable(raw, 2);
    assert_eq!(view.len(), 2);
    let reader = view.read();
    assert_eq!(reader.len(), 2);
    assert_eq!(reader.get(0), 9);
    assert_eq!(reader.get(1), 8);
    view.end_read(reader);
}

#[test]
fn end_to_end_write_unmap_and_read_back() {
    // A write-only persistent buffer is mapped, filled, and dropped; a
    // fresh readable mapping over the same memory observes the writes.
    let mut buffer = RawBuffer::new(1, Usage::Persistent(Access::Write));
    let raw = Raw::new(Access::Write, &mut buffer, || HostMapping::new(vec![0u32; 4])).unwrap();
    let mut factory = HostFactory;
    let mut view = factory.map_writable(raw, 4);
    let mut writer = view.write();
    writer.set(0, 10);
    writer.set(1, 20);
    writer.set(2, 30);
    writer.set(3, 40);
    view.end_write(writer);
    let memory = view.unmap(&mut buffer);
    assert!(!buffer.mapping());
    let mut read_buffer = RawBuffer::new(2, Usage::Persistent(Access::Read));
    let raw = Raw::new(Access::Read, &mut read_buffer, move || memory).unwrap();
    let mut read_view = factory.map_readable(raw, 4);
    let reader = read_view.read();
    assert_eq!(reader.get(0), 10);
    assert_eq!(reader.get(1), 20);
    assert_eq!(reader.get(2), 30);
    assert_eq!(reader.get(3), 40);
    read_view.end_read(reader);
}

#[test]
fn empty_view_is_legal_and_exposes_nothing() {
    let (_buffer, raw) = mapped_u32s(1, Usage::Persistent(Access::Read), Access::Read, vec![]);
    let mut factory = HostFactory;
    let mut view = factory.map_readable(raw, 0);
    assert_eq!(view.len(), 0);
    let reader = view.read();
    assert_eq!(reader.len(), 0);
    view.end_read(reader);
}

#[test]
fn host_mapping_round_trips_its_memory() {
    let mapping = HostMapping::new(vec![1u32, 2, 3]);
    let data = mapping.into_vec();
    assert_eq!(data, vec![1, 2, 3]);
}
