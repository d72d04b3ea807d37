use gfx_app::handle::{Fence, RawBuffer};
use gfx_app::mapping::{can_map, validate, Error, Status};
use gfx_app::memory::{Access, Usage};
use gfx_app::{Backend, Config};

#[test]
fn validate_refuses_every_non_persistent_usage() {
    let accesses = [Access::Read, Access::Write, Access::ReadWrite];
    let usages = [
        Usage::Const,
        Usage::GpuOnly,
        Usage::Dynamic,
        Usage::CpuOnly(Access::ReadWrite),
    ];
    for &access in &accesses {
        for &usage in &usages {
            assert_eq!(validate(access, usage), Err(Error::InvalidAccess(access, usage)));
        }
    }
}

#[test]
fn can_map_refuses_every_non_persistent_usage() {
    let accesses = [Access::Read, Access::Write, Access::ReadWrite];
    let usages = [
        Usage::Const,
        Usage::GpuOnly,
        Usage::Dynamic,
        Usage::CpuOnly(Access::Read),
    ];
    for &access in &accesses {
        for &usage in &usages {
            let buffer = RawBuffer::new(1, usage);
            assert_eq!(can_map(access, &buffer), Err(Error::InvalidAccess(access, usage)));
        }
    }
}

#[test]
fn persistent_grants_exactly_its_capability_set() {
    let all = [Access::Read, Access::Write, Access::ReadWrite];
    for &requested in &all {
        // ReadWrite grants everything.
        let buffer = RawBuffer::new(1, Usage::Persistent(Access::ReadWrite));
        assert_eq!(can_map(requested, &buffer), Ok(()));
    }
    let read_only = RawBuffer::new(2, Usage::Persistent(Access::Read));
    assert_eq!(can_map(Access::Read, &read_only), Ok(()));
    assert_eq!(
        can_map(Access::Write, &read_only),
        Err(Error::InvalidAccess(Access::Write, Usage::Persistent(Access::Read)))
    );
    assert_eq!(
        can_map(Access::ReadWrite, &read_only),
        Err(Error::InvalidAccess(Access::ReadWrite, Usage::Persistent(Access::Read)))
    );
    let write_only = RawBuffer::new(3, Usage::Persistent(Access::Write));
    assert_eq!(can_map(Access::Write, &write_only), Ok(()));
    assert_eq!(
        can_map(Access::Read, &write_only),
        Err(Error::InvalidAccess(Access::Read, Usage::Persistent(Access::Write)))
    );
    assert_eq!(
        can_map(Access::ReadWrite, &write_only),
        Err(Error::InvalidAccess(Access::ReadWrite, Usage::Persistent(Access::Write)))
    );
}

#[test]
fn access_contains_matches_capability_rules() {
    assert!(Access::ReadWrite.contains(Access::Read));
    assert!(Access::ReadWrite.contains(Access::Write));
    assert!(Access::ReadWrite.contains(Access::ReadWrite));
    assert!(Access::Read.contains(Access::Read));
    assert!(!Access::Read.contains(Access::Write));
    assert!(!Access::Read.contains(Access::ReadWrite));
    assert!(Access::Write.contains(Access::Write));
    assert!(!Access::Write.contains(Access::Read));
    assert!(!Access::Write.contains(Access::ReadWrite));
}

#[test]
fn clean_status_has_no_write_and_no_dependency() {
    let status = Status::clean();
    assert!(!status.cpu_write);
    assert_eq!(status.gpu_access, None);
}

#[test]
fn sync_waits_and_clears_the_recorded_fence() {
    let mut status = Status { cpu_write: true, gpu_access: Some(Fence { id: 9 }) };
    status.sync();
    assert_eq!(status.gpu_access, None);
    assert!(status.cpu_write);
}

#[test]
fn sync_twice_is_a_no_op_the_second_time() {
    let mut status = Status { cpu_write: false, gpu_access: Some(Fence { id: 4 }) };
    status.sync();
    let after_first = status;
    status.sync();
    assert_eq!(status, after_first);
}

#[test]
fn begin_write_clears_the_dependency_and_records_the_write() {
    let mut status = Status { cpu_write: false, gpu_access: Some(Fence { id: 2 }) };
    status.begin_write();
    assert_eq!(status.gpu_access, None);
    assert!(status.cpu_write);
}

#[test]
fn fence_wait_returns() {
    let fence = Fence { id: 1 };
    fence.wait();
}

#[test]
fn buffer_reports_its_description() {
    let buffer = RawBuffer::new(11, Usage::Persistent(Access::Read));
    assert_eq!(buffer.id(), 11);
    assert_eq!(buffer.usage(), Usage::Persistent(Access::Read));
    assert!(!buffer.mapping());
}

#[test]
fn default_config_size() {
    let config = Config::default();
    assert_eq!(config.size, (800, 520));
}

#[test]
fn backend_variants_carry_their_data() {
    let gl = Backend::OpenGL2;
    let d3d = Backend::Direct3D11 { pix_mode: true };
    let metal = Backend::Metal;
    assert!(matches!(gl, Backend::OpenGL2));
    assert!(matches!(d3d, Backend::Direct3D11 { pix_mode: true }));
    assert!(matches!(metal, Backend::Metal));
}
