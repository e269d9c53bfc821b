use async_fuser::errno::Errnos;
use async_fuser::error::{Error, ErrorKind};
use async_fuser::handshake::{
    capability_name, capability_status, judge_version, received_during_handshake, write_version, CapabilityStatus,
    Handshake, HandshakeAction, HandshakePhase, VersionVerdict, FUSE_KERNEL_VERSION,
};
use async_fuser::operation::{AnyRequest, Operation, RequestHeader, Version};

// The error codes of the system that the tests run on.
const ERRNOS: Errnos = Errnos {
    eperm: libc::EPERM,
    enoent: libc::ENOENT,
    eintr: libc::EINTR,
    eio: libc::EIO,
    eagain: libc::EAGAIN,
    enomem: libc::ENOMEM,
    eacces: libc::EACCES,
    efault: libc::EFAULT,
    ebusy: libc::EBUSY,
    enodev: libc::ENODEV,
    einval: libc::EINVAL,
    enametoolong: libc::ENAMETOOLONG,
    enosys: libc::ENOSYS,
    eproto: libc::EPROTO,
    ecanceled: libc::ECANCELED,
};

fn version(major: u32, minor: u32) -> Version {
    Version { major, minor }
}

fn request(operation: Option<Operation>) -> Result<AnyRequest, String> {
    Ok(AnyRequest {
        header: RequestHeader { unique: 31, nodeid: 0, uid: 0, gid: 0, pid: 0 },
        operation,
    })
}

fn offer(major: u32, minor: u32) -> Result<AnyRequest, String> {
    let version = version(major, minor);
    request(Some(Operation::Init { version, capabilities: 0b101, max_readahead: 4096 }))
}

#[test]
fn versions_are_judged_by_major_then_minor() {
    assert_eq!(FUSE_KERNEL_VERSION, 7);
    assert_eq!(judge_version(version(8, 0)), VersionVerdict::Newer);
    assert_eq!(judge_version(version(7, 6)), VersionVerdict::Supported);
    assert_eq!(judge_version(version(7, 45)), VersionVerdict::Supported);
    assert_eq!(judge_version(version(7, 5)), VersionVerdict::Unsupported);
    assert_eq!(judge_version(version(6, 99)), VersionVerdict::Unsupported);
}

#[test]
fn versions_are_written_with_a_point() {
    assert_eq!(write_version(version(7, 31)), "7.31");
    assert_eq!(write_version(version(0, u32::MAX)), "0.4294967295");
}

#[test]
fn open_session_is_negotiated() {
    let mut handshake = Handshake::new(ERRNOS);
    assert_eq!(handshake.proto_version(), None);
    match handshake.on_request(offer(7, 40), true) {
        HandshakeAction::CallInit { header, version: offered, capabilities, max_readahead } => {
            assert_eq!(header.unique, 31);
            assert_eq!(offered, version(7, 40));
            assert_eq!((capabilities, max_readahead), (0b101, 4096));
        }
        other => panic!("{:?}", other),
    }
    assert_eq!(handshake.proto_version(), None);
    match handshake.on_init(Ok(())) {
        HandshakeAction::ReplyInit { unique } => assert_eq!(unique, 31),
        other => panic!("{:?}", other),
    }
    assert_eq!(handshake.proto_version(), Some(version(7, 40)));
}

#[test]
fn newer_kernel_is_asked_again() {
    let mut handshake = Handshake::new(ERRNOS);
    for _ in 0..3 {
        match handshake.on_request(offer(8, 1), true) {
            HandshakeAction::ReplyVersionAndWait { unique } => assert_eq!(unique, 31),
            other => panic!("{:?}", other),
        }
        assert_eq!(handshake.phase, HandshakePhase::AwaitingInit);
    }
    assert!(matches!(handshake.on_request(offer(7, 6), true), HandshakeAction::CallInit { .. }));
}

#[test]
fn older_kernel_is_a_protocol_error() {
    let mut handshake = Handshake::new(ERRNOS);
    match handshake.on_request(offer(7, 5), true) {
        HandshakeAction::ReplyErrnoAndFail { unique, errno, error } => {
            assert_eq!(unique, 31);
            assert_eq!(errno.code(), libc::EPROTO);
            assert_eq!(error.kind(), ErrorKind::Unsupported);
            assert_eq!(error.message, "Unsupported FUSE ABI version 7.5");
        }
        other => panic!("{:?}", other),
    }
    assert_eq!(handshake.phase, HandshakePhase::Failed);
}

#[test]
fn other_operations_are_input_output_errors() {
    let mut handshake = Handshake::new(ERRNOS);
    match handshake.on_request(request(Some(Operation::StatFs)), true) {
        HandshakeAction::ReplyErrnoAndFail { errno, error, .. } => {
            assert_eq!(errno.code(), libc::EIO);
            assert_eq!(error.kind(), ErrorKind::InvalidData);
            assert_eq!(error.message, "Received non-init FUSE operation during handshake");
        }
        other => panic!("{:?}", other),
    }
}

#[test]
fn bytes_that_do_not_decode_end_the_handshake() {
    let failure = |request, present| match Handshake::new(ERRNOS).on_request(request, present) {
        HandshakeAction::Fail { error } => (error.kind(), error.message),
        other => panic!("{:?}", other),
    };
    assert_eq!(
        failure(Err("short read".to_string()), true),
        (ErrorKind::InvalidData, "short read".to_string())
    );
    assert_eq!(
        failure(request(None), true),
        (ErrorKind::InvalidData, "Failed to parse FUSE operation".to_string())
    );
    assert_eq!(
        failure(offer(7, 31), false),
        (
            ErrorKind::InvalidInput,
            "Bug: filesystem must be initialized during handshake".to_string()
        )
    );
}

#[test]
fn filesystem_may_refuse() {
    let refuse = |error| {
        let mut handshake = Handshake::new(ERRNOS);
        handshake.on_request(offer(7, 31), true);
        match handshake.on_init(Err(error)) {
            HandshakeAction::ReplyErrnoAndFail { unique, errno, error } => {
                assert_eq!(handshake.phase, HandshakePhase::Failed);
                assert_eq!(unique, 31);
                (errno.code(), error.kind())
            }
            other => panic!("{:?}", other),
        }
    };
    assert_eq!(refuse(Error::from_raw_os_error(libc::EINVAL)), (libc::EINVAL, ErrorKind::InvalidInput));
    assert_eq!(refuse(Error::other("no")), (0, ErrorKind::Other));
}

#[test]
fn device_that_goes_away_is_not_connected() {
    assert_eq!(received_during_handshake(ERRNOS, Ok(80)).unwrap(), 80);
    let gone = received_during_handshake(ERRNOS, Err(Error::from_raw_os_error(libc::ENODEV))).unwrap_err();
    assert_eq!(gone.kind(), ErrorKind::NotConnected);
    assert_eq!(gone.raw_os_error(), None);
    assert_eq!(gone.message, "FUSE device disconnected during handshake");
    let other = received_during_handshake(ERRNOS, Err(Error::from_raw_os_error(libc::EIO))).unwrap_err();
    assert_eq!(other.raw_os_error(), Some(libc::EIO));
}

#[test]
fn capabilities_come_out_by_bit() {
    let (kernel, requested) = (0b0011, 1 << 63 | 0b0101);
    let status = |bit| capability_status(kernel, requested, bit, true, false);
    assert_eq!(status(0), Some(CapabilityStatus::Enabled));
    assert_eq!(status(1), Some(CapabilityStatus::NotRequested));
    assert_eq!(status(2), Some(CapabilityStatus::NotSupported));
    assert_eq!(status(3), Some(CapabilityStatus::Unused));
    assert_eq!(status(63), Some(CapabilityStatus::NotSupported));
    let unnamed = |bit| capability_status(kernel, requested, bit, false, false);
    assert_eq!(unnamed(0), Some(CapabilityStatus::Enabled));
    assert_eq!(unnamed(3), None);
    assert_eq!(capability_status(kernel, requested, 0, true, true), None);
    assert_eq!(capability_name(None, 63), "(1 << 63)");
    assert_eq!(capability_name(Some("FUSE_ASYNC_READ".to_string()), 0), "FUSE_ASYNC_READ");
}

#[test]
fn replies_have_the_codes_of_the_system() {
    let elsewhere = Errnos { eproto: 100, enodev: 1019, ..ERRNOS };
    match Handshake::new(elsewhere).on_request(offer(7, 5), true) {
        HandshakeAction::ReplyErrnoAndFail { errno, .. } => assert_eq!(errno.code(), 100),
        other => panic!("{:?}", other),
    }
    let error = Err(Error::from_raw_os_error(1019));
    let gone = received_during_handshake(elsewhere, error).unwrap_err();
    assert_eq!(gone.kind(), ErrorKind::NotConnected);
}
