use async_fuser::acl::SessionACL;
use async_fuser::dispatch::{
    dispatch, dispatch_req, exempt_from_access_check, DispatchAction, FilesystemCall,
};
use async_fuser::errno::{Errno, Errnos};
use async_fuser::operation::{
    AnyRequest, AttrChange, CopyEnd, ForgetOne, Lock, Operation, RequestHeader, TimeOrNow,
    Timestamp, Version,
};

// The error codes of the system that the tests run on.
const ERRNOS: Errnos = Errnos {
    eperm: libc::EPERM,
    enoent: libc::ENOENT,
    eintr: libc::EINTR,
    eio: libc::EIO,
    eagain: libc::EAGAIN,
    enomem: libc::ENOMEM,
    eacces: libc::EACCES,
    efault: libc::EFAULT,
    ebusy: libc::EBUSY,
    enodev: libc::ENODEV,
    einval: libc::EINVAL,
    enametoolong: libc::ENAMETOOLONG,
    enosys: libc::ENOSYS,
    eproto: libc::EPROTO,
    ecanceled: libc::ECANCELED,
};

const OWNER: u32 = 1000;
const STRANGER: u32 = 1001;

fn request(uid: u32, operation: Operation) -> AnyRequest {
    AnyRequest {
        header: RequestHeader { unique: 99, nodeid: 42, uid, gid: 5, pid: 6 },
        operation: Some(operation),
    }
}

fn served(operation: Operation) -> FilesystemCall {
    dispatch_req(ERRNOS, SessionACL::Owner, OWNER, request(OWNER, operation)).unwrap()
}

fn refused(uid: u32, acl: SessionACL, operation: Operation) -> i32 {
    dispatch_req(ERRNOS, acl, OWNER, request(uid, operation)).unwrap_err().code()
}

fn read(offset: Result<u64, Errno>) -> Operation {
    Operation::Read { file_handle: 1, offset, size: 4096, flags: 2, lock_owner: Some(3) }
}

#[test]
fn lookup_goes_to_its_directory() {
    match served(Operation::Lookup { name: b"file".to_vec() }) {
        FilesystemCall::Lookup { parent, name } => {
            assert_eq!(parent, 42);
            assert_eq!(name, b"file".to_vec());
        }
        other => panic!("{:?}", other),
    }
}

#[test]
fn strangers_are_denied() {
    for acl in [SessionACL::Owner, SessionACL::RootAndOwner] {
        let code = refused(STRANGER, acl, Operation::Lookup { name: b"x".to_vec() });
        assert_eq!(code, libc::EACCES);
        assert_eq!(refused(STRANGER, acl, Operation::StatFs), libc::EACCES);
        // Access is checked before anything else is.
        assert_eq!(refused(STRANGER, acl, Operation::Interrupt { unique: 1 }), libc::EACCES);
    }
    assert_eq!(refused(0, SessionACL::Owner, Operation::StatFs), libc::EACCES);
    assert!(dispatch_req(ERRNOS, SessionACL::RootAndOwner, OWNER, request(0, Operation::StatFs)).is_ok());
    assert!(dispatch_req(ERRNOS, SessionACL::All, OWNER, request(STRANGER, Operation::StatFs)).is_ok());
}

#[test]
fn kernel_operations_are_exempt() {
    let exempt = vec![
        read(Ok(0)),
        Operation::ReadDir { file_handle: 1, offset: 0, size: 1 },
        Operation::ReadDirPlus { file_handle: 1, offset: 0, size: 1 },
        Operation::BatchForget { nodes: vec![] },
        Operation::Forget { nlookup: 1 },
        Operation::Write {
            file_handle: 1,
            offset: Ok(0),
            data: vec![],
            write_flags: 0,
            flags: 0,
            lock_owner: None,
        },
        Operation::FSync { file_handle: 1, datasync: true },
        Operation::FSyncDir { file_handle: 1, datasync: true },
        Operation::Release { file_handle: 1, flags: 0, lock_owner: None, flush: false },
        Operation::ReleaseDir { file_handle: 1, flags: 0 },
    ];
    for operation in exempt {
        assert!(exempt_from_access_check(&operation));
        assert!(dispatch_req(ERRNOS, SessionACL::Owner, OWNER, request(STRANGER, operation)).is_ok());
    }
    assert!(exempt_from_access_check(&Operation::Destroy));
    assert!(!exempt_from_access_check(&Operation::Open { flags: 0 }));
}

#[test]
fn admitted_users_are_treated_alike() {
    for (uid, acl) in [(OWNER, SessionACL::Owner), (0, SessionACL::RootAndOwner), (7, SessionACL::All)] {
        match dispatch_req(ERRNOS, acl, OWNER, request(uid, Operation::GetXAttr { name: vec![1], size: 9 })) {
            Ok(FilesystemCall::GetXAttr { ino, name, size }) => {
                assert_eq!((ino, name, size), (42, vec![1], 9));
            }
            other => panic!("{:?}", other),
        }
    }
}

#[test]
fn served_exactly_if_decoded_admitted_and_implemented() {
    let undecoded = AnyRequest {
        header: RequestHeader { unique: 1, nodeid: 1, uid: STRANGER, gid: 0, pid: 0 },
        operation: None,
    };
    let errno = dispatch_req(ERRNOS, SessionACL::Owner, OWNER, undecoded).unwrap_err();
    assert_eq!(errno.code(), libc::ENOSYS);
    assert_eq!(refused(OWNER, SessionACL::Owner, Operation::Interrupt { unique: 1 }), libc::ENOSYS);
    assert_eq!(refused(OWNER, SessionACL::Owner, Operation::NotifyReply), libc::ENOSYS);
    assert_eq!(refused(OWNER, SessionACL::Owner, Operation::CuseInit), libc::ENOSYS);
    assert_eq!(refused(STRANGER, SessionACL::Owner, Operation::Destroy), libc::EIO);
    let init = Operation::Init {
        version: Version { major: 7, minor: 31 },
        capabilities: 0,
        max_readahead: 0,
    };
    assert_eq!(refused(OWNER, SessionACL::Owner, init), libc::EIO);
}

#[test]
fn offsets_that_do_not_decode_are_errors() {
    let bad = Err(Errno { raw: libc::EINVAL });
    assert_eq!(refused(STRANGER, SessionACL::Owner, read(bad)), libc::EINVAL);
    let write = Operation::Write {
        file_handle: 1,
        offset: bad,
        data: vec![1],
        write_flags: 0,
        flags: 0,
        lock_owner: None,
    };
    assert_eq!(refused(OWNER, SessionACL::Owner, write), libc::EINVAL);
    let allocate = |offset, len| Operation::FAllocate { file_handle: 1, offset, len, mode: 0 };
    let first = Err(Errno { raw: 100 });
    let second = Err(Errno { raw: 200 });
    assert_eq!(refused(OWNER, SessionACL::All, allocate(first, second)), 100);
    assert_eq!(refused(OWNER, SessionACL::All, allocate(Ok(1), second)), 200);
    let copy = |src, dest| Operation::CopyFileRange { src, dest, len: 1, flags: 0 };
    let end = CopyEnd { inode: 1, file_handle: 2, offset: 3 };
    assert_eq!(refused(OWNER, SessionACL::All, copy(Err(Errno { raw: 7 }), Err(Errno { raw: 8 }))), 7);
    assert_eq!(refused(OWNER, SessionACL::All, copy(Ok(end), Err(Errno { raw: 8 }))), 8);
    match served(copy(Ok(end), Ok(CopyEnd { inode: 4, file_handle: 5, offset: 6 }))) {
        FilesystemCall::CopyFileRange { src, dest, len, flags } => {
            assert_eq!(src, end);
            assert_eq!(dest.inode, 4);
            assert_eq!((len, flags), (1, 0));
        }
        other => panic!("{:?}", other),
    }
}

#[test]
fn unrestricted_ioctl_is_not_implemented() {
    let ioctl = |unrestricted| Operation::IoCtl {
        unrestricted,
        file_handle: 1,
        flags: 2,
        command: 3,
        in_data: vec![4],
        out_size: 5,
    };
    assert_eq!(refused(OWNER, SessionACL::Owner, ioctl(true)), libc::ENOSYS);
    match served(ioctl(false)) {
        FilesystemCall::IoCtl { ino, file_handle, flags, command, in_data, out_size } => {
            assert_eq!((ino, file_handle, flags, command), (42, 1, 2, 3));
            assert_eq!((in_data, out_size), (vec![4], 5));
        }
        other => panic!("{:?}", other),
    }
}

#[test]
fn both_renames_are_one_call() {
    match served(Operation::Rename { src_name: vec![1], dest_dir: 7, dest_name: vec![2] }) {
        FilesystemCall::Rename { parent, name, newparent, newname, flags } => {
            assert_eq!((parent, name, newparent, newname, flags), (42, vec![1], 7, vec![2], 0));
        }
        other => panic!("{:?}", other),
    }
    let rename2 = Operation::Rename2 {
        from_dir: 8,
        from_name: vec![3],
        to_dir: 9,
        to_name: vec![4],
        flags: 1,
    };
    match served(rename2) {
        FilesystemCall::Rename { parent, name, newparent, newname, flags } => {
            assert_eq!((parent, name, newparent, newname, flags), (8, vec![3], 9, vec![4], 1));
        }
        other => panic!("{:?}", other),
    }
}

#[test]
fn link_goes_into_the_directory_of_the_request() {
    match served(Operation::Link { inode_no: 3, dest_name: vec![1] }) {
        FilesystemCall::Link { ino, newparent, newname } => {
            assert_eq!((ino, newparent, newname), (3, 42, vec![1]));
        }
        other => panic!("{:?}", other),
    }
}

#[test]
fn arguments_go_through_unchanged() {
    let change = AttrChange {
        mode: Some(0o644),
        uid: None,
        gid: Some(4),
        size: Some(10),
        atime: Some(TimeOrNow::Now),
        mtime: Some(TimeOrNow::SpecificTime(Timestamp { secs: 1, nanos: 2 })),
        ctime: None,
        file_handle: Some(11),
        crtime: None,
        chgtime: None,
        bkuptime: None,
        flags: Some(12),
    };
    match served(Operation::SetAttr { change }) {
        FilesystemCall::SetAttr { ino, change: passed } => {
            assert_eq!(ino, 42);
            assert_eq!(passed, change);
        }
        other => panic!("{:?}", other),
    }
    let lock = Lock { start: 1, end: 2, typ: 3, pid: 4 };
    match served(Operation::SetLk { file_handle: 5, lock_owner: 6, lock, sleep: true }) {
        FilesystemCall::SetLk { ino, file_handle, lock_owner, lock: passed, sleep } => {
            assert_eq!((ino, file_handle, lock_owner, sleep), (42, 5, 6, true));
            assert_eq!(passed, lock);
        }
        other => panic!("{:?}", other),
    }
    let nodes = vec![ForgetOne { nodeid: 1, nlookup: 2 }, ForgetOne { nodeid: 3, nlookup: 4 }];
    match served(Operation::BatchForget { nodes: nodes.clone() }) {
        FilesystemCall::BatchForget { nodes: passed } => assert_eq!(passed, nodes),
        other => panic!("{:?}", other),
    }
    match served(read(Ok(77))) {
        FilesystemCall::Read { ino, file_handle, offset, size, flags, lock_owner } => {
            assert_eq!((ino, file_handle, offset, size), (42, 1, 77, 4096));
            assert_eq!((flags, lock_owner), (2, Some(3)));
        }
        other => panic!("{:?}", other),
    }
    match served(Operation::Poll { file_handle: 1, kernel_handle: 2, events: 3, flags: 4 }) {
        FilesystemCall::Poll { ino, file_handle, kernel_handle, events, flags } => {
            assert_eq!((ino, file_handle, kernel_handle, events, flags), (42, 1, 2, 3, 4));
        }
        other => panic!("{:?}", other),
    }
}

#[test]
fn refused_requests_are_answered_by_number() {
    let stranger = request(STRANGER, Operation::Open { flags: 0 });
    match dispatch(ERRNOS, SessionACL::Owner, OWNER, stranger) {
        DispatchAction::ReplyErrno { unique, errno } => {
            assert_eq!(unique, 99);
            assert_eq!(errno.code(), libc::EACCES);
        }
        other => panic!("{:?}", other),
    }
    match dispatch(ERRNOS, SessionACL::Owner, OWNER, request(OWNER, Operation::Open { flags: 5 })) {
        DispatchAction::Handle { header, call: FilesystemCall::Open { ino, flags } } => {
            assert_eq!(header.unique, 99);
            assert_eq!((ino, flags), (42, 5));
        }
        other => panic!("{:?}", other),
    }
}

#[test]
fn error_codes_are_those_of_the_system() {
    let elsewhere = Errnos { enosys: 78, eacces: 1013, eio: 1005, ..ERRNOS };
    let refused = |uid, operation| {
        dispatch_req(elsewhere, SessionACL::Owner, OWNER, request(uid, operation))
            .unwrap_err()
            .code()
    };
    assert_eq!(refused(OWNER, Operation::CuseInit), 78);
    assert_eq!(refused(STRANGER, Operation::StatFs), 1013);
    assert_eq!(refused(OWNER, Operation::Destroy), 1005);
}
