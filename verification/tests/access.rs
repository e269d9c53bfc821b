use async_fuser::acl::{SessionACL, ROOT_UID};
use async_fuser::errno::Errno;
use async_fuser::error::{Error, ErrorKind};
use async_fuser::open_flags::{OpenAccMode, OpenFlagTable, OpenFlags};

#[test]
fn acl_admits_by_uid() {
    assert!(SessionACL::All.permits(1234, 1000));
    assert!(SessionACL::RootAndOwner.permits(ROOT_UID, 1000));
    assert!(SessionACL::RootAndOwner.permits(1000, 1000));
    assert!(!SessionACL::RootAndOwner.permits(1234, 1000));
    assert!(SessionACL::Owner.permits(1000, 1000));
    assert!(!SessionACL::Owner.permits(ROOT_UID, 1000));
    assert_eq!(SessionACL::default(), SessionACL::Owner);
}

#[test]
fn acl_mount_option() {
    assert_eq!(SessionACL::All.to_mount_option(), Some("allow_other"));
    assert_eq!(SessionACL::RootAndOwner.to_mount_option(), Some("allow_other"));
    assert_eq!(SessionACL::Owner.to_mount_option(), None);
}

#[test]
fn acl_rules_are_nested() {
    for uid in [0, 7, 1000] {
        for owner in [0, 7, 1000] {
            if SessionACL::Owner.permits(uid, owner) {
                assert!(SessionACL::RootAndOwner.permits(uid, owner));
            }
            if SessionACL::RootAndOwner.permits(uid, owner) {
                assert!(SessionACL::All.permits(uid, owner));
            }
            assert!(SessionACL::Owner.permits(owner, owner));
        }
    }
}

#[test]
fn strangers_need_allow_other() {
    for acl in [SessionACL::All, SessionACL::RootAndOwner, SessionACL::Owner] {
        for uid in [0, 7] {
            if acl.permits(uid, 1000) {
                assert_eq!(acl.to_mount_option(), Some("allow_other"));
            }
        }
    }
}

#[test]
fn errno_has_its_code() {
    assert_eq!(Errno { raw: libc::ENOSYS }.code(), libc::ENOSYS);
}

#[test]
fn os_errors_have_the_categories_of_std() {
    let kinds = [
        (libc::ENOENT, ErrorKind::NotFound),
        (libc::EPERM, ErrorKind::PermissionDenied),
        (libc::EACCES, ErrorKind::PermissionDenied),
        (libc::ENOTCONN, ErrorKind::NotConnected),
        (libc::EAGAIN, ErrorKind::WouldBlock),
        (libc::EINVAL, ErrorKind::InvalidInput),
        (libc::ENOMEM, ErrorKind::OutOfMemory),
        (libc::EBUSY, ErrorKind::ResourceBusy),
        (libc::ENOSYS, ErrorKind::Unsupported),
        (libc::EEXIST, ErrorKind::Unlisted(std::io::ErrorKind::AlreadyExists)),
        (libc::ETIMEDOUT, ErrorKind::Unlisted(std::io::ErrorKind::TimedOut)),
    ];
    for (code, kind) in kinds {
        let error = Error::from_raw_os_error(code);
        assert_eq!(error.kind(), kind);
        assert_eq!(error.raw_os_error(), Some(code));
        assert_eq!(error.message, "");
    }
}

#[test]
fn raised_errors_keep_their_text() {
    let error = Error::new(ErrorKind::InvalidData, "no");
    assert_eq!(error.kind(), ErrorKind::InvalidData);
    assert_eq!(error.raw_os_error(), None);
    assert_eq!(error.message, "no");
    let copy = error.clone();
    assert_eq!(copy.kind(), ErrorKind::InvalidData);
    assert_eq!(copy.message, "no");
    assert_eq!(Error::other("x").kind(), ErrorKind::Other);
}

const fn flags(bits: i32) -> OpenFlags {
    OpenFlags { bits }
}

// The flags of the system that the tests run on.
const OPEN_FLAGS: OpenFlagTable = OpenFlagTable {
    access_mode: flags(libc::O_ACCMODE),
    read_only: flags(libc::O_RDONLY),
    write_only: flags(libc::O_WRONLY),
    read_write: flags(libc::O_RDWR),
    create: flags(libc::O_CREAT),
    create_exclusive: flags(libc::O_EXCL),
    no_terminal_control: flags(libc::O_NOCTTY),
    truncate: flags(libc::O_TRUNC),
    append_mode: flags(libc::O_APPEND),
    non_blocking_mode: flags(libc::O_NONBLOCK),
    sync_data_only: flags(libc::O_DSYNC),
    sync_data_and_metadata: flags(libc::O_SYNC),
    sync_reads_and_writes: Some(flags(libc::O_RSYNC)),
    must_be_directory: flags(libc::O_DIRECTORY),
    do_not_follow_symlinks: flags(libc::O_NOFOLLOW),
    close_on_exec: flags(libc::O_CLOEXEC),
    temporary_file: Some(flags(libc::O_TMPFILE)),
};

#[test]
fn access_mode_of_flags() {
    let mode = |bits: i32| OpenFlags::from_bits_retain(bits).acc_mode(OPEN_FLAGS);
    assert_eq!(mode(libc::O_RDONLY), OpenAccMode::O_RDONLY);
    assert_eq!(mode(libc::O_WRONLY | libc::O_CREAT), OpenAccMode::O_WRONLY);
    assert_eq!(mode(libc::O_RDWR | libc::O_APPEND), OpenAccMode::O_RDWR);
    assert_eq!(mode(3), OpenAccMode::O_RDONLY);
    assert_eq!(mode(-1), OpenAccMode::O_RDONLY);
    assert_eq!(OpenFlags::from_bits_retain(0o1234).bits(), 0o1234);
    assert_eq!(OpenAccMode::O_RDONLY.to_flags(OPEN_FLAGS), OPEN_FLAGS.read_only);
    assert_eq!(OpenAccMode::O_WRONLY.to_flags(OPEN_FLAGS), OPEN_FLAGS.write_only);
    assert_eq!(OpenAccMode::O_RDWR.to_flags(OPEN_FLAGS), OPEN_FLAGS.read_write);
}

#[test]
fn access_mode_follows_the_system() {
    // A system may count further bits among those of the access mode.
    let wide = OpenFlagTable { access_mode: flags(0o10000003), ..OPEN_FLAGS };
    assert_eq!(flags(1).acc_mode(wide), OpenAccMode::O_WRONLY);
    assert_eq!(flags(0o10000001).acc_mode(wide), OpenAccMode::O_RDONLY);
    assert_eq!(flags(0o10000001).acc_mode(OPEN_FLAGS), OpenAccMode::O_WRONLY);
}

#[test]
fn access_mode_ignores_other_flags() {
    for bits in [0, 1, 2, 3] {
        let plain = OpenFlags::from_bits_retain(bits);
        let others = OPEN_FLAGS.create.union(OPEN_FLAGS.close_on_exec).union(OPEN_FLAGS.truncate);
        assert_eq!(plain.union(others).acc_mode(OPEN_FLAGS), plain.acc_mode(OPEN_FLAGS));
    }
}

#[test]
fn union_contains_what_its_parts_do() {
    let both = OPEN_FLAGS.create.union(OPEN_FLAGS.append_mode);
    assert_eq!(both.bits(), libc::O_CREAT | libc::O_APPEND);
    assert!(both.contains(OPEN_FLAGS.create));
    assert!(both.contains(OPEN_FLAGS.append_mode));
    assert!(both.contains(OPEN_FLAGS.read_only));
    assert!(!both.contains(OPEN_FLAGS.truncate));
    assert!(!OPEN_FLAGS.create.contains(both));
}
