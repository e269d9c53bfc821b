use async_fuser::errno::Errnos;
use async_fuser::error::{Error, ErrorKind};
use async_fuser::platform::Platform;
use async_fuser::session::{
    join_result, BackgroundSession, Detachment, FilesystemHolder, Joined, Teardown,
};
use async_fuser::unmount::{
    detach_umount_flags, drop_step, drop_umount_flags, is_mount_salvageable, is_mounted, DropStep, Mount, MountImpl,
    MountSlot, PollVerdict, SlotStart, UmountStart, UnmountAction, UnmountOption, POLLERR,
};

// The error codes of the system that the tests run on.
const ERRNOS: Errnos = Errnos {
    eperm: libc::EPERM,
    enoent: libc::ENOENT,
    eintr: libc::EINTR,
    eio: libc::EIO,
    eagain: libc::EAGAIN,
    enomem: libc::ENOMEM,
    eacces: libc::EACCES,
    efault: libc::EFAULT,
    ebusy: libc::EBUSY,
    enodev: libc::ENODEV,
    einval: libc::EINVAL,
    enametoolong: libc::ENAMETOOLONG,
    enosys: libc::ENOSYS,
    eproto: libc::EPROTO,
    ecanceled: libc::ECANCELED,
};

#[test]
fn default_unmount_options() {
    assert_eq!(drop_umount_flags(Platform::Linux), [UnmountOption::Detach]);
    assert_eq!(drop_umount_flags(Platform::MacOs), [UnmountOption::Force]);
    assert_eq!(drop_umount_flags(Platform::Other), []);
}

#[test]
fn poll_says_whether_it_is_mounted() {
    assert_eq!(POLLERR, libc::POLLERR);
    assert_eq!(is_mounted(ERRNOS, Ok(0), None), PollVerdict::Mounted(true));
    assert_eq!(is_mounted(ERRNOS, Ok(1), Some(POLLERR)), PollVerdict::Mounted(true));
    assert_eq!(is_mounted(ERRNOS, Ok(1), Some(POLLERR | 1)), PollVerdict::Mounted(true));
    assert_eq!(is_mounted(ERRNOS, Ok(1), Some(libc::POLLHUP)), PollVerdict::Mounted(false));
    assert_eq!(is_mounted(ERRNOS, Ok(1), None), PollVerdict::Mounted(false));
    assert_eq!(is_mounted(ERRNOS, Err(libc::EINTR), None), PollVerdict::Retry);
}

fn mounted() -> MountImpl<&'static str> {
    let mut mount = MountImpl::new("state");
    assert!(matches!(mount.start(), UnmountAction::Probe));
    mount
}

fn refused(code: i32) -> MountImpl<&'static str> {
    let mut mount = mounted();
    assert!(matches!(mount.on_probe(ERRNOS, true), UnmountAction::CallUnmount));
    assert!(matches!(mount.on_call(Err(code)), UnmountAction::Probe));
    mount
}

fn ended(action: UnmountAction) -> Result<(), Option<i32>> {
    match action {
        UnmountAction::Done(result) => result.map_err(|error| error.raw_os_error()),
        other => panic!("{:?}", other),
    }
}

#[test]
fn unmount_gives_the_mount_up() {
    let mut mount = mounted();
    assert!(mount.is_alive(true));
    mount.on_probe(ERRNOS, true);
    assert_eq!(ended(mount.on_call(Ok(()))), Ok(()));
    assert_eq!(mount.state, None);
    assert!(!mount.is_alive(true));
}

#[test]
fn unmount_that_was_left_can_start_again() {
    let mut mount = refused(libc::EBUSY);
    mount.restart();
    assert_eq!(mount.state, Some("state"));
    assert!(matches!(mount.start(), UnmountAction::Probe));
    assert!(matches!(mount.on_probe(ERRNOS, true), UnmountAction::CallUnmount));
}

#[test]
fn second_unmount_does_nothing() {
    let mut mount = mounted();
    assert_eq!(ended(mount.on_probe(ERRNOS, false)), Ok(()));
    assert_eq!(ended(mount.start()), Ok(()));
    assert_eq!(ended(mount.start()), Ok(()));
}

#[test]
fn failed_unmount_keeps_what_is_still_mounted() {
    let mut mount = refused(libc::EBUSY);
    assert_eq!(ended(mount.on_probe(ERRNOS, true)), Err(Some(libc::EBUSY)));
    assert_eq!(mount.state, Some("state"));
    let mut mount = refused(libc::EBUSY);
    assert_eq!(ended(mount.on_probe(ERRNOS, false)), Err(Some(libc::EBUSY)));
    assert_eq!(mount.state, None);
    let mut mount = refused(libc::EPERM);
    assert_eq!(ended(mount.on_probe(ERRNOS, false)), Err(Some(libc::EPERM)));
    assert_eq!(mount.state, None);
}

#[test]
fn helper_unmounts_where_the_call_may_not() {
    let helped = || {
        let mut mount = refused(libc::EPERM);
        assert!(matches!(mount.on_probe(ERRNOS, true), UnmountAction::RunHelper));
        mount
    };
    let mut mount = helped();
    assert_eq!(ended(mount.on_helper(Ok(()))), Ok(()));
    assert_eq!(mount.state, None);
    for still_mounted in [true, false] {
        // The helper is not asked twice, even if it was not permitted either.
        let mut mount = helped();
        let failure = Err(Error::from_raw_os_error(libc::EPERM));
        assert!(matches!(mount.on_helper(failure), UnmountAction::Probe));
        assert_eq!(ended(mount.on_probe(ERRNOS, still_mounted)), Err(Some(libc::EPERM)));
        assert_eq!(mount.state.is_some(), still_mounted);
    }
}

#[test]
fn unmount_runs_to_its_outcome() {
    let mut mount = mounted();
    mount.on_probe(ERRNOS, true);
    mount.on_call(Err(libc::EPERM));
    mount.on_probe(ERRNOS, true);
    mount.on_helper(Err(Error::other("f")));
    match mount.on_probe(ERRNOS, true) {
        UnmountAction::Done(Err(error)) => assert_eq!(error.message, "f"),
        other => panic!("{:?}", other),
    }
    assert_eq!(mount.state, Some("state"));
}

#[test]
fn busy_filesystem_is_waited_for() {
    let step = |code| drop_step(Err(Error::from_raw_os_error(code)));
    assert!(matches!(drop_step(Ok(())), DropStep::Finish));
    assert!(matches!(step(libc::EBUSY), DropStep::RetryAfter { millis: 1000 }));
    assert!(matches!(step(libc::EAGAIN), DropStep::RetryAfter { millis: 10 }));
    match step(libc::EINVAL) {
        DropStep::GiveUp { error } => assert_eq!(error.raw_os_error(), Some(libc::EINVAL)),
        other => panic!("{:?}", other),
    }
}

#[test]
fn salvageable_errors() {
    let of_code = |code| is_mount_salvageable(ERRNOS, &Error::from_raw_os_error(code));
    for code in [libc::EBUSY, libc::EAGAIN, libc::ENOMEM, libc::EPERM] {
        assert!(of_code(code));
    }
    for code in [libc::EFAULT, libc::EINVAL, libc::ENAMETOOLONG, libc::EIO] {
        assert!(!of_code(code));
    }
    // The category speaks first.
    assert!(!of_code(libc::ENOENT));
    let kind = ErrorKind::Unlisted(std::io::ErrorKind::AlreadyExists);
    let unlisted = |code| Error { kind, os: Some(code), message: String::new() };
    assert!(is_mount_salvageable(ERRNOS, &unlisted(libc::ENOENT)));
    assert!(is_mount_salvageable(ERRNOS, &unlisted(libc::EBUSY)));
    assert!(!is_mount_salvageable(ERRNOS, &unlisted(libc::EFAULT)));
    assert!(is_mount_salvageable(ERRNOS, &Error::new(ErrorKind::PermissionDenied, "")));
    assert!(!is_mount_salvageable(ERRNOS, &Error::other("")));
}

fn mount() -> Mount<u8> {
    Mount { mount_impl: Some(1), mount_point: b"/mnt".to_vec() }
}

#[test]
fn unmount_options_are_checked_only_with_a_mount() {
    let empty = Mount::<u8> { mount_impl: None, mount_point: vec![] };
    let conflict = || Err(Error::new(ErrorKind::InvalidInput, "conflict"));
    assert!(matches!(empty.start_umount(conflict()), UmountStart::Done(Ok(()))));
    match mount().start_umount(conflict()) {
        UmountStart::Done(Err((Some(mount), error))) => {
            assert_eq!(mount.mount_impl, Some(1));
            assert_eq!(error.message, "conflict");
        }
        other => panic!("{:?}", other),
    }
    assert!(matches!(mount().start_umount(Ok(())), UmountStart::Proceed(_)));
}

#[test]
fn failed_unmount_can_be_tried_again() {
    let busy = || Err(Error::from_raw_os_error(libc::EBUSY));
    let invalid = || Err(Error::from_raw_os_error(libc::EINVAL));
    for (result, alive, back) in
        [(busy(), true, true), (busy(), false, false), (invalid(), true, false), (Ok(()), true, false)]
    {
        let succeeded = result.is_ok();
        let mut slot = MountSlot::new(Some(mount()));
        let taken = match slot.start_umount() {
            SlotStart::Proceed(taken) => taken,
            other => panic!("{:?}", other),
        };
        assert!(slot.take().is_none());
        let reported = slot.settle(taken.finish_umount(ERRNOS, result, alive));
        assert_eq!(slot.mount.is_some(), back);
        assert_eq!(reported.is_ok(), succeeded);
    }
}

#[test]
fn filesystem_is_destroyed_once() {
    let mut holder = FilesystemHolder::new(5);
    assert_eq!(*holder.get(), 5);
    assert_eq!(holder.destroy(), Some(5));
    assert_eq!(holder.destroy(), None);
}

#[test]
fn session_is_waited_for_once() {
    let mut session = BackgroundSession::new("guard");
    assert_eq!(session.start_join(), Some("guard"));
    assert_eq!(session.start_join(), None);
}

#[test]
fn session_is_unmounted_then_waited_for() {
    let mut slot = MountSlot::new(Some("mount"));
    let mut session = BackgroundSession::new("guard");
    assert!(matches!(session.start_umount_and_join(&mut slot), Teardown::Unmount("mount")));
    assert!(matches!(session.after_umount(&mut slot, Ok(())), Teardown::Wait(Some("guard"))));
    assert_eq!((slot.mount, session.guard), (None, None));
    let mut slot = MountSlot::<&str>::new(None);
    let mut session = BackgroundSession::new("guard");
    assert!(matches!(session.start_umount_and_join(&mut slot), Teardown::Wait(Some("guard"))));
    assert!(matches!(session.start_umount_and_join(&mut slot), Teardown::Wait(None)));
}

#[test]
fn session_that_stays_mounted_is_handed_back() {
    for still_there in [true, false] {
        let mut slot = MountSlot::new(Some(mount()));
        let mut session = BackgroundSession::new("guard");
        let taken = match session.start_umount_and_join(&mut slot) {
            Teardown::Unmount(taken) => taken,
            other => panic!("{:?}", other),
        };
        let busy = Err(Error::from_raw_os_error(libc::EBUSY));
        let outcome = taken.finish_umount(ERRNOS, busy, still_there);
        match session.after_umount(&mut slot, outcome) {
            Teardown::Fail(error) => assert_eq!(error.raw_os_error(), Some(libc::EBUSY)),
            other => panic!("{:?}", other),
        }
        assert_eq!(session.is_handed_back(&slot), still_there);
        assert_eq!(slot.mount.is_some(), still_there);
        assert_eq!(session.guard, Some("guard"));
    }
}

#[test]
fn dropped_session_leaves_no_mount() {
    let mut slot = MountSlot::new(Some(mount()));
    let mut session = BackgroundSession::new("guard");
    let taken = match session.start_umount_and_join(&mut slot) {
        Teardown::Unmount(taken) => taken,
        other => panic!("{:?}", other),
    };
    let busy = Err(Error::from_raw_os_error(libc::EBUSY));
    session.after_umount(&mut slot, taken.finish_umount(ERRNOS, busy, true));
    assert_eq!(session.release(&mut slot).unwrap().mount_impl, Some(1));
    assert!(session.release(&mut slot).is_none());
}

#[test]
fn unmounter_serves_a_background_session() {
    let mut slot = MountSlot::new(Some(mount()));
    let mut session = BackgroundSession::new("guard");
    let taken = match slot.start_umount() {
        SlotStart::Proceed(taken) => taken,
        other => panic!("{:?}", other),
    };
    assert!(slot.settle(taken.finish_umount(ERRNOS, Ok(()), false)).is_ok());
    assert!(matches!(slot.start_umount(), SlotStart::Done(Ok(()))));
    assert!(matches!(session.start_umount_and_join(&mut slot), Teardown::Wait(Some("guard"))));
}

#[test]
fn detached_session_leaves_its_guard() {
    let mut slot = MountSlot::new(Some("mount"));
    let mut session = BackgroundSession::new("guard");
    match session.start_umount_and_detach(&mut slot) {
        Detachment::Unmount { mount, options } => {
            assert_eq!(mount, "mount");
            assert_eq!(options, [UnmountOption::Detach]);
        }
        other => panic!("{:?}", other),
    }
    let next = session.after_detaching_umount(&mut slot, Ok(()));
    assert!(matches!(next, Detachment::Detached("guard")));
    match session.start_umount_and_detach(&mut slot) {
        Detachment::Fail(error) => {
            assert_eq!(error.kind(), ErrorKind::Other);
            assert_eq!(error.message, "FUSE session guard not found");
        }
        other => panic!("{:?}", other),
    }
    let mut slot = MountSlot::new(Some("mount"));
    let mut session = BackgroundSession::new("guard");
    session.start_umount_and_detach(&mut slot);
    let failure = Err((Some("mount"), Error::other("busy")));
    let next = session.after_detaching_umount(&mut slot, failure);
    assert!(matches!(next, Detachment::Fail(_)));
    assert_eq!((slot.mount, session.guard), (Some("mount"), Some("guard")));
    let mut slot = MountSlot::<&str>::new(None);
    let mut session = BackgroundSession::new("guard");
    let next = session.start_umount_and_detach(&mut slot);
    assert!(matches!(next, Detachment::Detached("guard")));
    assert_eq!(detach_umount_flags(), [UnmountOption::Detach]);
}

#[test]
fn join_tells_how_the_session_ended() {
    assert!(join_result(None).is_ok());
    assert!(join_result(Some(Joined::Ended(Ok(())))).is_ok());
    let error = join_result(Some(Joined::Ended(Err(Error::from_raw_os_error(libc::EIO))))).unwrap_err();
    assert_eq!(error.raw_os_error(), Some(libc::EIO));
    let error = join_result(Some(Joined::Lost("task panicked".to_string()))).unwrap_err();
    assert_eq!((error.kind(), error.message.as_str()), (ErrorKind::Other, "task panicked"));
}

#[test]
fn salvage_follows_the_codes_of_the_system() {
    let elsewhere = Errnos { eagain: 35, enametoolong: 63, ..ERRNOS };
    let kind = ErrorKind::Unlisted(std::io::ErrorKind::AlreadyExists);
    let unlisted = |code| Error { kind, os: Some(code), message: String::new() };
    assert!(is_mount_salvageable(elsewhere, &unlisted(35)));
    assert!(!is_mount_salvageable(elsewhere, &unlisted(63)));
    assert!(!is_mount_salvageable(elsewhere, &unlisted(11)));
}
