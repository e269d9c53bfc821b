use async_fuser::acl::SessionACL;
use async_fuser::errno::Errnos;
use async_fuser::error::{Error, ErrorKind};
use async_fuser::fusermount::{
    captured_error, detect_fusermount_bin, direct_mount_outcome, helper_candidates,
    helper_mount_failure, helper_mount_failure_of_text, helper_unmount_outcome, is_mount_fusefs,
    judge_helper_unmount, mount_fusefs_outcome, mount_fusefs_outcome_of_text, mount_route,
    parse_fusermount_unmount_stderr, receive_step, received_descriptor, reported_unmount_error,
    socket_variable_value, unmount_args, unmount_args_for_text, ControlMessage, DirectMount, HelperUnmount, MountRoute,
    ReceiveStep,
};
use async_fuser::mount_options::{
    fusermount_mount_args, has_auto_unmount, mount_data, mount_flags, mount_fusefs_args,
    mount_source, MountOption, MountOptionGroup, MountOptionKind, MNT_NODEV, MNT_NOSUID,
    MS_NODEV, MS_NOSUID,
};
use async_fuser::mounting::{MountAction, MountAttempt, MountCallTexts, MountEvent};
use async_fuser::platform::Platform;
use async_fuser::text::{
    contains_text, ends_with_text, join, write_decimal, write_octal, write_unsigned,
};

// The error codes of the system that the tests run on.
const ERRNOS: Errnos = Errnos {
    eperm: libc::EPERM,
    enoent: libc::ENOENT,
    eintr: libc::EINTR,
    eio: libc::EIO,
    eagain: libc::EAGAIN,
    enomem: libc::ENOMEM,
    eacces: libc::EACCES,
    efault: libc::EFAULT,
    ebusy: libc::EBUSY,
    enodev: libc::ENODEV,
    einval: libc::EINVAL,
    enametoolong: libc::ENAMETOOLONG,
    enosys: libc::ENOSYS,
    eproto: libc::EPROTO,
    ecanceled: libc::ECANCELED,
};

fn option(kind: MountOptionKind, group: MountOptionGroup, text: &str) -> MountOption {
    let flag = Err(Error::other("not a flag"));
    MountOption { kind, group, text: text.to_string(), flag }
}

fn flag(kind: MountOptionKind, text: &str, bits: u64) -> MountOption {
    let group = MountOptionGroup::KernelFlag;
    MountOption { kind, group, text: text.to_string(), flag: Ok(bits) }
}

fn fs_name(name: &str) -> MountOption {
    let kind = MountOptionKind::FSName(name.to_string());
    option(kind, MountOptionGroup::Fusermount, &format!("fsname={}", name))
}

fn subtype(name: &str) -> MountOption {
    let kind = MountOptionKind::Subtype(name.to_string());
    option(kind, MountOptionGroup::Fusermount, &format!("subtype={}", name))
}

fn auto_unmount() -> MountOption {
    option(MountOptionKind::AutoUnmount, MountOptionGroup::Fusermount, "auto_unmount")
}

fn default_permissions() -> MountOption {
    option(MountOptionKind::Other, MountOptionGroup::KernelOption, "default_permissions")
}

#[test]
fn numerals_are_those_of_std() {
    for n in [0, 7, 8, 10, 4096, i64::MAX, i64::MIN, -1, -100] {
        assert_eq!(write_decimal(n), n.to_string());
    }
    for n in [0, 9, 10, u64::MAX] {
        assert_eq!(write_unsigned(n), n.to_string());
        assert_eq!(write_octal(n), format!("{:o}", n));
    }
    assert_eq!(write_octal(0o40755), "40755");
}

#[test]
fn numeral_is_read_back() {
    for n in [0u64, 5, 64, 1 << 40] {
        assert_eq!(u64::from_str_radix(&write_octal(n), 8).unwrap(), n);
        assert_eq!(write_unsigned(n).parse::<u64>().unwrap(), n);
    }
}

#[test]
fn texts_are_joined_and_searched() {
    let parts = |texts: &[&str]| texts.iter().map(|t| t.to_string()).collect::<Vec<String>>();
    assert_eq!(join(&parts(&[]), ","), "");
    assert_eq!(join(&parts(&["a"]), ","), "a");
    assert_eq!(join(&parts(&["a", "", "b"]), ", "), "a, , b");
    assert!(contains_text("abcabd", "abd"));
    assert!(contains_text("abc", ""));
    assert!(contains_text("abc", "abc"));
    assert!(!contains_text("ab", "abc"));
    assert!(!contains_text("abcab", "abd"));
    assert!(ends_with_text("/sbin/mount_fusefs", "mount_fusefs"));
    assert!(!ends_with_text("mount_fusefs3", "mount_fusefs"));
    assert!(!ends_with_text("fusefs", "mount_fusefs"));
}

#[test]
fn mount_flag_values_are_those_of_the_system() {
    assert_eq!(MS_NODEV, libc::MS_NODEV as u64);
    assert_eq!(MS_NOSUID, libc::MS_NOSUID as u64);
}

#[test]
fn mount_data_is_one_list() {
    let options = vec![fs_name("x"), default_permissions(), flag(MountOptionKind::Other, "ro", 1)];
    assert_eq!(
        mount_data(5, 0o40755, 1000, 100, &options, SessionACL::All),
        "fd=5,rootmode=40755,user_id=1000,group_id=100,default_permissions,allow_other"
    );
    assert_eq!(
        mount_data(5, 0o40755, 1000, 100, &vec![], SessionACL::Owner),
        "fd=5,rootmode=40755,user_id=1000,group_id=100"
    );
}

#[test]
fn nodev_and_nosuid_hold_by_default() {
    assert_eq!(mount_flags(&vec![], Platform::Linux).unwrap(), MS_NODEV | MS_NOSUID);
    let read_only = vec![flag(MountOptionKind::Other, "ro", 1)];
    assert_eq!(mount_flags(&read_only, Platform::Linux).unwrap(), MS_NODEV | MS_NOSUID | 1);
    let dev = vec![flag(MountOptionKind::Dev, "dev", 0)];
    assert_eq!(mount_flags(&dev, Platform::Linux).unwrap(), MS_NOSUID);
    let suid = vec![flag(MountOptionKind::Suid, "suid", 0), default_permissions()];
    assert_eq!(mount_flags(&suid, Platform::Linux).unwrap(), MS_NODEV);
    assert_eq!(mount_flags(&vec![], Platform::MacOs).unwrap(), MNT_NODEV | MNT_NOSUID);
    assert_eq!(mount_flags(&suid, Platform::MacOs).unwrap(), 0x10);
    assert_eq!(mount_flags(&dev, Platform::MacOs).unwrap(), 0x8);
}

#[test]
fn flags_come_from_options() {
    let options = vec![
        flag(MountOptionKind::Other, "ro", 1),
        default_permissions(),
        flag(MountOptionKind::Other, "sync", 16),
    ];
    assert_eq!(mount_flags(&options, Platform::Linux).unwrap(), 1 | 2 | 4 | 16);
}

#[test]
fn first_missing_flag_is_reported() {
    let missing = |text: &str| MountOption {
        kind: MountOptionKind::Other,
        group: MountOptionGroup::KernelFlag,
        text: text.to_string(),
        flag: Err(Error::new(ErrorKind::InvalidInput, text)),
    };
    let options = vec![flag(MountOptionKind::Other, "ro", 1), missing("first"), missing("second")];
    let error = mount_flags(&options, Platform::Linux).unwrap_err();
    assert_eq!((error.kind(), error.message.as_str()), (ErrorKind::InvalidInput, "first"));
}

#[test]
fn mount_source_prefers_the_name() {
    assert_eq!(mount_source(&vec![]), "/dev/fuse");
    assert_eq!(mount_source(&vec![subtype("s"), subtype("t")]), "s");
    assert_eq!(mount_source(&vec![subtype("s"), fs_name("n"), fs_name("m")]), "n");
}

#[test]
fn helper_arguments() {
    assert!(has_auto_unmount(&vec![default_permissions(), auto_unmount()]));
    assert!(!has_auto_unmount(&vec![default_permissions()]));
    assert_eq!(fusermount_mount_args(&vec![], SessionACL::Owner), ["--"]);
    assert_eq!(
        fusermount_mount_args(&vec![], SessionACL::RootAndOwner),
        ["-o", "allow_other", "--"]
    );
    let options = vec![fs_name("x"), auto_unmount()];
    assert_eq!(
        fusermount_mount_args(&options, SessionACL::All),
        ["-o", "fsname=x,auto_unmount,allow_other", "--"]
    );
    assert_eq!(mount_fusefs_args(&options, 7), ["-o", "fsname=x,auto_unmount", "7"]);
    assert_eq!(mount_fusefs_args(&vec![], 7), ["7"]);
}

#[test]
fn helper_is_the_named_one_or_the_first_that_runs() {
    let names = helper_candidates();
    assert_eq!(
        names,
        [
            "fusermount3",
            "fusermount",
            "mount_fusefs",
            "/sbin/fusermount3",
            "/sbin/fusermount",
            "/sbin/mount_fusefs",
            "/bin/fusermount3",
            "/bin/fusermount",
        ]
    );
    assert_eq!(detect_fusermount_bin(Some("/opt/f".to_string()), &vec![true]), "/opt/f");
    assert_eq!(detect_fusermount_bin(None, &vec![false, true]), "fusermount");
    assert_eq!(detect_fusermount_bin(None, &vec![false; 8]), "fusermount3");
    assert_eq!(detect_fusermount_bin(None, &vec![]), "fusermount3");
    assert!(is_mount_fusefs("/sbin/mount_fusefs"));
    assert!(!is_mount_fusefs("fusermount3"));
}

#[test]
fn route_depends_on_auto_unmount_and_platform() {
    let direct = MountRoute::DirectThenHelper;
    assert_eq!(mount_route(&vec![], Platform::Linux), direct);
    assert_eq!(mount_route(&vec![], Platform::MacOs), direct);
    assert_eq!(mount_route(&vec![], Platform::Other), MountRoute::Helper);
    assert_eq!(mount_route(&vec![auto_unmount()], Platform::Linux), MountRoute::Helper);
}

#[test]
fn mount_call_outcome() {
    let outcome = |result| direct_mount_outcome(ERRNOS, result, "\"/mnt\"", "\"fd=5\"", "F", "EBUSY");
    assert_eq!(outcome(Ok(())).unwrap(), DirectMount::Mounted);
    assert_eq!(outcome(Err(libc::EPERM)).unwrap(), DirectMount::UseHelper);
    let error = outcome(Err(libc::EBUSY)).unwrap_err();
    assert_eq!(error.kind(), ErrorKind::Other);
    assert_eq!(
        error.message,
        "Error calling mount() at \"/mnt\" with \"fd=5\" and flags=F: EBUSY"
    );
}

#[test]
fn socket_is_named_by_its_number() {
    assert_eq!(socket_variable_value(17), "17");
}

#[test]
fn interrupted_receive_is_made_again() {
    assert!(matches!(receive_step(ERRNOS, Ok(1)), ReceiveStep::Received { bytes: 1 }));
    assert!(matches!(receive_step(ERRNOS, Err(libc::EINTR)), ReceiveStep::Retry));
    match receive_step(ERRNOS, Err(libc::EAGAIN)) {
        ReceiveStep::Fail { error } => {
            assert_eq!(error.raw_os_error(), Some(libc::EAGAIN));
            assert_eq!(error.kind(), ErrorKind::WouldBlock);
        }
        other => panic!("{:?}", other),
    }
}

#[test]
fn descriptor_is_the_first_that_is_sent() {
    let rights = |fds: Vec<i32>| ControlMessage::ScmRights(fds);
    let of = |messages| received_descriptor(1, Ok(messages));
    assert_eq!(of(vec![rights(vec![]), rights(vec![9, 10])]).unwrap(), 9);
    let failure = |result: Result<i32, Error>| {
        let error = result.unwrap_err();
        (error.kind(), error.message)
    };
    let invalid = ErrorKind::InvalidData;
    assert_eq!(failure(of(vec![rights(vec![-1])])), (invalid, String::new()));
    assert_eq!(
        failure(of(vec![ControlMessage::Other("Creds".to_string()), rights(vec![9])])),
        (invalid, "Unknown control message from fusermount: Creds".to_string())
    );
    assert_eq!(
        failure(of(vec![])),
        (invalid, "No SCM_RIGHTS message received from fusermount".to_string())
    );
    assert_eq!(
        failure(received_descriptor(1, Err("truncated".to_string()))),
        (invalid, "truncated".to_string())
    );
    assert_eq!(
        failure(received_descriptor(0, Ok(vec![rights(vec![9])]))),
        (ErrorKind::UnexpectedEof, "Unexpected EOF reading from fusermount".to_string())
    );
}

#[test]
fn complaint_about_allow_other_is_a_permission_error() {
    let complaint = "fusermount: option allow_other only allowed if 'user_allow_other' is set in f";
    let error = helper_mount_failure(complaint.as_bytes());
    assert_eq!(error.kind(), ErrorKind::PermissionDenied);
    assert_eq!(error.message, complaint);
    assert_eq!(
        helper_mount_failure_of_text(complaint.to_string()).kind(),
        ErrorKind::PermissionDenied
    );
    let error = helper_mount_failure(b"no\xff");
    assert_eq!(error.kind(), ErrorKind::Other);
    assert_eq!(error.message, "no\u{fffd}");
}

#[test]
fn mount_fusefs_speaks_for_itself() {
    assert!(mount_fusefs_outcome(true, b"warning").is_ok());
    let error = mount_fusefs_outcome(false, b"bad \xf0").unwrap_err();
    assert_eq!(error.kind(), ErrorKind::Other);
    assert_eq!(error.message, "bad \u{fffd}");
    assert!(mount_fusefs_outcome_of_text(true, String::new()).is_ok());
    let error = mount_fusefs_outcome_of_text(false, "t".to_string()).unwrap_err();
    assert_eq!(error.message, "t");
}

#[test]
fn unmount_arguments() {
    let lazy = || vec![None, Some("-z".to_string())];
    assert_eq!(unmount_args(&lazy(), b"/mnt/a"), ["-u", "-z", "--", "/mnt/a"]);
    assert_eq!(unmount_args(&vec![], b"/mnt/\xff"), ["-u", "--", "/mnt/\u{fffd}"]);
    assert_eq!(unmount_args_for_text(&lazy(), "m"), ["-u", "-z", "--", "m"]);
}

#[test]
fn reported_error_is_found() {
    let parse = parse_fusermount_unmount_stderr;
    assert_eq!(
        parse(b"fusermount3: failed to unmount /mnt/a: Device or resource busy\n"),
        Some(b"Device or resource busy".to_vec())
    );
    assert_eq!(
        parse(b"x\nfusermount: failed to unmount /m: a: b\nrest"),
        Some(b"a: b".to_vec())
    );
    assert_eq!(parse(b"fusermount: entry for /m not found in /etc/mtab"), None);
    assert_eq!(parse(b": failed to unmount /m: e"), None);
    assert_eq!(parse(b"f:: failed to unmount /m: e"), None);
    assert_eq!(parse(b"f: failed to unmount : e"), None);
    assert_eq!(parse(b"f: failed to unmount /m:e"), None);
    assert_eq!(parse(b"f: failed to unmount /m: \n"), None);
    assert_eq!(parse(b"f: failed to unmount /m\n: e"), Some(b"e".to_vec()));
    assert_eq!(
        parse(b"f: failed to unmount /m: \nf: failed to unmount /n: e\r\n"),
        Some(b"e\r".to_vec())
    );
    assert_eq!(
        parse("f\u{e9}: failed to unmount /\u{20ac}: \u{fc}bel".as_bytes()),
        Some("\u{fc}bel".as_bytes().to_vec())
    );
    assert_eq!(
        parse(b"f: failed to unmount /a: failed to unmount /b: c"),
        Some(b"failed to unmount /b: c".to_vec())
    );
    assert_eq!(captured_error(Some(None)), Some(vec![]));
    assert_eq!(captured_error(Some(Some(vec![1]))), Some(vec![1]));
    assert_eq!(captured_error(None), None);
}

#[test]
fn unmount_by_the_helper() {
    assert!(matches!(helper_unmount_outcome(true, b"noise"), HelperUnmount::Unmounted));
    match helper_unmount_outcome(false, b"f: failed to unmount /m: Invalid argument") {
        HelperUnmount::Reported(words) => assert_eq!(words, b"Invalid argument".to_vec()),
        other => panic!("{:?}", other),
    }
    match helper_unmount_outcome(false, b"odd\xff") {
        HelperUnmount::Failed(error) => {
            assert_eq!(error.kind(), ErrorKind::Other);
            assert_eq!(
                error.message,
                "Failed to parse fusermount umount error message: odd\u{fffd}"
            );
        }
        other => panic!("{:?}", other),
    }
    assert!(matches!(judge_helper_unmount(true, None, ""), HelperUnmount::Unmounted));
    assert!(matches!(
        judge_helper_unmount(false, Some(vec![1]), ""),
        HelperUnmount::Reported(_)
    ));
}

#[test]
fn reported_words_become_an_error() {
    let busy = reported_unmount_error(Ok(Some(libc::EBUSY)));
    assert_eq!(busy.raw_os_error(), Some(libc::EBUSY));
    assert_eq!(busy.kind(), ErrorKind::ResourceBusy);
    assert_eq!(
        reported_unmount_error(Ok(None)).message,
        "errno not found for fusermount umount message"
    );
    assert_eq!(
        reported_unmount_error(Err(())).message,
        "failed to get errno by fusermount umount message"
    );
}

fn called(result: Result<(), i32>) -> MountEvent {
    let text = |t: &str| t.to_string();
    MountEvent::Called {
        result,
        texts: MountCallTexts {
            mountpoint: text("m"),
            data: text("d"),
            flags: text("f"),
            cause: text("c"),
        },
    }
}

fn helper(program: &str) -> MountEvent {
    MountEvent::Helper { program: program.to_string() }
}

fn until_call(attempt: &mut MountAttempt) {
    assert!(matches!(attempt.start(), MountAction::ReadMode));
    assert!(matches!(attempt.step(MountEvent::Mode(Ok(0o40700))), MountAction::OpenDevice));
    match attempt.step(MountEvent::Device(Ok(6))) {
        MountAction::CallMount { source, fstype, data, flags } => {
            assert_eq!((source.as_str(), fstype.as_str()), ("/dev/fuse", "fuse"));
            assert_eq!(data, "fd=6,rootmode=40700,user_id=1,group_id=2");
            assert_eq!(flags, MS_NODEV | MS_NOSUID);
        }
        other => panic!("{:?}", other),
    }
}

#[test]
fn mount_call_comes_first() {
    let options = vec![];
    let mut attempt = MountAttempt::new(&options, SessionACL::Owner, Platform::Linux, ERRNOS, 1, 2);
    until_call(&mut attempt);
    let end = attempt.step(called(Ok(())));
    assert!(matches!(end, MountAction::Mounted { keep_socket: false }));

    let mut attempt = MountAttempt::new(&options, SessionACL::Owner, Platform::Linux, ERRNOS, 1, 2);
    until_call(&mut attempt);
    match attempt.step(called(Err(libc::EBUSY))) {
        MountAction::Fail { error } => {
            assert_eq!(error.message, "Error calling mount() at m with d and flags=f: c");
        }
        other => panic!("{:?}", other),
    }
}

#[test]
fn helper_is_asked_only_if_needed() {
    let options = vec![];
    let mut attempt = MountAttempt::new(&options, SessionACL::Owner, Platform::Linux, ERRNOS, 1, 2);
    until_call(&mut attempt);
    assert!(matches!(attempt.step(called(Err(libc::EPERM))), MountAction::DetectHelper));
    match attempt.step(helper("fusermount3")) {
        MountAction::StartFusermount { args, socket_variable } => {
            assert_eq!(args, ["--"]);
            assert_eq!(socket_variable, "_FUSE_COMMFD");
        }
        other => panic!("{:?}", other),
    }
    assert!(matches!(attempt.step(MountEvent::Started(Ok(()))), MountAction::ReceiveDescriptor));
    let next = attempt.step(MountEvent::Descriptor { received: true });
    assert!(matches!(next, MountAction::AwaitHelper));
    let end = attempt.step(MountEvent::Ended(Ok(())));
    assert!(matches!(end, MountAction::Mounted { keep_socket: false }));
}

#[test]
fn socket_is_kept_for_auto_unmount() {
    let options = vec![auto_unmount()];
    let mut attempt = MountAttempt::new(&options, SessionACL::All, Platform::Linux, ERRNOS, 1, 2);
    assert!(matches!(attempt.start(), MountAction::DetectHelper));
    match attempt.step(helper("fusermount")) {
        MountAction::StartFusermount { args, .. } => {
            assert_eq!(args, ["-o", "auto_unmount,allow_other", "--"]);
        }
        other => panic!("{:?}", other),
    }
    attempt.step(MountEvent::Started(Ok(())));
    let next = attempt.step(MountEvent::Descriptor { received: true });
    assert!(matches!(next, MountAction::ReadHelperOutput));
    let end = attempt.step(MountEvent::OutputRead);
    assert!(matches!(end, MountAction::Mounted { keep_socket: true }));
}

#[test]
fn helper_that_sends_nothing_is_heard() {
    let options = vec![];
    let mut attempt = MountAttempt::new(&options, SessionACL::All, Platform::Other, ERRNOS, 1, 2);
    assert!(matches!(attempt.start(), MountAction::DetectHelper));
    attempt.step(helper("fusermount"));
    attempt.step(MountEvent::Started(Ok(())));
    let next = attempt.step(MountEvent::Descriptor { received: false });
    assert!(matches!(next, MountAction::CollectComplaint));
    match attempt.step(MountEvent::Complaint(Ok(b"mount failed".to_vec()))) {
        MountAction::Fail { error } => assert_eq!(error.message, "mount failed"),
        other => panic!("{:?}", other),
    }
}

#[test]
fn bsd_helper_gets_an_open_device() {
    let options = vec![default_permissions()];
    let mut attempt = MountAttempt::new(&options, SessionACL::All, Platform::Other, ERRNOS, 1, 2);
    attempt.start();
    assert!(matches!(attempt.step(helper("/sbin/mount_fusefs")), MountAction::OpenDevice));
    match attempt.step(MountEvent::Device(Ok(4))) {
        MountAction::RunMountFusefs { args } => {
            assert_eq!(args, ["-o", "default_permissions", "4"]);
        }
        other => panic!("{:?}", other),
    }
    let end = attempt.step(MountEvent::MountFusefs(Ok((true, vec![]))));
    assert!(matches!(end, MountAction::Mounted { keep_socket: false }));
}

#[test]
fn failures_end_the_mount() {
    let options = vec![];
    let error = || Error::from_raw_os_error(libc::ENOENT);
    let mut attempt = MountAttempt::new(&options, SessionACL::Owner, Platform::MacOs, ERRNOS, 1, 2);
    attempt.start();
    match attempt.step(MountEvent::Mode(Err(error()))) {
        MountAction::Fail { error } => assert_eq!(error.raw_os_error(), Some(libc::ENOENT)),
        other => panic!("{:?}", other),
    }
    let mut attempt = MountAttempt::new(&options, SessionACL::Owner, Platform::Linux, ERRNOS, 1, 2);
    attempt.start();
    attempt.step(MountEvent::Mode(Ok(0)));
    let end = attempt.step(MountEvent::Device(Err(error())));
    assert!(matches!(end, MountAction::Fail { .. }));
}
