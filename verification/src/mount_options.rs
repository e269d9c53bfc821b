//! Mount options, and what the kernel and the mount helpers are told of them.
use vstd::prelude::*;

use crate::acl::SessionACL;
use crate::error::{Error, ErrorView};
use crate::platform::Platform;
use crate::text::{decimal, join, joined, octal, write_decimal, write_octal};

verus! {

/// The mount flag that forbids device files (`MS_NODEV` of Linux).
pub const MS_NODEV: u64 = 4;

/// The mount flag that ignores set-user-ID bits (`MS_NOSUID` of Linux).
pub const MS_NOSUID: u64 = 2;

/// The mount flag that forbids device files (`MNT_NODEV` of macOS).
pub const MNT_NODEV: u64 = 0x10;

/// The mount flag that ignores set-user-ID bits (`MNT_NOSUID` of macOS).
pub const MNT_NOSUID: u64 = 0x8;

/// The mount flag that forbids device files. No platform but Linux and macOS has a mount call that
/// the library knows.
pub open spec fn nodev_flag(platform: Platform) -> u64 {
    if platform == Platform::MacOs {
        MNT_NODEV
    } else {
        MS_NODEV
    }
}

/// The mount flag that ignores set-user-ID bits.
pub open spec fn nosuid_flag(platform: Platform) -> u64 {
    if platform == Platform::MacOs {
        MNT_NOSUID
    } else {
        MS_NOSUID
    }
}

/// What an option means to the library.
#[derive(Debug)]
pub enum MountOptionKind {
    /// The name of the mounted source.
    FSName(String),
    /// The subtype of the filesystem.
    Subtype(String),
    /// Unmount when the process goes away.
    AutoUnmount,
    /// Allow device files.
    Dev,
    /// Honour set-user-ID bits.
    Suid,
    /// An option that the library only passes on.
    Other,
}

/// Who takes care of an option.
#[derive(Clone, Copy, Debug, PartialEq, Eq, Structural)]
pub enum MountOptionGroup {
    /// The kernel, as a word in the option list of the mount call.
    KernelOption,
    /// The kernel, as a flag of the mount call.
    KernelFlag,
    /// The mount helper.
    Fusermount,
}

/// A mount option.
#[derive(Debug)]
pub struct MountOption {
    /// What it means to the library.
    pub kind: MountOptionKind,
    /// Who takes care of it.
    pub group: MountOptionGroup,
    /// How it is written in an option list.
    pub text: String,
    /// The flag of the mount call that it stands for, or why there is none.
    pub flag: Result<u64, Error>,
}

/// Whether some option asks to unmount when the process goes away.
pub open spec fn wants_auto_unmount(options: Seq<MountOption>) -> bool {
    exists|i: int| 0 <= i < options.len() && #[trigger] options[i].kind is AutoUnmount
}

/// Whether some option allows device files.
pub open spec fn wants_dev(options: Seq<MountOption>) -> bool {
    exists|i: int| 0 <= i < options.len() && #[trigger] options[i].kind is Dev
}

/// Whether some option honours set-user-ID bits.
pub open spec fn wants_suid(options: Seq<MountOption>) -> bool {
    exists|i: int| 0 <= i < options.len() && #[trigger] options[i].kind is Suid
}

/// How the options are written, in order.
pub open spec fn option_texts(options: Seq<MountOption>) -> Seq<Seq<char>> {
    options.map_values(|option: MountOption| option.text@)
}

/// How the options that the kernel takes as words are written, in order.
pub open spec fn kernel_option_texts(options: Seq<MountOption>) -> Seq<Seq<char>> {
    option_texts(options.filter(|option: MountOption| option.group == MountOptionGroup::KernelOption))
}

/// The word that the access rule adds to an option list, if any.
pub open spec fn acl_texts(acl: SessionACL) -> Seq<Seq<char>> {
    match acl.mount_option() {
        Some(text) => seq![text],
        None => seq![],
    }
}

/// The option list of the mount call: how to reach the device, what the mount point is and who
/// mounts it, then the options that the kernel takes as words, then the access rule.
pub open spec fn mount_data_text(
    fd: i32,
    mode: u32,
    uid: u32,
    gid: u32,
    options: Seq<MountOption>,
    acl: SessionACL,
) -> Seq<char> {
    joined(
        seq![
            "fd="@ + decimal(fd as int),
            "rootmode="@ + octal(mode as nat),
            "user_id="@ + decimal(uid as int),
            "group_id="@ + decimal(gid as int),
        ] + kernel_option_texts(options) + acl_texts(acl),
        ","@,
    )
}

/// Whether some option asks to unmount when the process goes away.
pub fn has_auto_unmount(options: &Vec<MountOption>) -> (found: bool)
    ensures
        found == wants_auto_unmount(options@),
{
    let mut i: usize = 0;
    while i < options.len()
        invariant
            i <= options.len(),
            forall|j: int| 0 <= j < i ==> !(#[trigger] options@[j].kind is AutoUnmount),
        decreases options.len() - i,
    {
        match &options[i].kind {
            MountOptionKind::AutoUnmount => {
                return true;
            },
            _ => {},
        }
        i = i + 1;
    }
    false
}

fn has_dev(options: &Vec<MountOption>) -> (found: bool)
    ensures
        found == wants_dev(options@),
{
    let mut i: usize = 0;
    while i < options.len()
        invariant
            i <= options.len(),
            forall|j: int| 0 <= j < i ==> !(#[trigger] options@[j].kind is Dev),
        decreases options.len() - i,
    {
        match &options[i].kind {
            MountOptionKind::Dev => {
                return true;
            },
            _ => {},
        }
        i = i + 1;
    }
    false
}

fn has_suid(options: &Vec<MountOption>) -> (found: bool)
    ensures
        found == wants_suid(options@),
{
    let mut i: usize = 0;
    while i < options.len()
        invariant
            i <= options.len(),
            forall|j: int| 0 <= j < i ==> !(#[trigger] options@[j].kind is Suid),
        decreases options.len() - i,
    {
        match &options[i].kind {
            MountOptionKind::Suid => {
                return true;
            },
            _ => {},
        }
        i = i + 1;
    }
    false
}

fn labelled(label: &str, value: &str) -> (text: String)
    ensures
        text@ == label@ + value@,
{
    let mut text = label.to_owned();
    text.append(value);
    text
}

fn push_acl(parts: &mut Vec<String>, acl: SessionACL)
    ensures
        final(parts).deep_view() == old(parts).deep_view() + acl_texts(acl),
{
    match acl.to_mount_option() {
        Some(text) => {
            parts.push(text.to_owned());
            assert(parts.deep_view() =~= old(parts).deep_view() + acl_texts(acl));
        },
        None => {
            assert(parts.deep_view() =~= old(parts).deep_view() + acl_texts(acl));
        },
    }
}

/// Writes the option list of the mount call, for the device open as `fd`, a mount point with the
/// given mode, and the given user and group.
pub fn mount_data(
    fd: i32,
    mode: u32,
    uid: u32,
    gid: u32,
    options: &Vec<MountOption>,
    acl: SessionACL,
) -> (text: String)
    ensures
        text@ == mount_data_text(fd, mode, uid, gid, options@, acl),
{
    let mut parts: Vec<String> = Vec::new();
    parts.push(labelled("fd=", write_decimal(fd as i64).as_str()));
    parts.push(labelled("rootmode=", write_octal(mode as u64).as_str()));
    parts.push(labelled("user_id=", write_decimal(uid as i64).as_str()));
    parts.push(labelled("group_id=", write_decimal(gid as i64).as_str()));
    let ghost head = parts.deep_view();
    let ghost in_kernel = |option: MountOption| option.group == MountOptionGroup::KernelOption;
    let mut i: usize = 0;
    while i < options.len()
        invariant
            i <= options.len(),
            in_kernel == (|option: MountOption| option.group == MountOptionGroup::KernelOption),
            parts.deep_view() == head + option_texts(options@.take(i as int).filter(in_kernel)),
        decreases options.len() - i,
    {
        proof {
            reveal(Seq::filter);
            let longer = options@.take(i as int + 1);
            assert(longer.drop_last() =~= options@.take(i as int));
            assert(longer.last() == options@[i as int]);
        }
        let ghost before = parts.deep_view();
        match options[i].group {
            MountOptionGroup::KernelOption => {
                parts.push(options[i].text.clone());
                assert(parts.deep_view() =~= before.push(options@[i as int].text@));
                assert(option_texts(options@.take(i as int).filter(in_kernel).push(options@[i as int]))
                    =~= option_texts(options@.take(i as int).filter(in_kernel)).push(
                    options@[i as int].text@,
                ));
            },
            _ => {},
        }
        i = i + 1;
    }
    assert(options@.take(i as int) =~= options@);
    push_acl(&mut parts, acl);
    assert(head =~= seq![
        "fd="@ + decimal(fd as int),
        "rootmode="@ + octal(mode as nat),
        "user_id="@ + decimal(uid as int),
        "group_id="@ + decimal(gid as int),
    ]);
    join(&parts, ",")
}

/// The mount flags that hold without any option: no device files and no set-user-ID bits, unless
/// an option allows them.
pub open spec fn default_flags(options: Seq<MountOption>, platform: Platform) -> u64 {
    let nodev: u64 = if wants_dev(options) {
        0
    } else {
        nodev_flag(platform)
    };
    let nosuid: u64 = if wants_suid(options) {
        0
    } else {
        nosuid_flag(platform)
    };
    nodev | nosuid
}

/// The flags `base`, with those of the options that are flags. The first option that is a flag and
/// has none here is an error.
pub open spec fn flags_with(options: Seq<MountOption>, base: u64) -> Result<u64, ErrorView>
    decreases options.len(),
{
    if options.len() == 0 {
        Ok(base)
    } else {
        match flags_with(options.drop_last(), base) {
            Err(error) => Err(error),
            Ok(earlier) => if options.last().group == MountOptionGroup::KernelFlag {
                match options.last().flag {
                    Ok(flag) => Ok(earlier | flag),
                    Err(error) => Err(error@),
                }
            } else {
                Ok(earlier)
            },
        }
    }
}

/// The flags of the mount call, with those that hold by default.
pub open spec fn mount_flags_outcome(options: Seq<MountOption>, platform: Platform) -> Result<
    u64,
    ErrorView,
> {
    flags_with(options, default_flags(options, platform))
}

/// What an option is an error for stays an error, whatever options come after it.
proof fn lemma_flag_error_stays(options: Seq<MountOption>, base: u64, n: int)
    requires
        0 <= n <= options.len(),
        flags_with(options.take(n), base) is Err,
    ensures
        flags_with(options, base) == flags_with(options.take(n), base),
    decreases options.len(),
{
    if n == options.len() {
        assert(options.take(n) =~= options);
    } else {
        assert(options.drop_last().take(n) =~= options.take(n));
        lemma_flag_error_stays(options.drop_last(), base, n);
    }
}

/// The flags of the mount call. The first option that is a flag and has none here is an error.
pub fn mount_flags(options: &Vec<MountOption>, platform: Platform) -> (flags: Result<u64, Error>)
    ensures
        match mount_flags_outcome(options@, platform) {
            Ok(value) => flags == Ok::<u64, Error>(value),
            Err(view) => flags matches Err(error) && error@ == view,
        },
{
    let (no_devices, no_set_user_id): (u64, u64) = match platform {
        Platform::MacOs => (MNT_NODEV, MNT_NOSUID),
        _ => (MS_NODEV, MS_NOSUID),
    };
    let nodev: u64 = if has_dev(options) {
        0
    } else {
        no_devices
    };
    let nosuid: u64 = if has_suid(options) {
        0
    } else {
        no_set_user_id
    };
    let ghost base = default_flags(options@, platform);
    let mut flags: u64 = nodev | nosuid;
    let mut i: usize = 0;
    while i < options.len()
        invariant
            i <= options.len(),
            base == default_flags(options@, platform),
            flags_with(options@.take(i as int), base) == Ok::<u64, ErrorView>(flags),
        decreases options.len() - i,
    {
        proof {
            let longer = options@.take(i as int + 1);
            assert(longer.drop_last() =~= options@.take(i as int));
            assert(longer.last() == options@[i as int]);
        }
        match options[i].group {
            MountOptionGroup::KernelFlag => match &options[i].flag {
                Ok(flag) => {
                    flags = flags | *flag;
                },
                Err(error) => {
                    proof {
                        lemma_flag_error_stays(options@, base, i as int + 1);
                    }
                    return Err(error.clone());
                },
            },
            _ => {},
        }
        i = i + 1;
    }
    assert(options@.take(i as int) =~= options@);
    Ok(flags)
}

/// Whether option `at` is a flag of the mount call that does not exist here.
pub open spec fn fails_at(options: Seq<MountOption>, at: int) -> bool {
    0 <= at < options.len() && options[at].group == MountOptionGroup::KernelFlag
        && options[at].flag is Err
}

/// The mount call has its flags exactly if no option is a flag that does not exist here.
pub proof fn lemma_flags_exist_unless_one_is_missing(options: Seq<MountOption>, base: u64)
    ensures
        flags_with(options, base) is Ok <==> forall|at: int| !fails_at(options, at),
    decreases options.len(),
{
    if options.len() > 0 {
        let front = options.drop_last();
        let last = options.len() - 1;
        lemma_flags_exist_unless_one_is_missing(front, base);
        if flags_with(options, base) is Ok {
            assert forall|at: int| !fails_at(options, at) by {
                if at < last {
                    assert(!fails_at(front, at));
                }
            }
        }
        if forall|at: int| !fails_at(options, at) {
            assert forall|at: int| !fails_at(front, at) by {
                assert(!fails_at(options, at));
            }
            assert(!fails_at(options, last));
        }
    }
}

/// Of the options that are flags that do not exist here, the first gives the error.
pub proof fn lemma_first_missing_flag_is_reported(options: Seq<MountOption>, base: u64, at: int)
    requires
        fails_at(options, at),
        forall|earlier: int| 0 <= earlier < at ==> !fails_at(options, earlier),
    ensures
        flags_with(options, base) == Err::<u64, ErrorView>(options[at].flag->Err_0@),
{
    let before = options.take(at);
    let through = options.take(at + 1);
    assert forall|i: int| !fails_at(before, i) by {
        if 0 <= i < at {
            assert(!fails_at(options, i));
        }
    }
    lemma_flags_exist_unless_one_is_missing(before, base);
    assert(through.drop_last() =~= before);
    assert(through.last() == options[at]);
    lemma_flag_error_stays(options, base, at + 1);
}

/// Whether `flags` has flag bit `bit`.
pub open spec fn has_flag(flags: u64, bit: u64) -> bool {
    (flags >> bit) & 1 == 1
}

/// Whether option `i` is a flag of the mount call with flag bit `bit`.
pub open spec fn option_has_flag(options: Seq<MountOption>, i: int, bit: u64) -> bool {
    0 <= i < options.len() && options[i].group == MountOptionGroup::KernelFlag && has_flag(
        options[i].flag->Ok_0,
        bit,
    )
}

/// A flag of the mount call is set exactly if it is set by default or some option stands for it.
pub proof fn lemma_flags_come_from_options(options: Seq<MountOption>, base: u64, bit: u64)
    requires
        bit < 64,
        flags_with(options, base) is Ok,
    ensures
        has_flag(flags_with(options, base)->Ok_0, bit) <==> (has_flag(base, bit) || exists|i: int|
            option_has_flag(options, i, bit)),
    decreases options.len(),
{
    if options.len() > 0 {
        let front = options.drop_last();
        let last = options.len() - 1;
        lemma_flags_come_from_options(front, base, bit);
        let a = flags_with(front, base)->Ok_0;
        let b = options.last().flag->Ok_0;
        assert(((a | b) >> bit) & 1 == 1 <==> (a >> bit) & 1 == 1 || (b >> bit) & 1 == 1)
            by (bit_vector);
        if exists|i: int| option_has_flag(front, i, bit) {
            let i = choose|i: int| option_has_flag(front, i, bit);
            assert(option_has_flag(options, i, bit));
        }
        if exists|i: int| option_has_flag(options, i, bit) {
            let i = choose|i: int| option_has_flag(options, i, bit);
            if i < last {
                assert(option_has_flag(front, i, bit));
            }
        }
        if options.last().group == MountOptionGroup::KernelFlag && has_flag(b, bit) {
            assert(option_has_flag(options, last, bit));
        }
    }
}

/// Unless an option allows them, device files and set-user-ID bits are off, whatever the other
/// options are.
pub proof fn lemma_nodev_and_nosuid_by_default(options: Seq<MountOption>, platform: Platform)
    requires
        mount_flags_outcome(options, platform) is Ok,
    ensures
        !wants_dev(options) ==> mount_flags_outcome(options, platform)->Ok_0 & nodev_flag(platform)
            == nodev_flag(platform),
        !wants_suid(options) ==> mount_flags_outcome(options, platform)->Ok_0 & nosuid_flag(
            platform,
        ) == nosuid_flag(platform),
{
    let base = default_flags(options, platform);
    let flags = flags_with(options, base)->Ok_0;
    let nodev_bit: u64 = if platform == Platform::MacOs {
        4
    } else {
        2
    };
    let nosuid_bit: u64 = if platform == Platform::MacOs {
        3
    } else {
        1
    };
    lemma_flags_come_from_options(options, base, nodev_bit);
    lemma_flags_come_from_options(options, base, nosuid_bit);
    assert((flags >> 4) & 1 == 1 ==> flags & 0x10 == 0x10) by (bit_vector);
    assert((flags >> 3) & 1 == 1 ==> flags & 0x8 == 0x8) by (bit_vector);
    assert((flags >> 2) & 1 == 1 ==> flags & 4 == 4) by (bit_vector);
    assert((flags >> 1) & 1 == 1 ==> flags & 2 == 2) by (bit_vector);
    assert(((4u64 | 2) >> 2) & 1 == 1 && ((4u64 | 0) >> 2) & 1 == 1 && ((4u64 | 2) >> 1) & 1 == 1
        && ((0u64 | 2) >> 1) & 1 == 1) by (bit_vector);
    assert(((0x10u64 | 8) >> 4) & 1 == 1 && ((0x10u64 | 0) >> 4) & 1 == 1 && ((0x10u64 | 8) >> 3)
        & 1 == 1 && ((0u64 | 8) >> 3) & 1 == 1) by (bit_vector);
}

/// The name that the first option for the source name gives, if any.
pub open spec fn fs_name(options: Seq<MountOption>) -> Option<Seq<char>>
    decreases options.len(),
{
    if options.len() == 0 {
        None
    } else {
        match options[0].kind {
            MountOptionKind::FSName(name) => Some(name@),
            _ => fs_name(options.drop_first()),
        }
    }
}

/// The subtype that the first option for it gives, if any.
pub open spec fn subtype(options: Seq<MountOption>) -> Option<Seq<char>>
    decreases options.len(),
{
    if options.len() == 0 {
        None
    } else {
        match options[0].kind {
            MountOptionKind::Subtype(name) => Some(name@),
            _ => subtype(options.drop_first()),
        }
    }
}

/// The path of the FUSE device.
pub open spec fn device_path() -> Seq<char> {
    "/dev/fuse"@
}

/// What is mounted: the source name, else the subtype, else the device.
pub open spec fn mount_source_name(options: Seq<MountOption>) -> Seq<char> {
    match fs_name(options) {
        Some(name) => name,
        None => match subtype(options) {
            Some(name) => name,
            None => device_path(),
        },
    }
}

/// The source that the mount call names.
pub fn mount_source(options: &Vec<MountOption>) -> (source: String)
    ensures
        source@ == mount_source_name(options@),
{
    let mut name: Option<String> = None;
    let mut kind: Option<String> = None;
    let mut i: usize = options.len();
    while i > 0
        invariant
            i <= options.len(),
            name is Some <==> fs_name(options@.skip(i as int)) is Some,
            name matches Some(text) ==> fs_name(options@.skip(i as int)) == Some(text@),
            kind is Some <==> subtype(options@.skip(i as int)) is Some,
            kind matches Some(text) ==> subtype(options@.skip(i as int)) == Some(text@),
        decreases i,
    {
        i = i - 1;
        assert(options@.skip(i as int).drop_first() =~= options@.skip(i as int + 1));
        match &options[i].kind {
            MountOptionKind::FSName(text) => {
                name = Some(text.clone());
            },
            MountOptionKind::Subtype(text) => {
                kind = Some(text.clone());
            },
            _ => {},
        }
    }
    assert(options@.skip(0) =~= options@);
    match name {
        Some(text) => text,
        None => match kind {
            Some(text) => text,
            None => "/dev/fuse".to_owned(),
        },
    }
}

/// The arguments that say what a mount helper mounts, up to the mount point: the options and the
/// access rule as one list, unless there are none, then the end of the options.
pub open spec fn fusermount_mount_arg_texts(
    options: Seq<MountOption>,
    acl: SessionACL,
) -> Seq<Seq<char>> {
    let words = option_texts(options) + acl_texts(acl);
    if words.len() == 0 {
        seq!["--"@]
    } else {
        seq!["-o"@, joined(words, ","@), "--"@]
    }
}

fn texts_of(options: &Vec<MountOption>) -> (texts: Vec<String>)
    ensures
        texts.deep_view() == option_texts(options@),
{
    let mut texts: Vec<String> = Vec::new();
    let mut i: usize = 0;
    while i < options.len()
        invariant
            i <= options.len(),
            texts.deep_view() == option_texts(options@.take(i as int)),
        decreases options.len() - i,
    {
        let ghost before = texts.deep_view();
        texts.push(options[i].text.clone());
        assert(texts.deep_view() =~= before.push(options@[i as int].text@));
        assert(option_texts(options@.take(i as int + 1)) =~= option_texts(
            options@.take(i as int),
        ).push(options@[i as int].text@));
        i = i + 1;
    }
    assert(options@.take(i as int) =~= options@);
    texts
}

/// The arguments of `fusermount` for a mount, up to the mount point, which comes last.
pub fn fusermount_mount_args(options: &Vec<MountOption>, acl: SessionACL) -> (args: Vec<String>)
    ensures
        args.deep_view() == fusermount_mount_arg_texts(options@, acl),
{
    let mut words = texts_of(options);
    push_acl(&mut words, acl);
    let ghost all = words.deep_view();
    assert(all.len() == words.len());
    let mut args: Vec<String> = Vec::new();
    if !words.is_empty() {
        args.push("-o".to_owned());
        args.push(join(&words, ","));
    }
    args.push("--".to_owned());
    assert(args.deep_view() =~= fusermount_mount_arg_texts(options@, acl));
    args
}

/// The arguments that say what `mount_fusefs` mounts, up to the mount point: the options as one
/// list, unless there are none, then the descriptor of the device.
pub open spec fn mount_fusefs_arg_texts(options: Seq<MountOption>, fd: i32) -> Seq<Seq<char>> {
    if options.len() == 0 {
        seq![decimal(fd as int)]
    } else {
        seq!["-o"@, joined(option_texts(options), ","@), decimal(fd as int)]
    }
}

/// The arguments of `mount_fusefs` for a mount, up to the mount point, which comes last.
pub fn mount_fusefs_args(options: &Vec<MountOption>, fd: i32) -> (args: Vec<String>)
    ensures
        args.deep_view() == mount_fusefs_arg_texts(options@, fd),
{
    let mut args: Vec<String> = Vec::new();
    if options.len() > 0 {
        args.push("-o".to_owned());
        args.push(join(&texts_of(options), ","));
    }
    args.push(write_decimal(fd as i64));
    proof {
        if options@.len() == 0 {
            assert(args.deep_view() =~= seq![decimal(fd as int)]);
        } else {
            assert(args.deep_view() =~= seq![
                "-o"@,
                joined(option_texts(options@), ","@),
                decimal(fd as int),
            ]);
        }
    }
    args
}

/// An option is found wherever it stands in the list, and only if it stands there.
pub proof fn lemma_options_are_found_anywhere(options: Seq<MountOption>, i: int)
    requires
        0 <= i < options.len(),
    ensures
        options[i].kind is AutoUnmount ==> wants_auto_unmount(options),
        options[i].kind is Dev ==> wants_dev(options),
        options[i].kind is Suid ==> wants_suid(options),
        (forall|j: int| 0 <= j < options.len() ==> !((#[trigger] options[j]).kind is AutoUnmount))
            ==> !wants_auto_unmount(options),
        (forall|j: int| 0 <= j < options.len() ==> !((#[trigger] options[j]).kind is Dev))
            ==> !wants_dev(options),
        (forall|j: int| 0 <= j < options.len() ==> !((#[trigger] options[j]).kind is Suid))
            ==> !wants_suid(options),
{
}

/// The option list of a mount call without options, for the owner alone, says how to reach the
/// device, what the mount point is and who mounts it.
pub proof fn lemma_mount_data_without_options(fd: i32, mode: u32, uid: u32, gid: u32)
    ensures
        mount_data_text(fd, mode, uid, gid, seq![], SessionACL::Owner) == "fd="@ + decimal(
            fd as int,
        ) + ","@ + "rootmode="@ + octal(mode as nat) + ","@ + "user_id="@ + decimal(uid as int)
            + ","@ + "group_id="@ + decimal(gid as int),
{
    reveal(Seq::filter);
    reveal_with_fuel(joined, 5);
    let parts = seq![
        "fd="@ + decimal(fd as int),
        "rootmode="@ + octal(mode as nat),
        "user_id="@ + decimal(uid as int),
        "group_id="@ + decimal(gid as int),
    ];
    let none = kernel_option_texts(seq![]);
    assert(none =~= Seq::<Seq<char>>::empty());
    assert(parts + none + acl_texts(SessionACL::Owner) =~= parts);
    assert(parts.drop_last() =~= seq![parts[0], parts[1], parts[2]]);
    assert(parts.drop_last().drop_last() =~= seq![parts[0], parts[1]]);
    assert(parts.drop_last().drop_last().drop_last() =~= seq![parts[0]]);
    assert(mount_data_text(fd, mode, uid, gid, seq![], SessionACL::Owner) =~= "fd="@ + decimal(
        fd as int,
    ) + ","@ + "rootmode="@ + octal(mode as nat) + ","@ + "user_id="@ + decimal(uid as int) + ","@
        + "group_id="@ + decimal(gid as int));
}

/// One more option adds its text to the option list of a mount call, behind a comma, if it is one
/// that the kernel takes as a word, and nothing otherwise. A rule that lets others in adds the word
/// for that at the end.
pub proof fn lemma_mount_data_grows_with_the_options(
    fd: i32,
    mode: u32,
    uid: u32,
    gid: u32,
    options: Seq<MountOption>,
    option: MountOption,
    acl: SessionACL,
)
    ensures
        mount_data_text(fd, mode, uid, gid, options.push(option), SessionACL::Owner) == (
        if option.group == MountOptionGroup::KernelOption {
            mount_data_text(fd, mode, uid, gid, options, SessionACL::Owner) + ","@ + option.text@
        } else {
            mount_data_text(fd, mode, uid, gid, options, SessionACL::Owner)
        }),
        mount_data_text(fd, mode, uid, gid, options, acl) == (if acl == SessionACL::Owner {
            mount_data_text(fd, mode, uid, gid, options, SessionACL::Owner)
        } else {
            mount_data_text(fd, mode, uid, gid, options, SessionACL::Owner) + ","@ + "allow_other"@
        }),
{
    reveal(Seq::filter);
    let head = seq![
        "fd="@ + decimal(fd as int),
        "rootmode="@ + octal(mode as nat),
        "user_id="@ + decimal(uid as int),
        "group_id="@ + decimal(gid as int),
    ];
    let in_kernel = |o: MountOption| o.group == MountOptionGroup::KernelOption;
    let shorter = options.filter(in_kernel);
    let longer = options.push(option);
    assert(longer.drop_last() =~= options);
    assert(longer.last() == option);
    let words = head + kernel_option_texts(options);
    assert(words + acl_texts(SessionACL::Owner) =~= words);
    if option.group == MountOptionGroup::KernelOption {
        assert(option_texts(shorter.push(option)) =~= option_texts(shorter).push(option.text@));
        let more = head + kernel_option_texts(longer) + acl_texts(SessionACL::Owner);
        assert(more =~= words.push(option.text@));
        assert(more.drop_last() =~= words);
    }
    if acl != SessionACL::Owner {
        let more = words + acl_texts(acl);
        assert(more =~= words.push("allow_other"@));
        assert(more.drop_last() =~= words);
    }
}

/// Every bit of the flags of a mount call comes from an option that stands for it, or is the one
/// against device files or the one against set-user-ID bits, where no option allows those.
pub proof fn lemma_every_mount_flag_has_its_reason(
    options: Seq<MountOption>,
    platform: Platform,
    bit: u64,
)
    requires
        bit < 64,
        mount_flags_outcome(options, platform) is Ok,
    ensures
        has_flag(mount_flags_outcome(options, platform)->Ok_0, bit) <==> {
            ||| exists|i: int|
                0 <= i < options.len() && (#[trigger] options[i]).group
                    == MountOptionGroup::KernelFlag && (options[i].flag->Ok_0 >> bit) & 1 == 1
            ||| bit == (if platform == Platform::MacOs {
                4u64
            } else {
                2
            }) && forall|i: int| 0 <= i < options.len() ==> !((#[trigger] options[i]).kind is Dev)
            ||| bit == (if platform == Platform::MacOs {
                3u64
            } else {
                1
            }) && forall|i: int| 0 <= i < options.len() ==> !((#[trigger] options[i]).kind is Suid)
        },
{
    let base = default_flags(options, platform);
    lemma_flags_come_from_options(options, base, bit);
    if exists|i: int|
        0 <= i < options.len() && (#[trigger] options[i]).group == MountOptionGroup::KernelFlag && (
        options[i].flag->Ok_0 >> bit) & 1 == 1 {
        let i = choose|i: int|
            0 <= i < options.len() && (#[trigger] options[i]).group
                == MountOptionGroup::KernelFlag && (options[i].flag->Ok_0 >> bit) & 1 == 1;
        assert(option_has_flag(options, i, bit));
    }
    assert(((4u64 | 2) >> bit) & 1 == 1 <==> bit == 2 || bit == 1) by (bit_vector)
        requires
            bit < 64,
    ;
    assert(((4u64 | 0) >> bit) & 1 == 1 <==> bit == 2) by (bit_vector)
        requires
            bit < 64,
    ;
    assert(((0u64 | 2) >> bit) & 1 == 1 <==> bit == 1) by (bit_vector)
        requires
            bit < 64,
    ;
    assert(((0x10u64 | 8) >> bit) & 1 == 1 <==> bit == 4 || bit == 3) by (bit_vector)
        requires
            bit < 64,
    ;
    assert(((0x10u64 | 0) >> bit) & 1 == 1 <==> bit == 4) by (bit_vector)
        requires
            bit < 64,
    ;
    assert(((0u64 | 8) >> bit) & 1 == 1 <==> bit == 3) by (bit_vector)
        requires
            bit < 64,
    ;
    assert(((0u64 | 0) >> bit) & 1 == 0) by (bit_vector);
}

/// What is mounted is the first source name that an option gives, wherever it stands; if none does,
/// the first subtype; and if none gives that either, the device.
pub proof fn lemma_source_is_the_first_name(options: Seq<MountOption>, i: int)
    ensures
        0 <= i < options.len() && options[i].kind is FSName && (forall|j: int|
            0 <= j < i ==> !((#[trigger] options[j]).kind is FSName)) ==> mount_source_name(options)
            == options[i].kind->FSName_0@,
        0 <= i < options.len() && options[i].kind is Subtype && (forall|j: int|
            0 <= j < i ==> !((#[trigger] options[j]).kind is Subtype)) && (forall|j: int|
            0 <= j < options.len() ==> !((#[trigger] options[j]).kind is FSName))
            ==> mount_source_name(options) == options[i].kind->Subtype_0@,
        (forall|j: int|
            0 <= j < options.len() ==> !((#[trigger] options[j]).kind is FSName)
                && !(options[j].kind is Subtype)) ==> mount_source_name(options) == "/dev/fuse"@,
{
    lemma_fs_name_is_the_first(options, i);
    lemma_subtype_is_the_first(options, i);
}

proof fn lemma_fs_name_is_the_first(options: Seq<MountOption>, i: int)
    ensures
        0 <= i < options.len() && options[i].kind is FSName && (forall|j: int|
            0 <= j < i ==> !((#[trigger] options[j]).kind is FSName)) ==> fs_name(options) == Some(
            options[i].kind->FSName_0@,
        ),
        (forall|j: int| 0 <= j < options.len() ==> !((#[trigger] options[j]).kind is FSName))
            ==> fs_name(options) is None,
    decreases options.len(),
{
    if options.len() > 0 {
        let rest = options.drop_first();
        lemma_fs_name_is_the_first(rest, i - 1);
        if options[0].kind is FSName {
            assert(i != 0 ==> 0 <= i < options.len() ==> options[0].kind is FSName);
        } else {
            if forall|j: int| 0 <= j < i ==> !((#[trigger] options[j]).kind is FSName) {
                assert forall|j: int| 0 <= j < i - 1 && j < rest.len() implies !((
                #[trigger] rest[j]).kind is FSName) by {
                    assert(rest[j] == options[j + 1]);
                }
            }
            if forall|j: int|
                0 <= j < options.len() ==> !((#[trigger] options[j]).kind is FSName) {
                assert forall|j: int| 0 <= j < rest.len() implies !((#[trigger] rest[j]).kind
                    is FSName) by {
                    assert(rest[j] == options[j + 1]);
                }
            }
        }
    }
}

proof fn lemma_subtype_is_the_first(options: Seq<MountOption>, i: int)
    ensures
        0 <= i < options.len() && options[i].kind is Subtype && (forall|j: int|
            0 <= j < i ==> !((#[trigger] options[j]).kind is Subtype)) ==> subtype(options) == Some(
            options[i].kind->Subtype_0@,
        ),
        (forall|j: int| 0 <= j < options.len() ==> !((#[trigger] options[j]).kind is Subtype))
            ==> subtype(options) is None,
    decreases options.len(),
{
    if options.len() > 0 {
        let rest = options.drop_first();
        lemma_subtype_is_the_first(rest, i - 1);
        if options[0].kind is Subtype {
            assert(i != 0 ==> 0 <= i < options.len() ==> options[0].kind is Subtype);
        } else {
            if forall|j: int| 0 <= j < i ==> !((#[trigger] options[j]).kind is Subtype) {
                assert forall|j: int| 0 <= j < i - 1 && j < rest.len() implies !((
                #[trigger] rest[j]).kind is Subtype) by {
                    assert(rest[j] == options[j + 1]);
                }
            }
            if forall|j: int|
                0 <= j < options.len() ==> !((#[trigger] options[j]).kind is Subtype) {
                assert forall|j: int| 0 <= j < rest.len() implies !((#[trigger] rest[j]).kind
                    is Subtype) by {
                    assert(rest[j] == options[j + 1]);
                }
            }
        }
    }
}

/// The helper gets one list of words, between `-o` and `--`: the text of every option, in order and
/// between commas, and then the word of a rule that lets others in. Without a word there is no list.
pub proof fn lemma_helper_gets_every_option(
    options: Seq<MountOption>,
    option: MountOption,
    acl: SessionACL,
    fd: i32,
)
    ensures
        fusermount_mount_arg_texts(seq![], SessionACL::Owner) == seq!["--"@],
        fusermount_mount_arg_texts(seq![option], SessionACL::Owner) == seq![
            "-o"@,
            option.text@,
            "--"@,
        ],
        options.len() > 0 ==> {
            let list = fusermount_mount_arg_texts(options, SessionACL::Owner);
            let longer = fusermount_mount_arg_texts(options.push(option), SessionACL::Owner);
            &&& longer.len() == 3
            &&& longer[0] == "-o"@
            &&& longer[1] == list[1] + ","@ + option.text@
            &&& longer[2] == "--"@
        },
        acl != SessionACL::Owner ==> fusermount_mount_arg_texts(options, acl) == seq![
            "-o"@,
            if options.len() == 0 {
                "allow_other"@
            } else {
                fusermount_mount_arg_texts(options, SessionACL::Owner)[1] + ","@ + "allow_other"@
            },
            "--"@,
        ],
        mount_fusefs_arg_texts(seq![], fd) == seq![decimal(fd as int)],
        options.len() > 0 ==> mount_fusefs_arg_texts(options, fd) == seq![
            "-o"@,
            fusermount_mount_arg_texts(options, SessionACL::Owner)[1],
            decimal(fd as int),
        ],
{
    let none = Seq::<MountOption>::empty();
    assert(option_texts(none) + acl_texts(SessionACL::Owner) =~= seq![]);
    let one = seq![option];
    assert(option_texts(one) + acl_texts(SessionACL::Owner) =~= seq![option.text@]);
    assert(joined(seq![option.text@], ","@) == option.text@);
    let words = option_texts(options);
    assert(words + acl_texts(SessionACL::Owner) =~= words);
    if options.len() > 0 {
        let more = option_texts(options.push(option)) + acl_texts(SessionACL::Owner);
        assert(more =~= words.push(option.text@));
        assert(more.drop_last() =~= words);
    }
    if acl != SessionACL::Owner {
        let more = words + acl_texts(acl);
        assert(more =~= words.push("allow_other"@));
        assert(more.drop_last() =~= words);
        assert(fusermount_mount_arg_texts(options, acl) =~= seq![
            "-o"@,
            if options.len() == 0 {
                "allow_other"@
            } else {
                fusermount_mount_arg_texts(options, SessionACL::Owner)[1] + ","@ + "allow_other"@
            },
            "--"@,
        ]);
    }
}

/// The mount call has its flags unless some option is a flag that does not exist here; and of those,
/// option `at`, the first, gives the error.
pub proof fn lemma_missing_flag_is_reported_as_it_is(
    options: Seq<MountOption>,
    platform: Platform,
    at: int,
)
    ensures
        (forall|i: int|
            0 <= i < options.len() ==> (#[trigger] options[i]).group
                != MountOptionGroup::KernelFlag || options[i].flag is Ok) ==> mount_flags_outcome(
            options,
            platform,
        ) is Ok,
        0 <= at < options.len() && options[at].group == MountOptionGroup::KernelFlag && (
        forall|i: int|
            0 <= i < at ==> (#[trigger] options[i]).group != MountOptionGroup::KernelFlag
                || options[i].flag is Ok) ==> (options[at].flag matches Err(error)
            ==> mount_flags_outcome(options, platform) == Err::<u64, ErrorView>(error@)),
{
    let base = default_flags(options, platform);
    lemma_flags_exist_unless_one_is_missing(options, base);
    if fails_at(options, at) && (forall|i: int|
        0 <= i < at ==> (#[trigger] options[i]).group != MountOptionGroup::KernelFlag
            || options[i].flag is Ok) {
        assert forall|earlier: int| 0 <= earlier < at implies !fails_at(options, earlier) by {
            assert(options[earlier].group != MountOptionGroup::KernelFlag
                || options[earlier].flag is Ok);
        }
        lemma_first_missing_flag_is_reported(options, base, at);
    }
}

} // verus!
