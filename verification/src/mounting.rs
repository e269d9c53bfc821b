//! Bringing a filesystem up: the steps of a mount, by the mount call or by the helper.
use vstd::prelude::*;

use crate::acl::SessionACL;
use crate::errno::Errnos;
use crate::error::{raised, Error, ErrorKind, ErrorView};
use crate::fusermount::{
    direct_mount_outcome, helper_mount_error, helper_mount_failure, is_mount_fusefs,
    mount_call_error_text, mount_fusefs_outcome, mount_route, utf8_lossy, DirectMount, MountRoute,
};
use crate::mount_options::{
    fusermount_mount_arg_texts, fusermount_mount_args, has_auto_unmount,
    lemma_nodev_and_nosuid_by_default, mount_data, mount_data_text, mount_flags,
    mount_flags_outcome, mount_fusefs_arg_texts, mount_fusefs_args, mount_source,
    mount_source_name, nodev_flag, nosuid_flag, wants_auto_unmount, wants_dev, wants_suid,
    MountOption,
};
use crate::platform::Platform;
use crate::text::{ends_in, occurs};
use crate::unmount::result_view;

verus! {

/// What a mount waits for.
#[derive(Clone, Copy, Debug, PartialEq, Eq, Structural)]
pub enum MountPhase {
    /// The mount has not begun.
    Idle,
    /// The mode of the mount point.
    Mode,
    /// The device, for the mount call.
    Device { mode: u32 },
    /// The mount call.
    Call,
    /// The name of the helper.
    Helper,
    /// The device, for the helper of the BSDs.
    HelperDevice,
    /// The end of the helper of the BSDs.
    MountFusefs,
    /// The start of `fusermount`.
    Fusermount,
    /// The device that `fusermount` sends.
    Descriptor,
    /// What `fusermount` printed before it failed.
    Complaint,
    /// The end of `fusermount`.
    HelperEnd,
    /// What `fusermount` has printed so far.
    HelperOutput,
    /// Nothing: the mount is over.
    Over,
}

/// What a mount needs done next.
#[derive(Debug)]
pub enum MountAction {
    /// Find out the mode of the mount point.
    ReadMode,
    /// Open the device.
    OpenDevice,
    /// Make the mount call, for the mount point.
    CallMount { source: String, fstype: String, data: String, flags: u64 },
    /// Find out which program is the helper.
    DetectHelper,
    /// Run the helper of the BSDs to its end, with these arguments and the mount point, and with
    /// the device open.
    RunMountFusefs { args: Vec<String> },
    /// Start `fusermount`, with these arguments and the mount point, and with one end of a pair of
    /// sockets, whose descriptor it finds in this variable of its environment, written as
    /// [`crate::fusermount::socket_variable_value`] does.
    StartFusermount { args: Vec<String>, socket_variable: String },
    /// Receive the device on the other socket.
    ReceiveDescriptor,
    /// Close the socket, and collect what `fusermount` printed until it ended.
    CollectComplaint,
    /// Close the socket, and wait until `fusermount` ends.
    AwaitHelper,
    /// Keep the socket, and read what `fusermount` has printed so far, without waiting for more.
    ReadHelperOutput,
    /// Nothing: the filesystem is mounted. The socket is kept if `keep_socket` says so: the helper
    /// unmounts the filesystem when it is closed.
    Mounted { keep_socket: bool },
    /// Nothing: the filesystem is not mounted.
    Fail { error: Error },
}

/// A [`MountAction`] as specifications see it.
pub enum MountActionView {
    ReadMode,
    OpenDevice,
    CallMount { source: Seq<char>, fstype: Seq<char>, data: Seq<char>, flags: u64 },
    DetectHelper,
    RunMountFusefs { args: Seq<Seq<char>> },
    StartFusermount { args: Seq<Seq<char>>, socket_variable: Seq<char> },
    ReceiveDescriptor,
    CollectComplaint,
    AwaitHelper,
    ReadHelperOutput,
    Mounted { keep_socket: bool },
    Fail { error: ErrorView },
}

impl View for MountAction {
    type V = MountActionView;

    open spec fn view(&self) -> MountActionView {
        match self {
            MountAction::ReadMode => MountActionView::ReadMode,
            MountAction::OpenDevice => MountActionView::OpenDevice,
            MountAction::CallMount { source, fstype, data, flags } => MountActionView::CallMount {
                source: source@,
                fstype: fstype@,
                data: data@,
                flags: *flags,
            },
            MountAction::DetectHelper => MountActionView::DetectHelper,
            MountAction::RunMountFusefs { args } => MountActionView::RunMountFusefs {
                args: args.deep_view(),
            },
            MountAction::StartFusermount { args, socket_variable } => {
                MountActionView::StartFusermount {
                    args: args.deep_view(),
                    socket_variable: socket_variable@,
                }
            },
            MountAction::ReceiveDescriptor => MountActionView::ReceiveDescriptor,
            MountAction::CollectComplaint => MountActionView::CollectComplaint,
            MountAction::AwaitHelper => MountActionView::AwaitHelper,
            MountAction::ReadHelperOutput => MountActionView::ReadHelperOutput,
            MountAction::Mounted { keep_socket } => MountActionView::Mounted {
                keep_socket: *keep_socket,
            },
            MountAction::Fail { error } => MountActionView::Fail { error: error@ },
        }
    }
}

/// The texts that the error of a mount call is made of.
#[derive(Debug)]
pub struct MountCallTexts {
    /// The mount point.
    pub mountpoint: String,
    /// The option list.
    pub data: String,
    /// The flags.
    pub flags: String,
    /// The error, where there is one.
    pub cause: String,
}

/// What came of what a mount needed done.
#[derive(Debug)]
pub enum MountEvent {
    /// The mode of the mount point.
    Mode(Result<u32, Error>),
    /// The descriptor of the device.
    Device(Result<i32, Error>),
    /// The mount call returned, with an error code if it failed.
    Called { result: Result<(), i32>, texts: MountCallTexts },
    /// The helper is this program.
    Helper { program: String },
    /// The helper of the BSDs ended: whether it succeeded, and what it printed.
    MountFusefs(Result<(bool, Vec<u8>), Error>),
    /// `fusermount` was started.
    Started(Result<(), Error>),
    /// The device was received, or was not.
    Descriptor { received: bool },
    /// What `fusermount` printed before it failed.
    Complaint(Result<Vec<u8>, Error>),
    /// `fusermount` ended.
    Ended(Result<(), Error>),
    /// What `fusermount` has printed so far has been read.
    OutputRead,
}

/// A [`MountEvent`] as specifications see it.
pub enum MountEventView {
    Mode(Result<u32, ErrorView>),
    Device(Result<i32, ErrorView>),
    Called { result: Result<(), i32>, text: Seq<char> },
    Helper { program: Seq<char> },
    MountFusefs(Result<(bool, Seq<u8>), ErrorView>),
    Started(Result<(), ErrorView>),
    Descriptor { received: bool },
    Complaint(Result<Seq<u8>, ErrorView>),
    Ended(Result<(), ErrorView>),
    OutputRead,
}

impl View for MountEvent {
    type V = MountEventView;

    open spec fn view(&self) -> MountEventView {
        match self {
            MountEvent::Mode(result) => MountEventView::Mode(
                match *result {
                    Ok(mode) => Ok(mode),
                    Err(error) => Err(error@),
                },
            ),
            MountEvent::Device(result) => MountEventView::Device(
                match *result {
                    Ok(fd) => Ok(fd),
                    Err(error) => Err(error@),
                },
            ),
            MountEvent::Called { result, texts } => MountEventView::Called {
                result: *result,
                text: mount_call_error_text(
                    texts.mountpoint@,
                    texts.data@,
                    texts.flags@,
                    texts.cause@,
                ),
            },
            MountEvent::Helper { program } => MountEventView::Helper { program: program@ },
            MountEvent::MountFusefs(result) => MountEventView::MountFusefs(
                match *result {
                    Ok((success, stderr)) => Ok((success, stderr@)),
                    Err(error) => Err(error@),
                },
            ),
            MountEvent::Started(result) => MountEventView::Started(result_view(*result)),
            MountEvent::Descriptor { received } => MountEventView::Descriptor {
                received: *received,
            },
            MountEvent::Complaint(result) => MountEventView::Complaint(
                match *result {
                    Ok(stderr) => Ok(stderr@),
                    Err(error) => Err(error@),
                },
            ),
            MountEvent::Ended(result) => MountEventView::Ended(result_view(*result)),
            MountEvent::OutputRead => MountEventView::OutputRead,
        }
    }
}

/// What is to be mounted, and who mounts it.
pub struct MountSetup {
    pub options: Seq<MountOption>,
    pub acl: SessionACL,
    pub platform: Platform,
    pub errnos: Errnos,
    pub uid: u32,
    pub gid: u32,
}

/// A mount that failed.
pub open spec fn failed(error: ErrorView) -> (MountPhase, MountActionView) {
    (MountPhase::Over, MountActionView::Fail { error })
}

/// A mount that succeeded.
pub open spec fn succeeded(keep_socket: bool) -> (MountPhase, MountActionView) {
    (MountPhase::Over, MountActionView::Mounted { keep_socket })
}

impl MountSetup {
    /// Whether the mount call is tried: where the library knows it, unless the filesystem is to be
    /// unmounted when the process goes away.
    pub open spec fn tries_mount_call(self) -> bool {
        !wants_auto_unmount(self.options) && self.platform != Platform::Other
    }

    /// The first step.
    pub open spec fn first(self) -> (MountPhase, MountActionView) {
        if self.tries_mount_call() {
            (MountPhase::Mode, MountActionView::ReadMode)
        } else {
            (MountPhase::Helper, MountActionView::DetectHelper)
        }
    }

    /// The step after an event that a phase waits for.
    pub open spec fn next(self, phase: MountPhase, event: MountEventView) -> (
        MountPhase,
        MountActionView,
    ) {
        match (phase, event) {
            (_, MountEventView::Mode(Err(error))) => failed(error),
            (_, MountEventView::Mode(Ok(mode))) => (
                MountPhase::Device { mode },
                MountActionView::OpenDevice,
            ),
            (_, MountEventView::Device(Err(error))) => failed(error),
            (MountPhase::Device { mode }, MountEventView::Device(Ok(fd))) => {
                match mount_flags_outcome(self.options, self.platform) {
                    Err(error) => failed(error),
                    Ok(flags) => (
                        MountPhase::Call,
                        MountActionView::CallMount {
                            source: mount_source_name(self.options),
                            fstype: "fuse"@,
                            data: mount_data_text(
                                fd,
                                mode,
                                self.uid,
                                self.gid,
                                self.options,
                                self.acl,
                            ),
                            flags,
                        },
                    ),
                }
            },
            (_, MountEventView::Device(Ok(fd))) => (
                MountPhase::MountFusefs,
                MountActionView::RunMountFusefs { args: mount_fusefs_arg_texts(self.options, fd) },
            ),
            (_, MountEventView::Called { result: Ok(()), .. }) => succeeded(false),
            (_, MountEventView::Called { result: Err(code), text }) => if code == self.errnos.eperm {
                (MountPhase::Helper, MountActionView::DetectHelper)
            } else {
                failed(raised(ErrorKind::Other, text))
            },
            (_, MountEventView::Helper { program }) => if ends_in(program, "mount_fusefs"@) {
                (MountPhase::HelperDevice, MountActionView::OpenDevice)
            } else {
                (
                    MountPhase::Fusermount,
                    MountActionView::StartFusermount {
                        args: fusermount_mount_arg_texts(self.options, self.acl),
                        socket_variable: "_FUSE_COMMFD"@,
                    },
                )
            },
            (_, MountEventView::MountFusefs(Err(error))) => failed(error),
            (_, MountEventView::MountFusefs(Ok((success, stderr)))) => if success {
                succeeded(false)
            } else {
                failed(raised(ErrorKind::Other, utf8_lossy(stderr)))
            },
            (_, MountEventView::Started(Err(error))) => failed(error),
            (_, MountEventView::Started(Ok(()))) => (
                MountPhase::Descriptor,
                MountActionView::ReceiveDescriptor,
            ),
            (_, MountEventView::Descriptor { received }) => if !received {
                (MountPhase::Complaint, MountActionView::CollectComplaint)
            } else if wants_auto_unmount(self.options) {
                (MountPhase::HelperOutput, MountActionView::ReadHelperOutput)
            } else {
                (MountPhase::HelperEnd, MountActionView::AwaitHelper)
            },
            (_, MountEventView::Complaint(Err(error))) => failed(error),
            (_, MountEventView::Complaint(Ok(stderr))) => failed(
                helper_mount_error(utf8_lossy(stderr)),
            ),
            (_, MountEventView::Ended(Err(error))) => failed(error),
            (_, MountEventView::Ended(Ok(()))) => succeeded(false),
            (_, MountEventView::OutputRead) => succeeded(true),
        }
    }
}

/// Whether an event is one that a phase waits for. The device is never one of the standard
/// streams, where the mount call names it.
pub open spec fn awaits(phase: MountPhase, event: MountEventView) -> bool {
    match phase {
        MountPhase::Idle | MountPhase::Over => false,
        MountPhase::Mode => event is Mode,
        MountPhase::Device { .. } => event matches MountEventView::Device(result) && (result matches
            Ok(fd) ==> fd > 2),
        MountPhase::Call => event is Called,
        MountPhase::Helper => event is Helper,
        MountPhase::HelperDevice => event is Device,
        MountPhase::MountFusefs => event is MountFusefs,
        MountPhase::Fusermount => event is Started,
        MountPhase::Descriptor => event is Descriptor,
        MountPhase::Complaint => event is Complaint,
        MountPhase::HelperEnd => event is Ended,
        MountPhase::HelperOutput => event is OutputRead,
    }
}

/// A mount of a filesystem.
#[derive(Debug)]
pub struct MountAttempt<'a> {
    /// The options of the mount.
    pub options: &'a Vec<MountOption>,
    /// Who may use the filesystem.
    pub acl: SessionACL,
    /// Where it is mounted.
    pub platform: Platform,
    /// The error codes of the system.
    pub errnos: Errnos,
    /// The user who mounts it.
    pub uid: u32,
    /// The group of that user.
    pub gid: u32,
    /// What the mount waits for.
    pub phase: MountPhase,
}

impl<'a> MountAttempt<'a> {
    /// What is to be mounted, and who mounts it.
    pub open spec fn setup(self) -> MountSetup {
        MountSetup {
            options: self.options@,
            acl: self.acl,
            platform: self.platform,
            errnos: self.errnos,
            uid: self.uid,
            gid: self.gid,
        }
    }

    /// A mount that has not begun.
    pub fn new(
        options: &'a Vec<MountOption>,
        acl: SessionACL,
        platform: Platform,
        errnos: Errnos,
        uid: u32,
        gid: u32,
    ) -> (attempt: MountAttempt<'a>)
        ensures
            attempt.setup() == (MountSetup {
                options: options@,
                acl,
                platform,
                errnos,
                uid,
                gid,
            }),
            attempt.phase == MountPhase::Idle,
    {
        MountAttempt { options, acl, platform, errnos, uid, gid, phase: MountPhase::Idle }
    }

    /// Begins the mount.
    pub fn start(&mut self) -> (action: MountAction)
        requires
            old(self).phase == MountPhase::Idle,
        ensures
            (final(self).phase, action@) == old(self).setup().first(),
            final(self).setup() == old(self).setup(),
    {
        match mount_route(self.options, self.platform) {
            MountRoute::DirectThenHelper => {
                self.phase = MountPhase::Mode;
                MountAction::ReadMode
            },
            MountRoute::Helper => {
                self.phase = MountPhase::Helper;
                MountAction::DetectHelper
            },
        }
    }

    /// Takes what came of the last action.
    pub fn step(&mut self, event: MountEvent) -> (action: MountAction)
        requires
            awaits(old(self).phase, event@),
        ensures
            (final(self).phase, action@) == old(self).setup().next(old(self).phase, event@),
            final(self).setup() == old(self).setup(),
            event matches MountEvent::Descriptor { received: false } ==> final(self).phase
                == MountPhase::Complaint && action is CollectComplaint,
            action is Mounted ==> match event {
                MountEvent::Called { result, .. } => result is Ok,
                MountEvent::MountFusefs(result) => result matches Ok((success, _)) && success,
                MountEvent::Ended(result) => result is Ok,
                MountEvent::OutputRead => true,
                _ => false,
            },
    {
        match event {
            MountEvent::Mode(Ok(mode)) => {
                self.phase = MountPhase::Device { mode };
                MountAction::OpenDevice
            },
            MountEvent::Device(Ok(fd)) => match self.phase {
                MountPhase::Device { mode } => self.call_mount(fd, mode),
                _ => {
                    self.phase = MountPhase::MountFusefs;
                    MountAction::RunMountFusefs { args: mount_fusefs_args(self.options, fd) }
                },
            },
            MountEvent::Called { result, texts } => {
                match direct_mount_outcome(
                    self.errnos,
                    result,
                    texts.mountpoint.as_str(),
                    texts.data.as_str(),
                    texts.flags.as_str(),
                    texts.cause.as_str(),
                ) {
                    Ok(DirectMount::Mounted) => self.succeed(false),
                    Ok(DirectMount::UseHelper) => {
                        self.phase = MountPhase::Helper;
                        MountAction::DetectHelper
                    },
                    Err(error) => self.fail(error),
                }
            },
            MountEvent::Helper { program } => {
                if is_mount_fusefs(program.as_str()) {
                    self.phase = MountPhase::HelperDevice;
                    MountAction::OpenDevice
                } else {
                    self.phase = MountPhase::Fusermount;
                    MountAction::StartFusermount {
                        args: fusermount_mount_args(self.options, self.acl),
                        socket_variable: "_FUSE_COMMFD".to_owned(),
                    }
                }
            },
            MountEvent::MountFusefs(Ok((success, stderr))) => {
                match mount_fusefs_outcome(success, stderr.as_slice()) {
                    Ok(()) => self.succeed(false),
                    Err(error) => self.fail(error),
                }
            },
            MountEvent::Started(Ok(())) => {
                self.phase = MountPhase::Descriptor;
                MountAction::ReceiveDescriptor
            },
            MountEvent::Descriptor { received } => {
                if !received {
                    self.phase = MountPhase::Complaint;
                    MountAction::CollectComplaint
                } else if has_auto_unmount(self.options) {
                    self.phase = MountPhase::HelperOutput;
                    MountAction::ReadHelperOutput
                } else {
                    self.phase = MountPhase::HelperEnd;
                    MountAction::AwaitHelper
                }
            },
            MountEvent::Complaint(Ok(stderr)) => {
                self.fail(helper_mount_failure(stderr.as_slice()))
            },
            MountEvent::Ended(Ok(())) => self.succeed(false),
            MountEvent::OutputRead => self.succeed(true),
            MountEvent::Mode(Err(error))
            | MountEvent::Device(Err(error))
            | MountEvent::MountFusefs(Err(error))
            | MountEvent::Started(Err(error))
            | MountEvent::Complaint(Err(error))
            | MountEvent::Ended(Err(error)) => self.fail(error),
        }
    }

    fn call_mount(&mut self, fd: i32, mode: u32) -> (action: MountAction)
        ensures
            (final(self).phase, action@) == old(self).setup().next(
                MountPhase::Device { mode },
                MountEventView::Device(Ok(fd)),
            ),
            final(self).setup() == old(self).setup(),
    {
        match mount_flags(self.options, self.platform) {
            Err(error) => self.fail(error),
            Ok(flags) => {
                self.phase = MountPhase::Call;
                MountAction::CallMount {
                    source: mount_source(self.options),
                    fstype: "fuse".to_owned(),
                    data: mount_data(fd, mode, self.uid, self.gid, self.options, self.acl),
                    flags,
                }
            },
        }
    }

    fn succeed(&mut self, keep_socket: bool) -> (action: MountAction)
        ensures
            (final(self).phase, action@) == succeeded(keep_socket),
            final(self).setup() == old(self).setup(),
    {
        self.phase = MountPhase::Over;
        MountAction::Mounted { keep_socket }
    }

    fn fail(&mut self, error: Error) -> (action: MountAction)
        ensures
            (final(self).phase, action@) == failed(error@),
            final(self).setup() == old(self).setup(),
    {
        self.phase = MountPhase::Over;
        MountAction::Fail { error }
    }
}

/// Where a mount stands after a number of events, and what it needed done last. An event that it
/// does not wait for changes nothing.
pub open spec fn mount_run(setup: MountSetup, events: Seq<MountEventView>) -> (
    MountPhase,
    MountActionView,
)
    decreases events.len(),
{
    if events.len() == 0 {
        setup.first()
    } else {
        let (phase, action) = mount_run(setup, events.drop_last());
        if awaits(phase, events.last()) {
            setup.next(phase, events.last())
        } else {
            (phase, action)
        }
    }
}

/// How many events a mount can still wait for.
pub open spec fn events_left(phase: MountPhase) -> nat {
    match phase {
        MountPhase::Idle => 8,
        MountPhase::Mode => 7,
        MountPhase::Device { .. } => 6,
        MountPhase::Call => 5,
        MountPhase::Helper => 4,
        MountPhase::HelperDevice | MountPhase::Fusermount => 3,
        MountPhase::MountFusefs | MountPhase::Descriptor => 2,
        MountPhase::Complaint | MountPhase::HelperEnd | MountPhase::HelperOutput => 1,
        MountPhase::Over => 0,
    }
}

/// Every event brings a mount closer to its end, and it ends by saying whether the filesystem is
/// mounted.
pub proof fn lemma_mount_comes_to_an_end(
    setup: MountSetup,
    phase: MountPhase,
    event: MountEventView,
)
    requires
        awaits(phase, event),
    ensures
        events_left(setup.next(phase, event).0) < events_left(phase),
        setup.next(phase, event).0 == MountPhase::Over <==> (setup.next(phase, event).1 is Mounted
            || setup.next(phase, event).1 is Fail),
{
}

/// Whether a mount is in the hands of the mount call.
pub open spec fn is_direct(phase: MountPhase) -> bool {
    phase is Mode || phase is Device || phase is Call
}

/// Whether a mount is in the hands of the helper.
pub open spec fn is_helped(phase: MountPhase) -> bool {
    !is_direct(phase) && phase != MountPhase::Idle && phase != MountPhase::Over
}

/// A filesystem that is to be unmounted when the process goes away is mounted by the helper: the
/// mount call is never made for it.
pub proof fn lemma_auto_unmount_is_left_to_the_helper(
    setup: MountSetup,
    events: Seq<MountEventView>,
)
    requires
        wants_auto_unmount(setup.options),
    ensures
        !is_direct(mount_run(setup, events).0),
        !(mount_run(setup, events).1 is CallMount),
    decreases events.len(),
{
    if events.len() > 0 {
        lemma_auto_unmount_is_left_to_the_helper(setup, events.drop_last());
    }
}

/// The socket to the helper outlives the mount only if the filesystem is to be unmounted when the
/// process goes away; and then it does, unless the helper is the one of the BSDs, which has none.
pub proof fn lemma_socket_is_kept_for_auto_unmount(
    setup: MountSetup,
    events: Seq<MountEventView>,
    keep_socket: bool,
)
    requires
        mount_run(setup, events).1 == (MountActionView::Mounted { keep_socket }),
    ensures
        keep_socket ==> wants_auto_unmount(setup.options),
        wants_auto_unmount(setup.options) && !keep_socket ==> exists|i: int|
            0 <= i < events.len() && is_bsd_helper(#[trigger] events[i]),
    decreases events.len(),
{
    if events.len() > 0 {
        let earlier = events.drop_last();
        let (phase, action) = mount_run(setup, earlier);
        lemma_phase_has_its_reason(setup, earlier);
        if wants_auto_unmount(setup.options) {
            lemma_auto_unmount_is_left_to_the_helper(setup, earlier);
        }
        if !awaits(phase, events.last()) {
            lemma_socket_is_kept_for_auto_unmount(setup, earlier, keep_socket);
        }
        if exists|i: int| 0 <= i < earlier.len() && is_bsd_helper(#[trigger] earlier[i]) {
            let i = choose|i: int| 0 <= i < earlier.len() && is_bsd_helper(#[trigger] earlier[i]);
            assert(is_bsd_helper(events[i]));
        }
    }
}

/// Whether an event says that the helper is the one of the BSDs.
pub open spec fn is_bsd_helper(event: MountEventView) -> bool {
    event matches MountEventView::Helper { program } && ends_in(program, "mount_fusefs"@)
}

/// Whether an event says that the mount call was not permitted.
pub open spec fn is_not_permitted(errnos: Errnos, event: MountEventView) -> bool {
    event matches MountEventView::Called { result: Err(code), .. } && code == errnos.eperm
}

proof fn lemma_phase_has_its_reason(setup: MountSetup, events: Seq<MountEventView>)
    ensures
        mount_run(setup, events).0 is HelperOutput ==> wants_auto_unmount(setup.options),
        mount_run(setup, events).0 is HelperEnd ==> !wants_auto_unmount(setup.options),
        mount_run(setup, events).0 is HelperDevice || mount_run(setup, events).0 is MountFusefs
            ==> exists|i: int| 0 <= i < events.len() && is_bsd_helper(#[trigger] events[i]),
    decreases events.len(),
{
    if events.len() > 0 {
        let earlier = events.drop_last();
        lemma_phase_has_its_reason(setup, earlier);
        if exists|i: int| 0 <= i < earlier.len() && is_bsd_helper(#[trigger] earlier[i]) {
            let i = choose|i: int| 0 <= i < earlier.len() && is_bsd_helper(#[trigger] earlier[i]);
            assert(is_bsd_helper(events[i]));
        }
        if is_bsd_helper(events.last()) {
            assert(is_bsd_helper(events[events.len() - 1]));
        }
    }
}

/// Where the mount call is tried, the helper is asked only after the call was not permitted.
pub proof fn lemma_helper_is_asked_only_if_needed(setup: MountSetup, events: Seq<MountEventView>)
    requires
        setup.tries_mount_call(),
        is_helped(mount_run(setup, events).0),
    ensures
        exists|i: int| 0 <= i < events.len() && is_not_permitted(setup.errnos, #[trigger] events[i]),
    decreases events.len(),
{
    let earlier = events.drop_last();
    let phase = mount_run(setup, earlier).0;
    if is_helped(phase) {
        lemma_helper_is_asked_only_if_needed(setup, earlier);
        let i = choose|i: int| 0 <= i < earlier.len() && is_not_permitted(
            setup.errnos,
            #[trigger] earlier[i],
        );
        assert(is_not_permitted(setup.errnos, events[i]));
    } else {
        assert(is_not_permitted(setup.errnos, events[events.len() - 1]));
    }
}

/// Whatever happens, the mount call forbids device files and set-user-ID bits unless an option
/// allows them.
pub proof fn lemma_mount_call_is_guarded(
    setup: MountSetup,
    events: Seq<MountEventView>,
    source: Seq<char>,
    fstype: Seq<char>,
    data: Seq<char>,
    flags: u64,
)
    requires
        mount_run(setup, events).1 == (MountActionView::CallMount {
            source,
            fstype,
            data,
            flags,
        }),
    ensures
        !wants_dev(setup.options) ==> flags & nodev_flag(setup.platform) == nodev_flag(
            setup.platform,
        ),
        !wants_suid(setup.options) ==> flags & nosuid_flag(setup.platform) == nosuid_flag(
            setup.platform,
        ),
    decreases events.len(),
{
    let earlier = events.drop_last();
    if awaits(mount_run(setup, earlier).0, events.last()) {
        lemma_nodev_and_nosuid_by_default(setup.options, setup.platform);
    } else {
        lemma_mount_call_is_guarded(setup, earlier, source, fstype, data, flags);
    }
}

/// Whether an event says that the filesystem has its device: the mount call or the helper of the
/// BSDs succeeded, or the device was received from `fusermount`.
pub open spec fn brings_the_device(event: MountEventView) -> bool {
    match event {
        MountEventView::Called { result, .. } => result is Ok,
        MountEventView::MountFusefs(result) => result matches Ok((success, _)) && success,
        MountEventView::Descriptor { received } => received,
        _ => false,
    }
}

proof fn lemma_device_comes_before_the_end(setup: MountSetup, events: Seq<MountEventView>)
    ensures
        mount_run(setup, events).1 is Mounted || mount_run(setup, events).0 is HelperEnd
            || mount_run(setup, events).0 is HelperOutput ==> exists|i: int|
            0 <= i < events.len() && brings_the_device(#[trigger] events[i]),
    decreases events.len(),
{
    if events.len() > 0 {
        let earlier = events.drop_last();
        lemma_device_comes_before_the_end(setup, earlier);
        if exists|i: int| 0 <= i < earlier.len() && brings_the_device(#[trigger] earlier[i]) {
            let i = choose|i: int|
                0 <= i < earlier.len() && brings_the_device(#[trigger] earlier[i]);
            assert(brings_the_device(events[i]));
        }
        if brings_the_device(events.last()) {
            assert(brings_the_device(events[events.len() - 1]));
        }
    }
}

/// A mount that ends with the filesystem mounted has seen its device: the mount call succeeded, the
/// helper of the BSDs succeeded, or `fusermount` sent it. So a mount by `fusermount` ends that way
/// only after an event that says that the device was received, whatever the options are.
pub proof fn lemma_mounted_only_with_a_device(setup: MountSetup, events: Seq<MountEventView>)
    requires
        mount_run(setup, events).1 is Mounted,
    ensures
        exists|i: int|
            0 <= i < events.len() && (match #[trigger] events[i] {
                MountEventView::Called { result, .. } => result is Ok,
                MountEventView::MountFusefs(result) => result matches Ok((success, _)) && success,
                MountEventView::Descriptor { received } => received,
                _ => false,
            }),
        (forall|i: int|
            0 <= i < events.len() ==> !(#[trigger] events[i] is Called) && !(
            events[i] is MountFusefs)) ==> exists|i: int|
            0 <= i < events.len() && #[trigger] events[i] == (MountEventView::Descriptor {
                received: true,
            }),
{
    lemma_device_comes_before_the_end(setup, events);
    let i = choose|i: int| 0 <= i < events.len() && brings_the_device(#[trigger] events[i]);
    assert(0 <= i < events.len() && brings_the_device(events[i]));
}

/// Once `fusermount` has not sent the device, the mount can only fail, whatever the options are and
/// whatever comes after: it waits for what `fusermount` printed, and when that has come, or could
/// not be had, it has failed.
pub proof fn lemma_refused_descriptor_ends_in_failure(
    setup: MountSetup,
    events: Seq<MountEventView>,
    at: int,
)
    requires
        0 <= at < events.len(),
        awaits(mount_run(setup, events.take(at)).0, events[at]),
        events[at] == (MountEventView::Descriptor { received: false }),
    ensures
        !(mount_run(setup, events).1 is Mounted),
        mount_run(setup, events).0 == MountPhase::Complaint || mount_run(setup, events).0
            == MountPhase::Over,
        mount_run(setup, events).0 == MountPhase::Over ==> mount_run(setup, events).1 is Fail,
        (exists|i: int| at < i < events.len() && #[trigger] events[i] is Complaint) ==> mount_run(
            setup,
            events,
        ).1 is Fail,
    decreases events.len(),
{
    let earlier = events.drop_last();
    if at == events.len() - 1 {
        assert(events.take(at) =~= earlier);
    } else {
        assert(earlier.take(at) =~= events.take(at));
        lemma_refused_descriptor_ends_in_failure(setup, earlier, at);
        if exists|i: int| at < i < events.len() && #[trigger] events[i] is Complaint {
            let i = choose|i: int| at < i < events.len() && #[trigger] events[i] is Complaint;
            if i < earlier.len() {
                assert(earlier[i] is Complaint);
            }
        }
    }
}

/// A mount that is over stays as it is, whatever comes after.
pub proof fn lemma_mount_stays_over(
    setup: MountSetup,
    events: Seq<MountEventView>,
    event: MountEventView,
)
    requires
        mount_run(setup, events).1 is Mounted || mount_run(setup, events).1 is Fail,
    ensures
        mount_run(setup, events.push(event)) == mount_run(setup, events),
{
    assert(events.push(event).drop_last() =~= events);
    lemma_last_action_fits_the_phase(setup, events);
}

proof fn lemma_last_action_fits_the_phase(setup: MountSetup, events: Seq<MountEventView>)
    ensures
        mount_run(setup, events).0 == MountPhase::Over <==> (mount_run(setup, events).1 is Mounted
            || mount_run(setup, events).1 is Fail),
    decreases events.len(),
{
    if events.len() > 0 {
        lemma_last_action_fits_the_phase(setup, events.drop_last());
    }
}

/// The mount call is the first thing to try on Linux and macOS, if no option asks that the
/// filesystem be unmounted when the process goes away; else the helper is.
pub proof fn lemma_first_step_is_the_mount_call_where_it_can_be(setup: MountSetup)
    ensures
        (setup.platform == Platform::Linux || setup.platform == Platform::MacOs) && (forall|i: int|
            0 <= i < setup.options.len() ==> !((#[trigger] setup.options[i]).kind is AutoUnmount))
            ==> setup.first() == (MountPhase::Mode, MountActionView::ReadMode),
        setup.platform == Platform::Other || (exists|i: int|
            0 <= i < setup.options.len() && (#[trigger] setup.options[i]).kind is AutoUnmount)
            ==> setup.first() == (MountPhase::Helper, MountActionView::DetectHelper),
{
}

/// An error ends the mount as it is, wherever it comes up.
pub proof fn lemma_errors_end_the_mount(
    setup: MountSetup,
    phase: MountPhase,
    event: MountEventView,
    error: ErrorView,
)
    requires
        awaits(phase, event),
        ({
            ||| event == MountEventView::Mode(Err(error))
            ||| event == MountEventView::Device(Err(error))
            ||| event == MountEventView::MountFusefs(Err(error))
            ||| event == MountEventView::Started(Err(error))
            ||| event == MountEventView::Complaint(Err(error))
            ||| event == MountEventView::Ended(Err(error))
        }),
    ensures
        setup.next(phase, event).0 == MountPhase::Over,
        setup.next(phase, event).1 == (MountActionView::Fail { error }),
{
}

/// The mount call is made with the mode of the mount point and the device that were found, for the
/// user who mounts; it names the source, the type `fuse`, and the flags that the options stand for.
/// If those are in error, it is not made. When it succeeds the filesystem is mounted, without a
/// socket; when it is not permitted the helper is asked; and any other error is final.
pub proof fn lemma_mount_call_is_made_of_what_was_found(
    setup: MountSetup,
    events: Seq<MountEventView>,
    mode: u32,
    fd: i32,
    result: Result<(), i32>,
    text: Seq<char>,
)
    requires
        mount_run(setup, events).0 == MountPhase::Mode,
        fd > 2,
    ensures
        ({
            let opened = events + seq![
                MountEventView::Mode(Ok(mode)),
                MountEventView::Device(Ok(fd)),
            ];
            let called = opened.push(MountEventView::Called { result, text });
            &&& mount_run(setup, events.push(MountEventView::Mode(Ok(mode)))).1
                == MountActionView::OpenDevice
            &&& mount_flags_outcome(setup.options, setup.platform) matches Err(error) ==> mount_run(
                setup,
                opened,
            ).1 == (MountActionView::Fail { error })
            &&& mount_flags_outcome(setup.options, setup.platform) matches Ok(flags) ==> {
                &&& mount_run(setup, opened).1 == (MountActionView::CallMount {
                    source: mount_source_name(setup.options),
                    fstype: "fuse"@,
                    data: mount_data_text(
                        fd,
                        mode,
                        setup.uid,
                        setup.gid,
                        setup.options,
                        setup.acl,
                    ),
                    flags,
                })
                &&& result is Ok ==> mount_run(setup, called).1 == (MountActionView::Mounted {
                    keep_socket: false,
                })
                &&& result == Err::<(), i32>(setup.errnos.eperm) ==> mount_run(setup, called) == (
                    MountPhase::Helper,
                    MountActionView::DetectHelper,
                )
                &&& result is Err && result->Err_0 != setup.errnos.eperm ==> mount_run(
                    setup,
                    called,
                ).1 == (MountActionView::Fail {
                    error: ErrorView { kind: ErrorKind::Other, os: None, message: text },
                })
            }
        }),
{
    let moded = events.push(MountEventView::Mode(Ok(mode)));
    let opened = events + seq![MountEventView::Mode(Ok(mode)), MountEventView::Device(Ok(fd))];
    let called = opened.push(MountEventView::Called { result, text });
    assert(moded.drop_last() =~= events);
    assert(opened.drop_last() =~= moded);
    assert(opened.last() == MountEventView::Device(Ok(fd)));
    assert(called.drop_last() =~= opened);
    assert(mount_run(setup, moded).0 == (MountPhase::Device { mode }));
}

/// A mount by `fusermount` from its start to its end: it gets the options and the name of the
/// variable with its socket, sends the device, and then either ends, or stays with its socket if it
/// is to unmount the filesystem when the process goes away.
pub proof fn lemma_fusermount_sends_the_device(
    setup: MountSetup,
    events: Seq<MountEventView>,
    program: Seq<char>,
)
    requires
        mount_run(setup, events).0 == MountPhase::Helper,
        !ends_in(program, "mount_fusefs"@),
    ensures
        ({
            let named = events.push(MountEventView::Helper { program });
            let started = named.push(MountEventView::Started(Ok(())));
            let received = started.push(MountEventView::Descriptor { received: true });
            &&& mount_run(setup, named).1 == (MountActionView::StartFusermount {
                args: fusermount_mount_arg_texts(setup.options, setup.acl),
                socket_variable: "_FUSE_COMMFD"@,
            })
            &&& mount_run(setup, started).1 == MountActionView::ReceiveDescriptor
            &&& (exists|i: int|
                0 <= i < setup.options.len() && (#[trigger] setup.options[i]).kind is AutoUnmount)
                ==> {
                &&& mount_run(setup, received).1 == MountActionView::ReadHelperOutput
                &&& mount_run(setup, received.push(MountEventView::OutputRead)).1 == (
                MountActionView::Mounted { keep_socket: true })
            }
            &&& (forall|i: int|
                0 <= i < setup.options.len() ==> !((#[trigger] setup.options[i]).kind
                    is AutoUnmount)) ==> {
                &&& mount_run(setup, received).1 == MountActionView::AwaitHelper
                &&& mount_run(setup, received.push(MountEventView::Ended(Ok(())))).1 == (
                MountActionView::Mounted { keep_socket: false })
            }
        }),
{
    let named = events.push(MountEventView::Helper { program });
    let started = named.push(MountEventView::Started(Ok(())));
    let received = started.push(MountEventView::Descriptor { received: true });
    assert(named.drop_last() =~= events);
    assert(started.drop_last() =~= named);
    assert(received.drop_last() =~= started);
    assert(received.push(MountEventView::OutputRead).drop_last() =~= received);
    assert(received.push(MountEventView::Ended(Ok(()))).drop_last() =~= received);
}

/// A mount by `fusermount` that does not send the device fails with what it printed, and for lack of
/// permission exactly if that holds the complaint about `user_allow_other`.
pub proof fn lemma_fusermount_that_fails_says_why(
    setup: MountSetup,
    events: Seq<MountEventView>,
    stderr: Seq<u8>,
)
    requires
        mount_run(setup, events).0 == MountPhase::Descriptor,
    ensures
        ({
            let refused = events.push(MountEventView::Descriptor { received: false });
            let told = mount_run(setup, refused.push(MountEventView::Complaint(Ok(stderr)))).1;
            &&& mount_run(setup, refused).1 == MountActionView::CollectComplaint
            &&& told matches MountActionView::Fail { error }
            &&& error.message == utf8_lossy(stderr)
            &&& error.os is None
            &&& occurs(utf8_lossy(stderr), "only allowed if 'user_allow_other' is set"@)
                ==> error.kind == ErrorKind::PermissionDenied
            &&& !occurs(utf8_lossy(stderr), "only allowed if 'user_allow_other' is set"@)
                ==> error.kind == ErrorKind::Other
        }),
{
    let refused = events.push(MountEventView::Descriptor { received: false });
    assert(refused.drop_last() =~= events);
    assert(refused.push(MountEventView::Complaint(Ok(stderr))).drop_last() =~= refused);
}

/// A mount by the helper of the BSDs from its start to its end: it gets the device and the options,
/// and the filesystem is mounted, without a socket, exactly if it succeeds.
pub proof fn lemma_helper_of_the_bsds_gets_the_device(
    setup: MountSetup,
    events: Seq<MountEventView>,
    program: Seq<char>,
    fd: i32,
    success: bool,
    stderr: Seq<u8>,
)
    requires
        mount_run(setup, events).0 == MountPhase::Helper,
        ends_in(program, "mount_fusefs"@),
    ensures
        ({
            let named = events.push(MountEventView::Helper { program });
            let opened = named.push(MountEventView::Device(Ok(fd)));
            let ended = opened.push(MountEventView::MountFusefs(Ok((success, stderr))));
            &&& mount_run(setup, named).1 == MountActionView::OpenDevice
            &&& mount_run(setup, opened).1 == (MountActionView::RunMountFusefs {
                args: mount_fusefs_arg_texts(setup.options, fd),
            })
            &&& success ==> mount_run(setup, ended).1 == (MountActionView::Mounted {
                keep_socket: false,
            })
            &&& !success ==> mount_run(setup, ended).1 == (MountActionView::Fail {
                error: ErrorView { kind: ErrorKind::Other, os: None, message: utf8_lossy(stderr) },
            })
        }),
{
    let named = events.push(MountEventView::Helper { program });
    let opened = named.push(MountEventView::Device(Ok(fd)));
    let ended = opened.push(MountEventView::MountFusefs(Ok((success, stderr))));
    assert(named.drop_last() =~= events);
    assert(opened.drop_last() =~= named);
    assert(ended.drop_last() =~= opened);
}

} // verus!
