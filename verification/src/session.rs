//! The life of a session: whether it may begin, who destroys its filesystem, and how it is ended
//! from outside.
use vstd::prelude::*;

use crate::acl::SessionACL;
use crate::errno::Errnos;
use crate::error::{raised, Error, ErrorKind, ErrorView};
use crate::mount_options::{
    acl_texts, fusermount_mount_arg_texts, has_auto_unmount, option_texts, wants_auto_unmount,
    MountOption,
};
use crate::operation::Version;
use crate::platform::Platform;
use crate::runtime::{strategy_fault, RuntimePlan, RuntimeStrategy, Spawner};
use crate::text::joined;
use crate::unmount::{
    detach_umount_flags, is_gone, is_salvageable, lemma_reported_unmount_took_place, result_view,
    umount_end, unmount_outcome, Mount, MountSlot, SlotStart, UnmountAnswers, UnmountOption,
};

verus! {

/// The max size of write requests from the kernel: 16 MiB.
pub const MAX_WRITE_SIZE: usize = 16_777_216;

/// How a session is set up.
#[derive(Debug)]
pub struct Config<E, H> {
    /// The options of the mount.
    pub mount_options: Vec<MountOption>,
    /// Who may use the filesystem.
    pub acl: SessionACL,
    /// What runs the session.
    pub runtime_strategy: RuntimeStrategy<E, H>,
    /// Whether each event loop has a clone of the device to itself.
    pub clone_fd: bool,
}

/// What keeps a session from being set up: options that contradict each other, or else a strategy
/// that cannot be used.
pub open spec fn setup_fault<E: Spawner<Result<(), Error>>, H: Spawner<()>>(
    config: Config<E, H>,
    options: Result<(), Error>,
    platform: Platform,
) -> Option<ErrorView> {
    match options {
        Err(error) => Some(error@),
        Ok(()) => match strategy_fault(config.runtime_strategy, platform) {
            Some((kind, text)) => Some(raised(kind, text)),
            None => None,
        },
    }
}

/// What keeps a filesystem from being mounted: one that is unmounted when the process goes away has
/// to be open to others than its owner. The helper, which sees to it, works under another user.
pub open spec fn mount_fault<E, H>(config: Config<E, H>) -> Option<ErrorView> {
    if wants_auto_unmount(config.mount_options@) && config.acl == SessionACL::Owner {
        Some(
            raised(ErrorKind::InvalidInput, "auto_unmount requires acl != Owner, got: Owner"@),
        )
    } else {
        None
    }
}

impl<E: Spawner<Result<(), Error>>, H: Spawner<()>> Config<E, H> {
    /// Checks the configuration of a session, given whether its mount options contradict each
    /// other, and decides what is made to run it.
    pub fn prepare(&self, options: Result<(), Error>, platform: Platform) -> (plan: Result<
        RuntimePlan<'_, E, H>,
        Error,
    >)
        ensures
            match setup_fault(*self, options, platform) {
                None => plan matches Ok(made) && self.runtime_strategy.is_planned(made),
                Some(view) => plan matches Err(error) && error@ == view,
            },
    {
        match options {
            Err(error) => Err(error),
            Ok(()) => match self.runtime_strategy.verify(platform) {
                Err(error) => Err(error),
                Ok(()) => Ok(self.runtime_strategy.build()),
            },
        }
    }

    /// Checks the configuration of a session that is about to mount its filesystem.
    pub fn check_mount(&self) -> (result: Result<(), Error>)
        ensures
            match mount_fault(*self) {
                None => result is Ok,
                Some(view) => result matches Err(error) && error@ == view,
            },
    {
        let owner_only = match self.acl {
            SessionACL::Owner => true,
            _ => false,
        };
        if has_auto_unmount(&self.mount_options) && owner_only {
            Err(
                Error::new(
                    ErrorKind::InvalidInput,
                    "auto_unmount requires acl != Owner, got: Owner",
                ),
            )
        } else {
            Ok(())
        }
    }
}

/// A filesystem that is unmounted when the process goes away, and may be mounted, is mounted by the
/// helper with the option that opens it to others.
pub proof fn lemma_auto_unmount_opens_the_filesystem(options: Seq<MountOption>, acl: SessionACL)
    requires
        wants_auto_unmount(options),
        acl != SessionACL::Owner,
    ensures
        fusermount_mount_arg_texts(options, acl) == seq![
            "-o"@,
            joined(option_texts(options).push("allow_other"@), ","@),
            "--"@,
        ],
{
    assert(option_texts(options) + acl_texts(acl) =~= option_texts(options).push("allow_other"@));
}

/// Holds a filesystem until it is destroyed.
#[derive(Debug)]
pub struct FilesystemHolder<FS> {
    pub fs: Option<FS>,
}

impl<FS> FilesystemHolder<FS> {
    /// Holds a filesystem.
    pub fn new(fs: FS) -> (holder: FilesystemHolder<FS>)
        ensures
            holder.fs == Some(fs),
    {
        FilesystemHolder { fs: Some(fs) }
    }

    /// Gives the filesystem up, to be destroyed. It comes out once, however often it is asked for.
    pub fn destroy(&mut self) -> (fs: Option<FS>)
        ensures
            fs == old(self).fs,
            final(self).fs is None,
    {
        self.fs.take()
    }

    /// The filesystem, until it is destroyed.
    pub fn get(&self) -> (fs: &FS)
        requires
            self.fs is Some,
        ensures
            Some(*fs) == self.fs,
    {
        self.fs.as_ref().unwrap()
    }
}

/// How a wait for the end of a session ended.
#[derive(Debug)]
pub enum Joined {
    /// The session ended with a result.
    Ended(Result<(), Error>),
    /// The session did not come to an end, as the text says.
    Lost(String),
}

/// The result of a session that was waited for, or was not because there was nothing to wait for.
pub open spec fn joined_result(joined: Option<Joined>) -> Result<(), ErrorView> {
    match joined {
        None => Ok(()),
        Some(Joined::Ended(Ok(()))) => Ok(()),
        Some(Joined::Ended(Err(error))) => Err(error@),
        Some(Joined::Lost(text)) => Err(raised(ErrorKind::Other, text@)),
    }
}

/// The result of a session that was waited for, or was not because there was nothing to wait for.
pub fn join_result(joined: Option<Joined>) -> (result: Result<(), Error>)
    ensures
        match joined_result(joined) {
            Ok(()) => result is Ok,
            Err(view) => result matches Err(error) && error@ == view,
        },
{
    match joined {
        None => Ok(()),
        Some(Joined::Ended(result)) => result,
        Some(Joined::Lost(text)) => Err(Error::other(text.as_str())),
    }
}

/// What the end of a session that runs in the background needs done next.
#[derive(Debug)]
pub enum Teardown<M, G> {
    /// Unmount this.
    Unmount(M),
    /// Wait until its tasks are done; then wait for its end, if there is something to wait on.
    Wait(Option<G>),
    /// Nothing: the filesystem could not be unmounted.
    Fail(Error),
}

/// What the detachment of a session that runs in the background needs done next.
#[derive(Debug)]
pub enum Detachment<M, G> {
    /// Unmount this, with these options.
    Unmount { mount: M, options: Vec<UnmountOption> },
    /// Nothing: this waits for the end of the session.
    Detached(G),
    /// Nothing: it failed.
    Fail(Error),
}

/// The error of a session that has nothing to wait on.
pub open spec fn missing_guard_error() -> ErrorView {
    raised(ErrorKind::Other, "FUSE session guard not found"@)
}

/// A session that runs in the background. Its mount stays in the slot that it shares with those who
/// may unmount it.
#[derive(Debug)]
pub struct BackgroundSession<G> {
    /// What waits for the end of the session, until it has been waited for.
    pub guard: Option<G>,
}

impl<G> BackgroundSession<G> {
    /// The session, its slot, and what its end needs done first: an unmount, if there is a mount.
    pub open spec fn umount_started<M>(self, slot: MountSlot<M>) -> (
        BackgroundSession<G>,
        MountSlot<M>,
        Teardown<M, G>,
    ) {
        match slot.mount {
            Some(mount) => (self, MountSlot { mount: None }, Teardown::Unmount(mount)),
            None => (BackgroundSession { guard: None }, slot, Teardown::Wait(self.guard)),
        }
    }

    /// The session, its slot, and what its end needs done next, after its mount was unmounted or was
    /// not. A mount that survived goes back, and the session is not waited for.
    pub open spec fn umounted<M>(
        self,
        slot: MountSlot<M>,
        outcome: Result<(), (Option<M>, Error)>,
    ) -> (BackgroundSession<G>, MountSlot<M>, Teardown<M, G>) {
        match outcome {
            Ok(()) => (BackgroundSession { guard: None }, slot, Teardown::Wait(self.guard)),
            Err((mount, error)) => (self, MountSlot { mount }, Teardown::Fail(error)),
        }
    }

    /// A session that runs in the background.
    pub fn new(guard: G) -> (session: BackgroundSession<G>)
        ensures
            session.guard == Some(guard),
    {
        BackgroundSession { guard: Some(guard) }
    }

    /// Starts to wait for the end of the session, without unmounting its filesystem. It is waited
    /// for once.
    pub fn start_join(&mut self) -> (guard: Option<G>)
        ensures
            guard == old(self).guard,
            final(self).guard is None,
    {
        self.guard.take()
    }

    /// Starts to unmount the filesystem and to wait for the end of the session.
    pub fn start_umount_and_join<M>(&mut self, slot: &mut MountSlot<M>) -> (next: Teardown<M, G>)
        ensures
            (*final(self), *final(slot), next) == old(self).umount_started(*old(slot)),
    {
        match slot.start_umount() {
            SlotStart::Proceed(mount) => Teardown::Unmount(mount),
            SlotStart::Done(_) => Teardown::Wait(self.guard.take()),
        }
    }

    /// Goes on after the unmount.
    pub fn after_umount<M>(
        &mut self,
        slot: &mut MountSlot<M>,
        outcome: Result<(), (Option<M>, Error)>,
    ) -> (next: Teardown<M, G>)
        ensures
            (*final(self), *final(slot), next) == old(self).umounted(*old(slot), outcome),
    {
        match slot.settle(outcome) {
            Ok(()) => Teardown::Wait(self.guard.take()),
            Err(error) => Teardown::Fail(error),
        }
    }

    /// Whether a failed attempt to unmount the filesystem and wait for the session hands the session
    /// back, so that it can be made again: if its filesystem is still mounted. A session that is not
    /// handed back is dropped, which waits for its end.
    pub fn is_handed_back<M>(&self, slot: &MountSlot<M>) -> (back: bool)
        ensures
            back == (slot.mount is Some),
    {
        slot.mount.is_some()
    }

    /// Hands out the mount of a session that is dropped, where it survived the unmount, so that it is
    /// dropped with the session and not left to those who may unmount it.
    pub fn release<M>(&self, slot: &mut MountSlot<M>) -> (mount: Option<M>)
        ensures
            mount == old(slot).mount,
            final(slot).mount is None,
    {
        slot.take()
    }

    /// Starts to detach the session: to unmount its filesystem, with the option to detach it and no
    /// other, without waiting for its end.
    pub fn start_umount_and_detach<M>(&mut self, slot: &mut MountSlot<M>) -> (next: Detachment<
        M,
        G,
    >)
        ensures
            final(slot).mount is None,
            match (old(slot).mount, old(self).guard) {
                (Some(taken), _) => next matches Detachment::Unmount { mount, options } && mount
                    == taken && options@ == seq![UnmountOption::Detach] && *final(self)
                    == *old(self),
                (None, Some(guard)) => next == Detachment::<M, G>::Detached(guard)
                    && final(self).guard is None,
                (None, None) => next matches Detachment::Fail(error) && error@
                    == missing_guard_error() && final(self).guard is None,
            },
    {
        match slot.start_umount() {
            SlotStart::Proceed(mount) => Detachment::Unmount {
                mount,
                options: detach_umount_flags(),
            },
            SlotStart::Done(_) => self.detached(),
        }
    }

    /// Goes on after the unmount.
    pub fn after_detaching_umount<M>(
        &mut self,
        slot: &mut MountSlot<M>,
        outcome: Result<(), (Option<M>, Error)>,
    ) -> (next: Detachment<M, G>)
        ensures
            match outcome {
                Err((mount, error)) => next == Detachment::<M, G>::Fail(error) && *final(self)
                    == *old(self) && final(slot).mount == mount,
                Ok(()) => final(self).guard is None && *final(slot) == *old(slot) && match old(
                    self,
                ).guard {
                    Some(guard) => next == Detachment::<M, G>::Detached(guard),
                    None => next matches Detachment::Fail(error) && error@ == missing_guard_error(),
                },
            },
    {
        match slot.settle(outcome) {
            Ok(()) => self.detached(),
            Err(error) => Detachment::Fail(error),
        }
    }

    fn detached<M>(&mut self) -> (next: Detachment<M, G>)
        ensures
            final(self).guard is None,
            match old(self).guard {
                Some(guard) => next == Detachment::<M, G>::Detached(guard),
                None => next matches Detachment::Fail(error) && error@ == missing_guard_error(),
            },
    {
        match self.guard.take() {
            Some(guard) => Detachment::Detached(guard),
            None => Detachment::Fail(Error::other("FUSE session guard not found")),
        }
    }
}

/// An attempt to unmount the filesystem of a session and wait for its end, if the unmount fails,
/// hands the session back exactly if the filesystem is still there and can be unmounted later; and
/// then session and mount are as they were, so that the attempt can be made again. A session that is
/// not handed back still has what waits for its end.
pub proof fn lemma_session_that_stays_mounted_is_handed_back<I, G>(
    errnos: Errnos,
    session: BackgroundSession<G>,
    slot: MountSlot<Mount<I>>,
    error: Error,
    alive: bool,
)
    requires
        slot.mount is Some,
    ensures
        ({
            let mount = slot.mount->0;
            let (started, taken, first) = session.umount_started(slot);
            let outcome = umount_end(errnos, mount, Err(error), alive);
            let (rest, left, next) = started.umounted(taken, outcome);
            &&& first == Teardown::<Mount<I>, G>::Unmount(mount)
            &&& next == Teardown::<Mount<I>, G>::Fail(error)
            &&& rest == session
            &&& left == (if is_salvageable(errnos, error@) && alive {
                slot
            } else {
                MountSlot { mount: None }
            })
        }),
{
}

/// A session that is dropped leaves no mount behind: after the attempt to unmount its filesystem, the
/// slot is empty, or holds the mount as it was, for the session to hand out. It holds it exactly if
/// the unmount failed with an error that the mount can survive and the filesystem is still there.
pub proof fn lemma_dropped_session_leaves_no_mount<I, G>(
    errnos: Errnos,
    session: BackgroundSession<G>,
    slot: MountSlot<Mount<I>>,
    result: Result<(), Error>,
    alive: bool,
)
    requires
        slot.mount is Some,
    ensures
        ({
            let (started, taken, _) = session.umount_started(slot);
            let outcome = umount_end(errnos, slot.mount->0, result, alive);
            let (_, left, next) = started.umounted(taken, outcome);
            &&& left.mount is Some ==> left == slot
            &&& left.mount is Some <==> (result matches Err(error) && is_salvageable(errnos, error@)
                && alive)
            &&& result is Ok <==> next == Teardown::<Mount<I>, G>::Wait(session.guard)
        }),
{
}

/// While a session runs in the background, its mount is where those who may unmount it find it: they
/// start an unmount of it, and are told that it succeeded only if the filesystem is no longer
/// mounted. The end of the session is then waited for without another unmount.
pub proof fn lemma_unmounter_serves_a_background_session<I, G>(
    errnos: Errnos,
    session: BackgroundSession<G>,
    slot: MountSlot<Mount<I>>,
    answers: UnmountAnswers,
    result: Result<(), Error>,
    alive: bool,
)
    requires
        slot.mount matches Some(mount) && mount.mount_impl is Some,
        result_view(result) == unmount_outcome(errnos, answers).1,
    ensures
        ({
            let mount = slot.mount->0;
            let (taken, start) = slot.started();
            let (left, reported) = taken.settled(umount_end(errnos, mount, result, alive));
            &&& start == SlotStart::Proceed(mount)
            &&& reported is Ok ==> is_gone(errnos, answers)
            &&& reported is Ok ==> session.umount_started(left).2 == Teardown::<
                Mount<I>,
                G,
            >::Wait(session.guard)
        }),
{
    lemma_reported_unmount_took_place(errnos, slot, answers, result, alive);
}

/// Where a session has its device from.
#[derive(Clone, Copy, Debug, PartialEq, Eq, Structural)]
pub enum SessionSource {
    /// It mounts its filesystem.
    Mountpoint,
    /// It is handed an open device of a filesystem that somebody else mounts.
    Descriptor,
}

/// What the opening of a session waits for.
#[derive(Clone, Copy, Debug, PartialEq, Eq, Structural)]
pub enum OpeningPhase {
    /// The opening has not begun.
    Idle,
    /// What runs the session.
    Runtime,
    /// The mount.
    Mount,
    /// The device that was handed over.
    Device,
    /// The handshake.
    Handshake,
    /// Nothing: the session is open.
    Open { version: Version },
    /// Nothing: the opening failed.
    Failed,
}

/// What the opening of a session needs done next.
#[derive(Debug)]
pub enum OpeningAction<'a, E, H> {
    /// Make what runs the session.
    BuildRuntime(RuntimePlan<'a, E, H>),
    /// Mount the filesystem.
    Mount,
    /// Take over the device that was handed over.
    TakeDevice,
    /// Hold the filesystem, which is destroyed from now on when the session is dropped, and perform
    /// the handshake.
    Handshake,
    /// Nothing: the session is open.
    Open,
    /// Nothing: the opening failed.
    Fail(Error),
}

/// Something that happens to the opening of a session.
pub enum OpeningEvent {
    /// What runs the session was made, or was not.
    Runtime { made: bool },
    /// The filesystem was mounted, or was not.
    Mounted { mounted: bool },
    /// The device that was handed over was taken, or was not.
    Device { taken: bool },
    /// The handshake came to a protocol version, or failed.
    Handshake { outcome: Option<Version> },
}

/// The phase that an event leads to, where `may_mount` says whether the filesystem may be mounted. An
/// event that the phase does not wait for changes nothing.
pub open spec fn opening_after(
    source: SessionSource,
    may_mount: bool,
    phase: OpeningPhase,
    event: OpeningEvent,
) -> OpeningPhase {
    match (phase, event) {
        (OpeningPhase::Runtime, OpeningEvent::Runtime { made }) => if !made {
            OpeningPhase::Failed
        } else if source == SessionSource::Descriptor {
            OpeningPhase::Device
        } else if may_mount {
            OpeningPhase::Mount
        } else {
            OpeningPhase::Failed
        },
        (OpeningPhase::Mount, OpeningEvent::Mounted { mounted }) => if mounted {
            OpeningPhase::Handshake
        } else {
            OpeningPhase::Failed
        },
        (OpeningPhase::Device, OpeningEvent::Device { taken }) => if taken {
            OpeningPhase::Handshake
        } else {
            OpeningPhase::Failed
        },
        (OpeningPhase::Handshake, OpeningEvent::Handshake { outcome }) => match outcome {
            Some(version) => OpeningPhase::Open { version },
            None => OpeningPhase::Failed,
        },
        _ => phase,
    }
}

/// The phase of an opening, whose configuration was found to be in order, after a number of events.
pub open spec fn opening_run(
    source: SessionSource,
    may_mount: bool,
    events: Seq<OpeningEvent>,
) -> OpeningPhase
    decreases events.len(),
{
    if events.len() == 0 {
        OpeningPhase::Runtime
    } else {
        opening_after(
            source,
            may_mount,
            opening_run(source, may_mount, events.drop_last()),
            events.last(),
        )
    }
}

/// The opening of a session.
#[derive(Debug)]
pub struct Opening<'a, E, H, M> {
    /// How the session is set up.
    pub config: &'a Config<E, H>,
    /// Where it has its device from.
    pub source: SessionSource,
    /// Where the session gets its mount, or stays without.
    pub slot: MountSlot<M>,
    /// What the opening waits for.
    pub phase: OpeningPhase,
}

impl<'a, E: Spawner<Result<(), Error>>, H: Spawner<()>, M> Opening<'a, E, H, M> {
    /// A session has a mount exactly from when it has mounted its filesystem; one that is handed a
    /// device neither mounts nor has a mount.
    pub open spec fn wf(self) -> bool {
        match self.source {
            SessionSource::Descriptor => self.slot.mount is None && self.phase
                != OpeningPhase::Mount,
            SessionSource::Mountpoint => self.phase != OpeningPhase::Device && (self.phase
                == OpeningPhase::Handshake || self.phase is Open ==> self.slot.mount is Some),
        }
    }

    /// Whether the opening is as it was, but for its phase.
    pub open spec fn differs_in_phase(self, other: Opening<'a, E, H, M>) -> bool {
        self == (Opening { phase: self.phase, ..other })
    }

    /// An opening that has not begun.
    pub fn new(config: &'a Config<E, H>, source: SessionSource) -> (opening: Opening<'a, E, H, M>)
        ensures
            opening.config == config,
            opening.source == source,
            opening.slot.mount is None,
            opening.phase == OpeningPhase::Idle,
            opening.wf(),
    {
        Opening { config, source, slot: MountSlot::new(None), phase: OpeningPhase::Idle }
    }

    /// Begins the opening, given whether the mount options contradict each other, which matters only
    /// to a session that mounts its filesystem.
    pub fn start(&mut self, options: Result<(), Error>, platform: Platform) -> (action:
        OpeningAction<'a, E, H>)
        requires
            old(self).wf(),
            old(self).phase == OpeningPhase::Idle,
        ensures
            final(self).wf(),
            final(self).differs_in_phase(*old(self)),
            ({
                let checked = match old(self).source {
                    SessionSource::Mountpoint => options,
                    SessionSource::Descriptor => Ok(()),
                };
                match setup_fault(*old(self).config, checked, platform) {
                    None => final(self).phase == OpeningPhase::Runtime && (action matches
                        OpeningAction::BuildRuntime(plan)
                        && old(self).config.runtime_strategy.is_planned(plan)),
                    Some(view) => final(self).phase == OpeningPhase::Failed && (action matches
                        OpeningAction::Fail(error) && error@ == view),
                }
            }),
    {
        let checked = match self.source {
            SessionSource::Mountpoint => options,
            SessionSource::Descriptor => Ok(()),
        };
        match self.config.prepare(checked, platform) {
            Ok(plan) => {
                self.phase = OpeningPhase::Runtime;
                OpeningAction::BuildRuntime(plan)
            },
            Err(error) => self.fail(error),
        }
    }

    /// Goes on once what runs the session has been made. Only now is it checked whether the
    /// filesystem may be mounted.
    pub fn on_runtime(&mut self, made: Result<(), Error>) -> (action: OpeningAction<'a, E, H>)
        requires
            old(self).wf(),
            old(self).phase == OpeningPhase::Runtime,
        ensures
            final(self).wf(),
            final(self).differs_in_phase(*old(self)),
            match (made, old(self).source) {
                (Err(error), _) => final(self).phase == OpeningPhase::Failed && action
                    == OpeningAction::<'a, E, H>::Fail(error),
                (Ok(()), SessionSource::Descriptor) => final(self).phase == OpeningPhase::Device
                    && action == OpeningAction::<'a, E, H>::TakeDevice,
                (Ok(()), SessionSource::Mountpoint) => match mount_fault(*old(self).config) {
                    None => final(self).phase == OpeningPhase::Mount && action
                        == OpeningAction::<'a, E, H>::Mount,
                    Some(view) => final(self).phase == OpeningPhase::Failed && (action matches
                        OpeningAction::Fail(error) && error@ == view),
                },
            },
            final(self).phase == opening_after(
                old(self).source,
                mount_fault(*old(self).config) is None,
                old(self).phase,
                OpeningEvent::Runtime { made: made is Ok },
            ),
    {
        match made {
            Err(error) => self.fail(error),
            Ok(()) => match self.source {
                SessionSource::Descriptor => {
                    self.phase = OpeningPhase::Device;
                    OpeningAction::TakeDevice
                },
                SessionSource::Mountpoint => match self.config.check_mount() {
                    Ok(()) => {
                        self.phase = OpeningPhase::Mount;
                        OpeningAction::Mount
                    },
                    Err(error) => self.fail(error),
                },
            },
        }
    }

    /// Goes on after the mount.
    pub fn on_mounted(&mut self, mounted: Result<M, Error>) -> (action: OpeningAction<'a, E, H>)
        requires
            old(self).wf(),
            old(self).phase == OpeningPhase::Mount,
        ensures
            final(self).wf(),
            final(self).config == old(self).config,
            final(self).source == old(self).source,
            match mounted {
                Ok(mount) => final(self).slot.mount == Some(mount) && final(self).phase
                    == OpeningPhase::Handshake && action
                    == OpeningAction::<'a, E, H>::Handshake,
                Err(error) => final(self).slot == old(self).slot && final(self).phase
                    == OpeningPhase::Failed && action == OpeningAction::<'a, E, H>::Fail(error),
            },
            final(self).phase == opening_after(
                old(self).source,
                mount_fault(*old(self).config) is None,
                old(self).phase,
                OpeningEvent::Mounted { mounted: mounted is Ok },
            ),
    {
        match mounted {
            Ok(mount) => {
                self.slot = MountSlot::new(Some(mount));
                self.phase = OpeningPhase::Handshake;
                OpeningAction::Handshake
            },
            Err(error) => self.fail(error),
        }
    }

    /// Goes on with the device that was handed over.
    pub fn on_device(&mut self, taken: Result<(), Error>) -> (action: OpeningAction<'a, E, H>)
        requires
            old(self).wf(),
            old(self).phase == OpeningPhase::Device,
        ensures
            final(self).wf(),
            final(self).differs_in_phase(*old(self)),
            match taken {
                Ok(()) => final(self).phase == OpeningPhase::Handshake && action
                    == OpeningAction::<'a, E, H>::Handshake,
                Err(error) => final(self).phase == OpeningPhase::Failed && action
                    == OpeningAction::<'a, E, H>::Fail(error),
            },
            final(self).phase == opening_after(
                old(self).source,
                mount_fault(*old(self).config) is None,
                old(self).phase,
                OpeningEvent::Device { taken: taken is Ok },
            ),
    {
        match taken {
            Ok(()) => {
                self.phase = OpeningPhase::Handshake;
                OpeningAction::Handshake
            },
            Err(error) => self.fail(error),
        }
    }

    /// Goes on after the handshake, which came to a protocol version or failed.
    pub fn on_handshake(&mut self, outcome: Result<Version, Error>) -> (action: OpeningAction<
        'a,
        E,
        H,
    >)
        requires
            old(self).wf(),
            old(self).phase == OpeningPhase::Handshake,
        ensures
            final(self).wf(),
            final(self).differs_in_phase(*old(self)),
            match outcome {
                Ok(version) => final(self).phase == (OpeningPhase::Open { version }) && action
                    == OpeningAction::<'a, E, H>::Open,
                Err(error) => final(self).phase == OpeningPhase::Failed && action
                    == OpeningAction::<'a, E, H>::Fail(error),
            },
            final(self).phase == opening_after(
                old(self).source,
                mount_fault(*old(self).config) is None,
                old(self).phase,
                OpeningEvent::Handshake {
                    outcome: match outcome {
                        Ok(version) => Some(version),
                        Err(_) => None,
                    },
                },
            ),
    {
        match outcome {
            Ok(version) => {
                self.phase = OpeningPhase::Open { version };
                OpeningAction::Open
            },
            Err(error) => self.fail(error),
        }
    }

    /// The protocol version of the session, once it is open.
    pub fn proto_version(&self) -> (version: Option<Version>)
        ensures
            version is Some <==> self.phase is Open,
            version matches Some(known) ==> self.phase == (OpeningPhase::Open { version: known }),
    {
        match self.phase {
            OpeningPhase::Open { version } => Some(version),
            _ => None,
        }
    }

    fn fail(&mut self, error: Error) -> (action: OpeningAction<'a, E, H>)
        requires
            old(self).wf(),
        ensures
            final(self).wf(),
            final(self).differs_in_phase(*old(self)),
            final(self).phase == OpeningPhase::Failed,
            action == OpeningAction::<'a, E, H>::Fail(error),
    {
        self.phase = OpeningPhase::Failed;
        OpeningAction::Fail(error)
    }
}

/// A session that was handed an open device has no mount at any time: it never waits for one, and an
/// unmount of it succeeds without a step.
pub proof fn lemma_session_on_a_descriptor_has_nothing_to_unmount<
    'a,
    E: Spawner<Result<(), Error>>,
    H: Spawner<()>,
    M,
>(opening: Opening<'a, E, H, M>)
    requires
        opening.wf(),
        opening.source == SessionSource::Descriptor,
    ensures
        opening.phase != OpeningPhase::Mount,
        opening.slot.started() == (opening.slot, SlotStart::<M>::Done(Ok(()))),
{
}

/// A session can be set up exactly if its mount options do not contradict each other and its strategy
/// can be used. Of the two faults, the options are reported, and as they are.
pub proof fn lemma_options_are_checked_before_the_strategy<
    E: Spawner<Result<(), Error>>,
    H: Spawner<()>,
>(config: Config<E, H>, error: Error, platform: Platform)
    ensures
        setup_fault(config, Err(error), platform) == Some(error@),
        setup_fault(config, Ok(()), platform) is None <==> strategy_fault(
            config.runtime_strategy,
            platform,
        ) is None,
        strategy_fault(config.runtime_strategy, platform) matches Some((kind, text)) ==> (
        setup_fault(config, Ok(()), platform) matches Some(fault) && fault.kind == kind
            && fault.message == text && fault.os is None),
{
}

/// A filesystem may not be mounted exactly if some option asks that it be unmounted when the process
/// goes away, and nobody but its owner may use it.
pub proof fn lemma_auto_unmount_needs_others<E, H>(config: Config<E, H>, i: int)
    ensures
        0 <= i < config.mount_options.len() && config.mount_options[i].kind is AutoUnmount
            && config.acl == SessionACL::Owner ==> mount_fault(config) == Some(
            ErrorView {
                kind: ErrorKind::InvalidInput,
                os: None,
                message: "auto_unmount requires acl != Owner, got: Owner"@,
            },
        ),
        config.acl != SessionACL::Owner ==> mount_fault(config) is None,
        (forall|j: int|
            0 <= j < config.mount_options.len() ==> !((#[trigger] config.mount_options[j]).kind
                is AutoUnmount)) ==> mount_fault(config) is None,
{
    if wants_auto_unmount(config.mount_options@) {
        let j = choose|j: int|
            0 <= j < config.mount_options@.len() && (#[trigger] config.mount_options@[j]).kind
                is AutoUnmount;
        assert(config.mount_options[j].kind is AutoUnmount);
    }
    if 0 <= i < config.mount_options.len() {
        assert(config.mount_options@[i] == config.mount_options[i]);
    }
}

/// A wait for a session hands back what the session ended with, unless it did not come to an end: then
/// the text that says so is the error. Where there is nothing to wait for, all is well.
pub proof fn lemma_wait_hands_back_the_result(result: Result<(), Error>, text: String)
    ensures
        joined_result(Some(Joined::Ended(result))) is Ok <==> result is Ok,
        result matches Err(error) ==> joined_result(Some(Joined::Ended(result))) == Err::<
            (),
            ErrorView,
        >(error@),
        joined_result(Some(Joined::Lost(text))) == Err::<(), ErrorView>(
            ErrorView { kind: ErrorKind::Other, os: None, message: text@ },
        ),
        joined_result(None) is Ok,
{
}

/// The end of a session is waited for once, and only when its filesystem is not mounted any more:
/// without a mount at once, with one after it has been unmounted. To ask again is to wait for nothing.
pub proof fn lemma_session_is_waited_for_once<M, G>(
    session: BackgroundSession<G>,
    slot: MountSlot<M>,
    empty: MountSlot<M>,
)
    requires
        empty.mount is None,
    ensures
        slot.mount is Some ==> session.umount_started(slot).2 == Teardown::<M, G>::Unmount(
            slot.mount->0,
        ) && session.umount_started(slot).1 == empty && session.umount_started(slot).0 == session,
        session.umount_started(empty).2 == Teardown::<M, G>::Wait(session.guard),
        session.umount_started(empty).1 == empty,
        session.umounted(slot, Ok(())).2 == Teardown::<M, G>::Wait(session.guard),
        session.umounted(slot, Ok(())).1 == slot,
        session.umount_started(empty).0.umount_started(empty).2 == Teardown::<M, G>::Wait(None),
        session.umounted(slot, Ok(())).0.umount_started(empty).2 == Teardown::<M, G>::Wait(None),
{
}

/// A session that has nothing to wait on cannot be detached, and says so.
pub proof fn lemma_missing_guard_is_named()
    ensures
        missing_guard_error().kind == ErrorKind::Other,
        missing_guard_error().os is None,
        missing_guard_error().message == "FUSE session guard not found"@,
{
}

proof fn lemma_opening_has_come_this_far(
    source: SessionSource,
    may_mount: bool,
    events: Seq<OpeningEvent>,
)
    ensures
        ({
            let phase = opening_run(source, may_mount, events);
            let made = exists|i: int|
                0 <= i < events.len() && #[trigger] events[i] == (OpeningEvent::Runtime {
                    made: true,
                });
            let mounted = exists|i: int|
                0 <= i < events.len() && #[trigger] events[i] == (OpeningEvent::Mounted {
                    mounted: true,
                });
            let taken = exists|i: int|
                0 <= i < events.len() && #[trigger] events[i] == (OpeningEvent::Device {
                    taken: true,
                });
            &&& phase is Mount ==> source == SessionSource::Mountpoint && may_mount && made
            &&& phase is Device ==> source == SessionSource::Descriptor && made
            &&& phase is Handshake || phase is Open ==> made && if source
                == SessionSource::Mountpoint {
                may_mount && mounted
            } else {
                taken
            }
            &&& phase matches OpeningPhase::Open { version } ==> exists|i: int|
                0 <= i < events.len() && #[trigger] events[i] == (OpeningEvent::Handshake {
                    outcome: Some(version),
                })
            &&& phase != OpeningPhase::Idle
        }),
    decreases events.len(),
{
    if events.len() > 0 {
        let earlier = events.drop_last();
        let last = events.len() - 1;
        lemma_opening_has_come_this_far(source, may_mount, earlier);
        assert(events[last] == events.last());
        assert forall|i: int| 0 <= i < earlier.len() implies #[trigger] earlier[i] == events[i] by {}
        let version = opening_run(source, may_mount, events)->Open_version;
        let made = OpeningEvent::Runtime { made: true };
        let mounted = OpeningEvent::Mounted { mounted: true };
        let taken = OpeningEvent::Device { taken: true };
        let agreed = OpeningEvent::Handshake { outcome: Some(version) };
        if exists|i: int| 0 <= i < earlier.len() && #[trigger] earlier[i] == made {
            let i = choose|i: int| 0 <= i < earlier.len() && #[trigger] earlier[i] == made;
            assert(events[i] == made);
        }
        if exists|i: int| 0 <= i < earlier.len() && #[trigger] earlier[i] == mounted {
            let i = choose|i: int| 0 <= i < earlier.len() && #[trigger] earlier[i] == mounted;
            assert(events[i] == mounted);
        }
        if exists|i: int| 0 <= i < earlier.len() && #[trigger] earlier[i] == taken {
            let i = choose|i: int| 0 <= i < earlier.len() && #[trigger] earlier[i] == taken;
            assert(events[i] == taken);
        }
        if exists|i: int| 0 <= i < earlier.len() && #[trigger] earlier[i] == agreed {
            let i = choose|i: int| 0 <= i < earlier.len() && #[trigger] earlier[i] == agreed;
            assert(events[i] == agreed);
        }
    }
}

/// A session is open only after what runs it was made, it has its device (mounted, if that is allowed,
/// or handed over), and the handshake came to the protocol version of the session.
pub proof fn lemma_session_opens_after_all_its_steps(
    source: SessionSource,
    may_mount: bool,
    events: Seq<OpeningEvent>,
    version: Version,
)
    requires
        opening_run(source, may_mount, events) == (OpeningPhase::Open { version }),
    ensures
        exists|i: int|
            0 <= i < events.len() && #[trigger] events[i] == (OpeningEvent::Runtime { made: true }),
        source == SessionSource::Mountpoint ==> may_mount && exists|i: int|
            0 <= i < events.len() && #[trigger] events[i] == (OpeningEvent::Mounted {
                mounted: true,
            }),
        source == SessionSource::Descriptor ==> exists|i: int|
            0 <= i < events.len() && #[trigger] events[i] == (OpeningEvent::Device { taken: true }),
        exists|i: int|
            0 <= i < events.len() && #[trigger] events[i] == (OpeningEvent::Handshake {
                outcome: Some(version),
            }),
{
    lemma_opening_has_come_this_far(source, may_mount, events);
}

/// A session opens when all its steps go well, and a step that does not ends the opening: whatever
/// comes after, it stays failed.
pub proof fn lemma_session_opens_if_all_goes_well(
    source: SessionSource,
    may_mount: bool,
    version: Version,
    event: OpeningEvent,
)
    ensures
        opening_run(
            SessionSource::Descriptor,
            may_mount,
            seq![
                OpeningEvent::Runtime { made: true },
                OpeningEvent::Device { taken: true },
                OpeningEvent::Handshake { outcome: Some(version) },
            ],
        ) == (OpeningPhase::Open { version }),
        opening_run(
            SessionSource::Mountpoint,
            true,
            seq![
                OpeningEvent::Runtime { made: true },
                OpeningEvent::Mounted { mounted: true },
                OpeningEvent::Handshake { outcome: Some(version) },
            ],
        ) == (OpeningPhase::Open { version }),
        opening_after(source, may_mount, OpeningPhase::Failed, event) == OpeningPhase::Failed,
        opening_after(
            source,
            may_mount,
            OpeningPhase::Runtime,
            OpeningEvent::Runtime { made: false },
        ) == OpeningPhase::Failed,
        opening_after(
            source,
            may_mount,
            OpeningPhase::Mount,
            OpeningEvent::Mounted { mounted: false },
        ) == OpeningPhase::Failed,
        opening_after(
            source,
            may_mount,
            OpeningPhase::Device,
            OpeningEvent::Device { taken: false },
        ) == OpeningPhase::Failed,
        opening_after(
            source,
            may_mount,
            OpeningPhase::Handshake,
            OpeningEvent::Handshake { outcome: None },
        ) == OpeningPhase::Failed,
{
    reveal_with_fuel(opening_run, 4);
    let runtime = OpeningEvent::Runtime { made: true };
    let taken = OpeningEvent::Device { taken: true };
    let mounted = OpeningEvent::Mounted { mounted: true };
    let agreed = OpeningEvent::Handshake { outcome: Some(version) };
    assert(seq![runtime, taken, agreed].drop_last() =~= seq![runtime, taken]);
    assert(seq![runtime, taken].drop_last() =~= seq![runtime]);
    assert(seq![runtime, mounted, agreed].drop_last() =~= seq![runtime, mounted]);
    assert(seq![runtime, mounted].drop_last() =~= seq![runtime]);
    assert(seq![runtime].drop_last() =~= seq![]);
}

} // verus!
