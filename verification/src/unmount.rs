//! Taking a filesystem down: the steps of an unmount, what becomes of a mount whose unmount failed,
//! and how often it is tried again.
use vstd::prelude::*;

use crate::errno::Errnos;
use crate::error::{os_error, Error, ErrorKind, ErrorView};
use crate::platform::Platform;

verus! {

/// An option of an unmount.
#[derive(Clone, Copy, Debug, PartialEq, Eq, Structural)]
pub enum UnmountOption {
    /// Take the filesystem out of the tree now, and let it go when nobody uses it.
    Detach,
    /// Unmount a filesystem that is in use.
    Force,
}

/// The options of an unmount that is a fallback.
pub open spec fn fallback_options(platform: Platform) -> Seq<UnmountOption> {
    match platform {
        Platform::Linux => seq![UnmountOption::Detach],
        Platform::MacOs => seq![UnmountOption::Force],
        Platform::Other => seq![],
    }
}

/// As a fallback, a filesystem is detached on Linux alone and forced down on macOS alone, and there
/// is never another option.
pub proof fn lemma_fallback_takes_one_option_at_most(platform: Platform, i: int)
    ensures
        platform == Platform::Other <==> fallback_options(platform).len() == 0,
        fallback_options(platform).len() <= 1,
        0 <= i < fallback_options(platform).len() ==> {
            &&& fallback_options(platform)[i] == UnmountOption::Detach <==> platform
                == Platform::Linux
            &&& fallback_options(platform)[i] == UnmountOption::Force <==> platform
                == Platform::MacOs
        },
{
}

/// Default unmount options for a platform, used as a fallback when a filesystem is dropped without
/// having been unmounted.
pub fn drop_umount_flags(platform: Platform) -> (flags: Vec<UnmountOption>)
    ensures
        flags@ == (match platform {
            Platform::Linux => seq![UnmountOption::Detach],
            Platform::MacOs => seq![UnmountOption::Force],
            Platform::Other => Seq::<UnmountOption>::empty(),
        }),
        flags@ == fallback_options(platform),
{
    let mut flags: Vec<UnmountOption> = Vec::new();
    match platform {
        Platform::Linux => {
            flags.push(UnmountOption::Detach);
        },
        Platform::MacOs => {
            flags.push(UnmountOption::Force);
        },
        Platform::Other => {},
    }
    flags
}

/// The options of an unmount that leaves a session running until nobody uses its filesystem.
pub fn detach_umount_flags() -> (flags: Vec<UnmountOption>)
    ensures
        flags@ == seq![UnmountOption::Detach],
{
    let mut flags: Vec<UnmountOption> = Vec::new();
    flags.push(UnmountOption::Detach);
    flags
}

/// The event of a poll that says that the device has an error condition (`POLLERR`,
/// which is the same on Linux, macOS and the BSDs).
pub const POLLERR: i16 = 8;

/// What a poll of the device says.
#[derive(Clone, Copy, Debug, PartialEq, Eq, Structural)]
pub enum PollVerdict {
    /// Whether the filesystem is mounted.
    Mounted(bool),
    /// Nothing: the poll was interrupted, and has to be made again.
    Retry,
}

/// What a poll of the device for no event in particular says.
pub open spec fn poll_verdict(polled: Result<i32, i32>, events: Option<i16>) -> PollVerdict {
    match polled {
        Ok(count) => PollVerdict::Mounted(
            count == 0 || (events matches Some(bits) && bits & POLLERR == POLLERR),
        ),
        Err(_) => PollVerdict::Retry,
    }
}

/// Decides whether a filesystem is mounted, from a poll of its device for no event in particular:
/// the number of descriptors with events, or the error code, and the events of the device as far
/// as they are known. It is mounted if nothing happened, or an error condition did.
pub fn is_mounted(errnos: Errnos, polled: Result<i32, i32>, events: Option<i16>) -> (verdict:
    PollVerdict)
    requires
        polled == Ok::<i32, i32>(0) || polled == Ok::<i32, i32>(1) || polled == Err::<i32, i32>(
            errnos.eintr,
        ),
    ensures
        verdict == (match polled {
            Ok(count) => PollVerdict::Mounted(
                count == 0 || (events matches Some(bits) && bits & POLLERR == POLLERR),
            ),
            Err(_) => PollVerdict::Retry,
        }),
        verdict == poll_verdict(polled, events),
{
    match polled {
        Ok(count) => {
            if count == 0 {
                PollVerdict::Mounted(true)
            } else {
                match events {
                    Some(bits) => PollVerdict::Mounted(bits & POLLERR == POLLERR),
                    None => PollVerdict::Mounted(false),
                }
            }
        },
        Err(_) => PollVerdict::Retry,
    }
}

/// What an unmount waits for.
#[derive(Clone, Copy, Debug, PartialEq, Eq, Structural)]
pub enum UnmountPhase {
    /// No unmount is under way.
    Idle,
    /// Whether the filesystem is mounted at all.
    FirstProbe,
    /// The system call.
    SystemCall,
    /// Whether the filesystem is still mounted after the system call failed.
    ProbeAfterCall,
    /// The helper.
    Helper,
    /// Whether the filesystem is still mounted after the helper failed.
    ProbeAfterHelper,
}

/// What an unmount needs done next.
#[derive(Debug)]
pub enum UnmountAction {
    /// Nothing: it is over.
    Done(Result<(), Error>),
    /// Find out whether the filesystem is mounted.
    Probe,
    /// Make the system call.
    CallUnmount,
    /// Run the helper.
    RunHelper,
}

/// An [`UnmountAction`] as specifications see it.
pub enum UnmountActionView {
    Done(Result<(), ErrorView>),
    Probe,
    CallUnmount,
    RunHelper,
}

/// A result as specifications see it.
pub open spec fn result_view(result: Result<(), Error>) -> Result<(), ErrorView> {
    match result {
        Ok(()) => Ok(()),
        Err(error) => Err(error@),
    }
}

impl View for UnmountAction {
    type V = UnmountActionView;

    open spec fn view(&self) -> UnmountActionView {
        match self {
            UnmountAction::Done(result) => UnmountActionView::Done(result_view(*result)),
            UnmountAction::Probe => UnmountActionView::Probe,
            UnmountAction::CallUnmount => UnmountActionView::CallUnmount,
            UnmountAction::RunHelper => UnmountActionView::RunHelper,
        }
    }
}

/// A mounted filesystem, with what it takes to unmount it. `state` is given up as soon as the
/// filesystem is known to be unmounted: to unmount it a second time could hit another filesystem
/// that has been mounted in the same place since.
#[derive(Debug)]
pub struct MountImpl<S> {
    /// The mount, as long as it may be there.
    pub state: Option<S>,
    /// What an unmount that is under way waits for.
    pub phase: UnmountPhase,
    /// The error that it will end with, unless the next step succeeds.
    pub pending: Option<Error>,
}

/// How far an unmount has come: whether the mount is still held, what is waited for, and the
/// error that is pending.
pub struct UnmountProgress {
    pub held: bool,
    pub phase: UnmountPhase,
    pub pending: Option<ErrorView>,
}

impl<S> View for MountImpl<S> {
    type V = UnmountProgress;

    open spec fn view(&self) -> UnmountProgress {
        UnmountProgress {
            held: self.state is Some,
            phase: self.phase,
            pending: match self.pending {
                Some(error) => Some(error@),
                None => None,
            },
        }
    }
}

/// The progress of an unmount that is over.
pub open spec fn at_rest(held: bool) -> UnmountProgress {
    UnmountProgress { held, phase: UnmountPhase::Idle, pending: None }
}

impl UnmountProgress {
    /// An unmount that is under way holds the mount, and an error is pending exactly while the
    /// filesystem is probed after a failure.
    pub open spec fn wf(self) -> bool {
        &&& self.phase != UnmountPhase::Idle ==> self.held
        &&& self.pending is Some <==> (self.phase == UnmountPhase::ProbeAfterCall || self.phase
            == UnmountPhase::ProbeAfterHelper)
    }

    /// The first step: nothing, if there is no mount.
    pub open spec fn start(self) -> (UnmountProgress, UnmountActionView) {
        if self.held {
            (
                UnmountProgress { phase: UnmountPhase::FirstProbe, ..self },
                UnmountActionView::Probe,
            )
        } else {
            (self, UnmountActionView::Done(Ok(())))
        }
    }

    /// The step after a probe. A filesystem that is gone is let go, with the error that is pending
    /// if there is one. One that is there is unmounted; by the helper, if the system call was not
    /// permitted.
    pub open spec fn after_probe(self, errnos: Errnos, mounted: bool) -> (
        UnmountProgress,
        UnmountActionView,
    ) {
        let pending = match self.pending {
            Some(error) => Err(error),
            None => Ok(()),
        };
        if !mounted {
            (at_rest(false), UnmountActionView::Done(pending))
        } else if self.phase == UnmountPhase::FirstProbe {
            (
                UnmountProgress { phase: UnmountPhase::SystemCall, ..self },
                UnmountActionView::CallUnmount,
            )
        } else if self.phase == UnmountPhase::ProbeAfterCall && self.pending->0.os == Some(
            errnos.eperm,
        ) {
            (
                UnmountProgress { held: true, phase: UnmountPhase::Helper, pending: None },
                UnmountActionView::RunHelper,
            )
        } else {
            (at_rest(true), UnmountActionView::Done(pending))
        }
    }

    /// The step after the system call.
    pub open spec fn after_call(self, result: Result<(), i32>) -> (
        UnmountProgress,
        UnmountActionView,
    ) {
        match result {
            Ok(()) => (at_rest(false), UnmountActionView::Done(Ok(()))),
            Err(code) => (
                UnmountProgress {
                    held: true,
                    phase: UnmountPhase::ProbeAfterCall,
                    pending: Some(os_error(code)),
                },
                UnmountActionView::Probe,
            ),
        }
    }

    /// The step after the helper.
    pub open spec fn after_helper(self, result: Result<(), ErrorView>) -> (
        UnmountProgress,
        UnmountActionView,
    ) {
        match result {
            Ok(()) => (at_rest(false), UnmountActionView::Done(Ok(()))),
            Err(error) => (
                UnmountProgress {
                    held: true,
                    phase: UnmountPhase::ProbeAfterHelper,
                    pending: Some(error),
                },
                UnmountActionView::Probe,
            ),
        }
    }
}

impl<S> MountImpl<S> {
    /// Whether the mount is as a step from `before` leaves it: untouched, or given up.
    pub open spec fn keeps_or_drops(self, before: MountImpl<S>) -> bool {
        self.state is Some ==> self.state == before.state
    }

    /// Holds a mount.
    pub fn new(state: S) -> (mount: MountImpl<S>)
        ensures
            mount.state == Some(state),
            mount@ == at_rest(true),
            mount@.wf(),
    {
        MountImpl { state: Some(state), phase: UnmountPhase::Idle, pending: None }
    }

    /// Whether the filesystem is there, where `mounted` is what a probe of it says. A mount that
    /// has been given up needs no probe.
    pub fn is_alive(&self, mounted: bool) -> (alive: bool)
        ensures
            alive == (self.state is Some && mounted),
    {
        self.state.is_some() && mounted
    }

    /// Gives up an unmount that was left on its way, so that another can start. The mount stays as
    /// it is.
    pub fn restart(&mut self)
        ensures
            final(self)@ == at_rest(old(self).state is Some),
            final(self)@.wf(),
            final(self).state == old(self).state,
    {
        self.phase = UnmountPhase::Idle;
        self.pending = None;
    }

    /// Starts an unmount.
    pub fn start(&mut self) -> (action: UnmountAction)
        requires
            old(self)@.wf(),
            old(self).phase == UnmountPhase::Idle,
        ensures
            (final(self)@, action@) == old(self)@.start(),
            final(self)@.wf(),
            final(self).keeps_or_drops(*old(self)),
    {
        if self.state.is_none() {
            return UnmountAction::Done(Ok(()));
        }
        self.phase = UnmountPhase::FirstProbe;
        UnmountAction::Probe
    }

    /// Takes the result of a probe.
    pub fn on_probe(&mut self, errnos: Errnos, mounted: bool) -> (action: UnmountAction)
        requires
            old(self)@.wf(),
            old(self).phase == UnmountPhase::FirstProbe || old(self).phase
                == UnmountPhase::ProbeAfterCall || old(self).phase
                == UnmountPhase::ProbeAfterHelper,
        ensures
            (final(self)@, action@) == old(self)@.after_probe(errnos, mounted),
            final(self)@.wf(),
            final(self).keeps_or_drops(*old(self)),
    {
        let phase = self.phase;
        self.phase = UnmountPhase::Idle;
        let pending = self.pending.take();
        if !mounted {
            self.state = None;
            return match pending {
                Some(error) => UnmountAction::Done(Err(error)),
                None => UnmountAction::Done(Ok(())),
            };
        }
        match pending {
            None => {
                self.phase = UnmountPhase::SystemCall;
                UnmountAction::CallUnmount
            },
            Some(error) => {
                let not_permitted = match error.raw_os_error() {
                    Some(code) => code == errnos.eperm,
                    None => false,
                };
                if phase == UnmountPhase::ProbeAfterCall && not_permitted {
                    self.phase = UnmountPhase::Helper;
                    UnmountAction::RunHelper
                } else {
                    UnmountAction::Done(Err(error))
                }
            },
        }
    }

    /// Takes the result of the system call: the error code, if it failed.
    pub fn on_call(&mut self, result: Result<(), i32>) -> (action: UnmountAction)
        requires
            old(self)@.wf(),
            old(self).phase == UnmountPhase::SystemCall,
        ensures
            (final(self)@, action@) == old(self)@.after_call(result),
            final(self)@.wf(),
            final(self).keeps_or_drops(*old(self)),
    {
        match result {
            Ok(()) => {
                self.phase = UnmountPhase::Idle;
                self.state = None;
                UnmountAction::Done(Ok(()))
            },
            Err(code) => {
                self.phase = UnmountPhase::ProbeAfterCall;
                self.pending = Some(Error::from_raw_os_error(code));
                UnmountAction::Probe
            },
        }
    }

    /// Takes the result of the helper.
    pub fn on_helper(&mut self, result: Result<(), Error>) -> (action: UnmountAction)
        requires
            old(self)@.wf(),
            old(self).phase == UnmountPhase::Helper,
        ensures
            (final(self)@, action@) == old(self)@.after_helper(result_view(result)),
            final(self)@.wf(),
            final(self).keeps_or_drops(*old(self)),
    {
        match result {
            Ok(()) => {
                self.phase = UnmountPhase::Idle;
                self.state = None;
                UnmountAction::Done(Ok(()))
            },
            Err(error) => {
                self.phase = UnmountPhase::ProbeAfterHelper;
                self.pending = Some(error);
                UnmountAction::Probe
            },
        }
    }
}

/// What the world answers to an unmount, as far as it is asked.
pub struct UnmountAnswers {
    pub mounted_at_first: bool,
    pub call: Result<(), i32>,
    pub mounted_after_call: bool,
    pub helper: Result<(), ErrorView>,
    pub mounted_after_helper: bool,
}

/// What is waited for, answered.
pub open spec fn answered(
    errnos: Errnos,
    progress: UnmountProgress,
    answers: UnmountAnswers,
) -> (UnmountProgress, UnmountActionView) {
    match progress.phase {
        UnmountPhase::Idle => progress.start(),
        UnmountPhase::FirstProbe => progress.after_probe(errnos, answers.mounted_at_first),
        UnmountPhase::SystemCall => progress.after_call(answers.call),
        UnmountPhase::ProbeAfterCall => progress.after_probe(errnos, answers.mounted_after_call),
        UnmountPhase::Helper => progress.after_helper(answers.helper),
        UnmountPhase::ProbeAfterHelper => progress.after_probe(errnos, answers.mounted_after_helper),
    }
}

/// Where an unmount stands after a number of steps, or where it stood when it was over.
pub open spec fn unmount_steps(
    errnos: Errnos,
    progress: UnmountProgress,
    answers: UnmountAnswers,
    steps: nat,
) -> (UnmountProgress, UnmountActionView)
    decreases steps,
{
    let (next, action) = answered(errnos, progress, answers);
    if action is Done || steps <= 1 {
        (next, action)
    } else {
        unmount_steps(errnos, next, answers, (steps - 1) as nat)
    }
}

/// What a whole unmount of a filesystem comes to: whether the mount is still held, and the result.
pub open spec fn unmount_outcome(errnos: Errnos, answers: UnmountAnswers) -> (
    bool,
    Result<(), ErrorView>,
) {
    if !answers.mounted_at_first {
        (false, Ok(()))
    } else {
        match answers.call {
            Ok(()) => (false, Ok(())),
            Err(code) => if answers.mounted_after_call && code == errnos.eperm {
                match answers.helper {
                    Ok(()) => (false, Ok(())),
                    Err(error) => (answers.mounted_after_helper, Err(error)),
                }
            } else {
                (answers.mounted_after_call, Err(os_error(code)))
            },
        }
    }
}

/// An unmount is over after six steps at most, and comes to [`unmount_outcome`].
pub proof fn lemma_unmount_runs_to_its_outcome(errnos: Errnos, answers: UnmountAnswers)
    ensures
        unmount_steps(errnos, at_rest(true), answers, 6) == (
            at_rest(unmount_outcome(errnos, answers).0),
            UnmountActionView::Done(unmount_outcome(errnos, answers).1),
        ),
{
    reveal_with_fuel(unmount_steps, 7);
}

/// An unmount that succeeds gives the mount up, so that it is not unmounted twice; a mount that is
/// still held was seen mounted by the last probe, and its unmount failed.
pub proof fn lemma_mount_is_held_only_while_mounted(errnos: Errnos, answers: UnmountAnswers)
    ensures
        unmount_outcome(errnos, answers).1 is Ok ==> !unmount_outcome(errnos, answers).0,
        unmount_outcome(errnos, answers).0 ==> unmount_outcome(errnos, answers).1 is Err
            && answers.mounted_at_first && answers.mounted_after_call && (answers.call == Err::<
            (),
            i32,
        >(errnos.eperm) ==> answers.mounted_after_helper),
{
}

/// A mount that has been given up is not unmounted again: the unmount succeeds without a step.
pub proof fn lemma_second_unmount_does_nothing(errnos: Errnos, answers: UnmountAnswers)
    ensures
        unmount_steps(errnos, at_rest(false), answers, 6) == (
            at_rest(false),
            UnmountActionView::Done(Ok(())),
        ),
{
}

/// What a filesystem that is dropped without having been unmounted does after an attempt.
#[derive(Debug)]
pub enum DropStep {
    /// Nothing more.
    Finish,
    /// Try again after so many milliseconds, if the mount is still held.
    RetryAfter { millis: u64 },
    /// Report the error, and leave the mount as it is.
    GiveUp { error: Error },
}

/// How many milliseconds a filesystem that is dropped waits after an attempt to unmount it that
/// failed with an error of some category, if it tries again at all.
pub open spec fn retry_delay(kind: ErrorKind) -> Option<u64> {
    match kind {
        ErrorKind::ResourceBusy => Some(1000),
        ErrorKind::WouldBlock => Some(10),
        _ => None,
    }
}

/// Decides what a filesystem that is dropped does after an attempt to unmount it: a busy one is
/// waited for.
pub fn drop_step(result: Result<(), Error>) -> (step: DropStep)
    ensures
        match result {
            Ok(()) => step == DropStep::Finish,
            Err(error) => step == (match error.kind {
                ErrorKind::ResourceBusy => DropStep::RetryAfter { millis: 1000 },
                ErrorKind::WouldBlock => DropStep::RetryAfter { millis: 10 },
                _ => DropStep::GiveUp { error },
            }),
        },
        result matches Err(error) ==> match retry_delay(error.kind) {
            Some(millis) => step == DropStep::RetryAfter { millis },
            None => step == DropStep::GiveUp { error },
        },
{
    match result {
        Ok(()) => DropStep::Finish,
        Err(error) => match error.kind() {
            ErrorKind::ResourceBusy => DropStep::RetryAfter { millis: 1000 },
            ErrorKind::WouldBlock => DropStep::RetryAfter { millis: 10 },
            _ => DropStep::GiveUp { error },
        },
    }
}

/// Whether a mount may still be used after its unmount failed with an error. The category decides
/// where it is one of those; then the code of the operating system does.
pub open spec fn is_salvageable(errnos: Errnos, error: ErrorView) -> bool {
    match error.kind {
        ErrorKind::ResourceBusy | ErrorKind::WouldBlock | ErrorKind::PermissionDenied
        | ErrorKind::OutOfMemory => true,
        ErrorKind::InvalidInput | ErrorKind::NotFound => false,
        _ => match error.os {
            Some(code) => {
                ||| code == errnos.ebusy
                ||| code == errnos.eagain
                ||| (code == errnos.enoent || code == errnos.enomem || code == errnos.eperm) && code
                    != errnos.efault && code != errnos.einval && code != errnos.enametoolong
            },
            None => false,
        },
    }
}

/// Determines whether a mount can be salvaged after an error.
pub fn is_mount_salvageable(errnos: Errnos, error: &Error) -> (salvageable: bool)
    ensures
        salvageable == is_salvageable(errnos, error@),
{
    match error.kind() {
        ErrorKind::ResourceBusy => {
            return true;
        },
        ErrorKind::WouldBlock => {
            return true;
        },
        ErrorKind::InvalidInput => {
            return false;
        },
        ErrorKind::PermissionDenied => {
            return true;
        },
        ErrorKind::NotFound => {
            return false;
        },
        ErrorKind::OutOfMemory => {
            return true;
        },
        _ => {},
    }
    match error.raw_os_error() {
        Some(code) => {
            if code == errnos.ebusy || code == errnos.eagain {
                true
            } else if code == errnos.efault || code == errnos.einval || code
                == errnos.enametoolong {
                false
            } else {
                code == errnos.enoent || code == errnos.enomem || code == errnos.eperm
            }
        },
        None => false,
    }
}

/// A mount, as a session holds it.
#[derive(Debug)]
pub struct Mount<I> {
    /// What unmounts it, as long as there is something to unmount.
    pub mount_impl: Option<I>,
    /// Where it is mounted.
    pub mount_point: Vec<u8>,
}

/// How an unmount goes on.
#[derive(Debug)]
pub enum UmountStart<I> {
    /// It is over.
    Done(Result<(), (Option<Mount<I>>, Error)>),
    /// Unmount this.
    Proceed(Mount<I>),
}

/// What an unmount comes to, from the result of its steps and whether the filesystem is still
/// there: the mount comes back if its unmount failed with an error that it can survive and the
/// filesystem is there.
pub open spec fn umount_end<I>(
    errnos: Errnos,
    mount: Mount<I>,
    result: Result<(), Error>,
    alive: bool,
) -> Result<(), (Option<Mount<I>>, Error)> {
    match result {
        Ok(()) => Ok(()),
        Err(error) => if is_salvageable(errnos, error@) && alive {
            Err((Some(mount), error))
        } else {
            Err((None, error))
        },
    }
}

impl<I> Mount<I> {
    /// How an unmount goes on, given whether its options contradict each other. Where they do, the
    /// mount comes back as it was. Without anything to unmount, the options do not matter.
    pub open spec fn umount_started(self, options: Result<(), Error>) -> UmountStart<I> {
        match self.mount_impl {
            None => UmountStart::Done(Ok(())),
            Some(_) => match options {
                Err(error) => UmountStart::Done(Err((Some(self), error))),
                Ok(()) => UmountStart::Proceed(self),
            },
        }
    }

    /// Starts an unmount, given whether its options contradict each other.
    pub fn start_umount(self, options: Result<(), Error>) -> (start: UmountStart<I>)
        ensures
            start == self.umount_started(options),
    {
        if self.mount_impl.is_none() {
            return UmountStart::Done(Ok(()));
        }
        match options {
            Ok(()) => UmountStart::Proceed(self),
            Err(error) => UmountStart::Done(Err((Some(self), error))),
        }
    }

    /// Ends an unmount. `alive` says whether the filesystem is still there; it matters only if the
    /// unmount failed with an error that the mount can survive.
    pub fn finish_umount(self, errnos: Errnos, result: Result<(), Error>, alive: bool) -> (outcome:
        Result<(), (Option<Mount<I>>, Error)>)
        ensures
            outcome == umount_end(errnos, self, result, alive),
    {
        match result {
            Ok(()) => Ok(()),
            Err(error) => {
                if is_mount_salvageable(errnos, &error) && alive {
                    Err((Some(self), error))
                } else {
                    Err((None, error))
                }
            },
        }
    }
}

/// The mount of a session, shared by the session, by what runs it in the background and by those
/// who may unmount it. It is empty for a filesystem that somebody else mounted, while the filesystem
/// is being unmounted, and once it is unmounted or its unmount failed for good.
#[derive(Debug)]
pub struct MountSlot<M> {
    pub mount: Option<M>,
}

/// How an unmount of what a slot holds goes on.
#[derive(Debug)]
pub enum SlotStart<M> {
    /// It is over.
    Done(Result<(), Error>),
    /// Unmount this.
    Proceed(M),
}

impl<M> MountSlot<M> {
    /// The slot without its mount, and how an unmount goes on: there is nothing to do where there is
    /// no mount.
    pub open spec fn started(self) -> (MountSlot<M>, SlotStart<M>) {
        (
            MountSlot { mount: None },
            match self.mount {
                Some(mount) => SlotStart::Proceed(mount),
                None => SlotStart::Done(Ok(())),
            },
        )
    }

    /// The slot and the result after an unmount of what was taken out.
    pub open spec fn settled(self, outcome: Result<(), (Option<M>, Error)>) -> (
        MountSlot<M>,
        Result<(), Error>,
    ) {
        match outcome {
            Ok(()) => (self, Ok(())),
            Err((mount, error)) => (MountSlot { mount }, Err(error)),
        }
    }

    /// A slot with a mount, or an empty one for a filesystem that somebody else mounted.
    pub fn new(mount: Option<M>) -> (slot: MountSlot<M>)
        ensures
            slot.mount == mount,
    {
        MountSlot { mount }
    }

    /// Takes the mount out, to drop it.
    pub fn take(&mut self) -> (mount: Option<M>)
        ensures
            mount == old(self).mount,
            final(self).mount is None,
    {
        self.mount.take()
    }

    /// Starts an unmount.
    pub fn start_umount(&mut self) -> (start: SlotStart<M>)
        ensures
            (*final(self), start) == old(self).started(),
    {
        match self.mount.take() {
            Some(mount) => SlotStart::Proceed(mount),
            None => SlotStart::Done(Ok(())),
        }
    }

    /// Ends an unmount of what was taken out: a mount that survived it goes back.
    pub fn settle(&mut self, outcome: Result<(), (Option<M>, Error)>) -> (result: Result<(), Error>)
        ensures
            (*final(self), result) == old(self).settled(outcome),
    {
        match outcome {
            Ok(()) => Ok(()),
            Err((mount, error)) => {
                self.mount = mount;
                Err(error)
            },
        }
    }
}

/// After an unmount, the session has its mount back exactly if the unmount failed, with an error
/// that the mount can survive, and the filesystem is still there; the caller gets the error.
pub proof fn lemma_failed_unmount_can_be_tried_again<I>(
    errnos: Errnos,
    mount: Mount<I>,
    result: Result<(), Error>,
    alive: bool,
)
    ensures
        ({
            let empty = MountSlot::<Mount<I>> { mount: None };
            let (slot, reported) = empty.settled(umount_end(errnos, mount, result, alive));
            &&& slot.mount is Some ==> slot.mount == Some(mount)
            &&& slot.mount is Some <==> (result matches Err(error) && is_salvageable(errnos, error@)
                && alive)
            &&& result_view(reported) == result_view(result)
        }),
{
}

/// Whether the filesystem is no longer mounted, by the last answer to an unmount: it was gone
/// already, or the system call or the helper took it down, or a probe after a failure found it gone.
pub open spec fn is_gone(errnos: Errnos, answers: UnmountAnswers) -> bool {
    !answers.mounted_at_first || match answers.call {
        Ok(()) => true,
        Err(code) => if answers.mounted_after_call && code == errnos.eperm {
            answers.helper is Ok || !answers.mounted_after_helper
        } else {
            !answers.mounted_after_call
        },
    }
}

/// Whoever unmounts a filesystem through the slot that holds its mount starts an unmount of that
/// mount, and is told that it succeeded only if the filesystem is no longer mounted; and then the
/// slot is empty, and another unmount succeeds without a step.
pub proof fn lemma_reported_unmount_took_place<I>(
    errnos: Errnos,
    slot: MountSlot<Mount<I>>,
    answers: UnmountAnswers,
    result: Result<(), Error>,
    alive: bool,
)
    requires
        slot.mount matches Some(mount) && mount.mount_impl is Some,
        result_view(result) == unmount_outcome(errnos, answers).1,
    ensures
        ({
            let mount = slot.mount->0;
            let (taken, start) = slot.started();
            let (left, reported) = taken.settled(umount_end(errnos, mount, result, alive));
            &&& start == SlotStart::Proceed(mount)
            &&& mount.umount_started(Ok(())) == UmountStart::Proceed(mount)
            &&& reported is Ok ==> is_gone(errnos, answers)
            &&& reported is Ok ==> left.mount is None && left.started().1 == SlotStart::<
                Mount<I>,
            >::Done(Ok(()))
        }),
{
}

/// What a whole unmount comes to, by what the world answers. A filesystem that is gone already is
/// let go; the system call takes down one that is there; only if that call is not permitted, and the
/// filesystem is still there, does the helper decide; and after a failure the mount is held exactly
/// if the last probe found the filesystem there.
pub proof fn lemma_unmount_follows_the_answers(errnos: Errnos, answers: UnmountAnswers)
    ensures
        ({
            let (end, action) = unmount_steps(errnos, at_rest(true), answers, 6);
            &&& end.phase == UnmountPhase::Idle && end.pending is None
            &&& !answers.mounted_at_first || answers.call is Ok ==> !end.held && action
                == UnmountActionView::Done(Ok(()))
            &&& answers.mounted_at_first ==> (answers.call matches Err(code) ==> {
                &&& code != errnos.eperm || !answers.mounted_after_call ==> end.held
                    == answers.mounted_after_call && (
                action matches UnmountActionView::Done(Err(error)) && error.os == Some(code)
                    && error == os_error(code))
                &&& code == errnos.eperm && answers.mounted_after_call && answers.helper is Ok
                    ==> !end.held && action == UnmountActionView::Done(Ok(()))
                &&& code == errnos.eperm && answers.mounted_after_call && answers.helper is Err
                    ==> end.held == answers.mounted_after_helper && action
                    == UnmountActionView::Done(answers.helper)
            })
        }),
{
    reveal_with_fuel(unmount_steps, 7);
}

/// The system call and the helper are asked only about a filesystem that has just been seen, the
/// call once and before the helper, and the helper only after the call was not permitted. Whatever
/// is done without either leaves the mount or lets go of one that is gone.
pub proof fn lemma_nothing_unmounts_without_a_probe(
    errnos: Errnos,
    progress: UnmountProgress,
    answers: UnmountAnswers,
)
    requires
        progress.wf(),
    ensures
        ({
            let (next, action) = answered(errnos, progress, answers);
            &&& next.wf()
            &&& action is CallUnmount <==> progress.phase == UnmountPhase::FirstProbe
                && answers.mounted_at_first
            &&& action is RunHelper <==> progress.phase == UnmountPhase::ProbeAfterCall
                && answers.mounted_after_call && (progress.pending matches Some(error)
                && error.os == Some(errnos.eperm))
            &&& action is Done <==> next.phase == UnmountPhase::Idle
            &&& action is CallUnmount <==> next.phase == UnmountPhase::SystemCall
            &&& action is RunHelper <==> next.phase == UnmountPhase::Helper
            &&& next.held ==> progress.held
            &&& progress.held && !next.held ==> action is Done
        }),
{
}

/// A filesystem counts as unmounted only if a poll of its device reports an event, and the bit of
/// the error condition, the fourth from the right, is not among those of the device.
pub proof fn lemma_poll_is_read_by_its_error_bit(polled: Result<i32, i32>, events: Option<i16>)
    ensures
        polled is Err <==> poll_verdict(polled, events) == PollVerdict::Retry,
        polled == Ok::<i32, i32>(0) ==> poll_verdict(polled, events) == PollVerdict::Mounted(true),
        polled matches Ok(count) && count != 0 && events is None ==> poll_verdict(polled, events)
            == PollVerdict::Mounted(false),
        (polled matches Ok(count) && count != 0) && events is Some ==> poll_verdict(polled, events)
            == PollVerdict::Mounted((events->0 >> 3) & 1 == 1),
{
    if let Some(bits) = events {
        assert(bits & 8 == 8 <==> (bits >> 3) & 1 == 1) by (bit_vector);
    }
}

/// A filesystem that is dropped tries again only after an error that its mount can survive: after a
/// second if it is in use, after a hundredth of that if the operation would have to wait.
pub proof fn lemma_only_a_mount_in_use_is_waited_for(errnos: Errnos, error: ErrorView)
    ensures
        retry_delay(error.kind) is Some ==> is_salvageable(errnos, error),
        retry_delay(error.kind) is Some <==> error.kind == ErrorKind::ResourceBusy || error.kind
            == ErrorKind::WouldBlock,
        error.kind == ErrorKind::ResourceBusy ==> retry_delay(error.kind) == Some(1000u64),
        error.kind == ErrorKind::WouldBlock ==> retry_delay(error.kind) == Some(10u64),
{
}

/// Which errors a mount survives: by their category, if it tells, whatever the code; else by the
/// code, for an error of the operating system that has one.
pub proof fn lemma_errors_that_a_mount_survives(errnos: Errnos, error: ErrorView)
    ensures
        error.kind == ErrorKind::ResourceBusy || error.kind == ErrorKind::WouldBlock || error.kind
            == ErrorKind::PermissionDenied || error.kind == ErrorKind::OutOfMemory
            ==> is_salvageable(errnos, error),
        error.kind == ErrorKind::InvalidInput || error.kind == ErrorKind::NotFound
            ==> !is_salvageable(errnos, error),
        error.kind == ErrorKind::Other || error.kind is Unlisted || error.kind
            == ErrorKind::NotConnected || error.kind == ErrorKind::InvalidData || error.kind
            == ErrorKind::UnexpectedEof || error.kind == ErrorKind::Unsupported ==> {
            &&& error.os is None ==> !is_salvageable(errnos, error)
            &&& error.os == Some(errnos.ebusy) || error.os == Some(errnos.eagain)
                ==> is_salvageable(errnos, error)
            &&& is_salvageable(errnos, error) ==> error.os == Some(errnos.ebusy) || error.os
                == Some(errnos.eagain) || error.os == Some(errnos.enoent) || error.os == Some(
                errnos.enomem,
            ) || error.os == Some(errnos.eperm)
            &&& (error.os == Some(errnos.enoent) || error.os == Some(errnos.enomem) || error.os
                == Some(errnos.eperm)) && error.os != Some(errnos.efault) && error.os != Some(
                errnos.einval,
            ) && error.os != Some(errnos.enametoolong) ==> is_salvageable(errnos, error)
            &&& error.os == Some(errnos.efault) || error.os == Some(errnos.einval) || error.os
                == Some(errnos.enametoolong) ==> (is_salvageable(errnos, error) ==> error.os
                == Some(errnos.ebusy) || error.os == Some(errnos.eagain))
        },
{
}

/// An unmount whose options contradict each other changes nothing: the mount goes back to the slot
/// that it was taken from, and whoever asked gets the error. Without anything to unmount, the unmount
/// succeeds, whatever the options are, and the slot is left empty.
pub proof fn lemma_refused_unmount_changes_nothing<I>(
    slot: MountSlot<Mount<I>>,
    mount: Mount<I>,
    error: Error,
    options: Result<(), Error>,
)
    requires
        slot.mount == Some(mount),
    ensures
        slot.started().1 == SlotStart::Proceed(mount),
        slot.started().0.mount is None,
        mount.mount_impl is Some ==> mount.umount_started(Ok(())) == UmountStart::Proceed(mount),
        mount.mount_impl is Some ==> {
            &&& mount.umount_started(Err(error)) matches UmountStart::Done(outcome)
            &&& slot.started().0.settled(outcome) == (slot, Err::<(), Error>(error))
        },
        mount.mount_impl is None ==> {
            &&& mount.umount_started(options) matches UmountStart::Done(outcome)
            &&& slot.started().0.settled(outcome) == (
                MountSlot::<Mount<I>> { mount: None },
                Ok::<(), Error>(()),
            )
        },
{
}

/// What an unmount leaves goes into the slot: nothing changes if it succeeded, and after a failure
/// the slot holds what came back, and the error is reported.
pub proof fn lemma_slot_takes_back_what_is_left<M>(
    slot: MountSlot<M>,
    left: Option<M>,
    error: Error,
)
    ensures
        slot.settled(Ok(())) == (slot, Ok::<(), Error>(())),
        slot.settled(Err((left, error))).0.mount == left,
        slot.settled(Err((left, error))).1 == Err::<(), Error>(error),
        slot.mount is None ==> slot.started().1 == SlotStart::<M>::Done(Ok(())),
{
}

} // verus!
