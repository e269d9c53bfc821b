//! The event loops of a session: what each of them does with what it receives, how many there are,
//! and what their ends amount to.
use vstd::pervasive::unreached;
use vstd::prelude::*;

use crate::acl::SessionACL;
use crate::channel::{resolves_to, Waited};
use crate::dispatch::{dispatch, dispatch_action, DispatchAction};
use crate::errno::Errnos;
use crate::error::{raised, Error, ErrorKind, ErrorView};
use crate::operation::{AnyRequest, Operation};
use crate::platform::Platform;
use crate::runtime::WorkerCount;
use crate::text::{decimal, lemma_decimal_is_injective, write_unsigned};
use crate::unmount::result_view;

verus! {

/// What an event loop makes of an attempt to receive a request.
#[derive(Debug)]
pub enum Reception {
    /// A request of so many bytes.
    Request { size: usize },
    /// The session is over.
    Stop,
    /// The loop ends with an error.
    Fail { error: Error },
}

/// What an attempt to receive a request means. The end of the session and a device that has gone
/// away end the loop in good order.
pub open spec fn reception_of(errnos: Errnos, result: Result<usize, Error>) -> Reception {
    match result {
        Ok(size) => Reception::Request { size },
        Err(error) => if error.os == Some(errnos.ecanceled) || error.os == Some(errnos.enodev) {
            Reception::Stop
        } else {
            Reception::Fail { error }
        },
    }
}

/// Decides what an attempt to receive a request means.
pub fn received(errnos: Errnos, result: Result<usize, Error>) -> (reception: Reception)
    ensures
        reception == reception_of(errnos, result),
{
    match result {
        Ok(size) => Reception::Request { size },
        Err(error) => {
            let over = match error.raw_os_error() {
                Some(code) => code == errnos.ecanceled || code == errnos.enodev,
                None => false,
            };
            if over {
                Reception::Stop
            } else {
                Reception::Fail { error }
            }
        },
    }
}

/// What an event loop does with a request.
#[derive(Debug)]
pub enum LoopStep {
    /// Hand it on or answer it, and go on.
    Dispatch(DispatchAction),
    /// Answer that all is well, and end the loop in good order.
    ReplyOkAndStop { unique: u64 },
    /// End the loop with an error.
    Fail { error: Error },
}

/// What an event loop does with a request that it could decode.
pub open spec fn step_for(
    errnos: Errnos,
    acl: SessionACL,
    owner: u32,
    request: AnyRequest,
) -> LoopStep {
    if request.operation == Some(Operation::Destroy) {
        LoopStep::ReplyOkAndStop { unique: request.header.unique }
    } else {
        LoopStep::Dispatch(dispatch_action(errnos, acl, owner, request))
    }
}

/// Decides what an event loop does with what it received: nothing that can be decoded ends it, and
/// so does the kernel's goodbye.
pub fn loop_step(
    errnos: Errnos,
    acl: SessionACL,
    owner: u32,
    request: Option<AnyRequest>,
) -> (step: LoopStep)
    ensures
        match request {
            None => step matches LoopStep::Fail { error } && error@ == raised(
                ErrorKind::InvalidData,
                "Invalid request"@,
            ),
            Some(parsed) => if parsed.operation == Some(Operation::Destroy) {
                step == LoopStep::ReplyOkAndStop { unique: parsed.header.unique }
            } else {
                step == LoopStep::Dispatch(dispatch_action(errnos, acl, owner, parsed))
            },
        },
        request matches Some(parsed) ==> step == step_for(errnos, acl, owner, parsed),
{
    let request = match request {
        Some(request) => request,
        None => {
            return LoopStep::Fail {
                error: Error::new(ErrorKind::InvalidData, "Invalid request"),
            };
        },
    };
    let goodbye = match &request.operation {
        Some(Operation::Destroy) => true,
        _ => false,
    };
    if goodbye {
        LoopStep::ReplyOkAndStop { unique: request.header.unique }
    } else {
        LoopStep::Dispatch(dispatch(errnos, acl, owner, request))
    }
}

/// Where an event loop has its channel to the kernel from.
#[derive(Clone, Copy, Debug, PartialEq, Eq, Structural)]
pub enum ChannelSource {
    /// It has the session's.
    Primary,
    /// It shares the session's.
    Shared,
    /// It has one of its own, on a clone of the device.
    Cloned,
}

/// An event loop of a session.
#[derive(Debug)]
pub struct Worker {
    /// The name of the loop.
    pub name: String,
    /// The name that its task is spawned under.
    pub task_name: String,
    /// Where it has its channel from.
    pub channel: ChannelSource,
}

/// The name of event loop `i`.
pub open spec fn worker_name(i: int) -> Seq<char> {
    "fuser-"@ + decimal(i)
}

/// Where event loop `i` of `n` has its channel from: the last has the session's, and the others
/// have clones of it if the session clones its device.
pub open spec fn worker_channel(i: int, n: int, clone_fd: bool) -> ChannelSource {
    if i == n - 1 {
        ChannelSource::Primary
    } else if clone_fd {
        ChannelSource::Cloned
    } else {
        ChannelSource::Shared
    }
}

/// Whether a session asks for clones of its device where there are none.
pub open spec fn asks_for_missing_clones(count: nat, clone_fd: bool, platform: Platform) -> bool {
    clone_fd && count > 1 && platform != Platform::Linux
}

/// Clones of the device are never missed by a single event loop, by a session that does not ask for
/// them, or on Linux; and where they are missed, they are by any two event loops or more.
pub proof fn lemma_clones_are_missed_by_two_loops(
    count: nat,
    more: nat,
    clone_fd: bool,
    platform: Platform,
)
    ensures
        !asks_for_missing_clones(1, clone_fd, platform),
        !asks_for_missing_clones(count, false, platform),
        !asks_for_missing_clones(count, clone_fd, Platform::Linux),
        platform != Platform::Linux && count >= 2 ==> asks_for_missing_clones(
            count,
            true,
            platform,
        ),
        asks_for_missing_clones(count, clone_fd, platform) && more >= count
            ==> asks_for_missing_clones(more, clone_fd, platform),
{
}

/// Lays out the event loops of a session with so many of them. Only Linux can clone the device, so
/// that it is an error to ask for it elsewhere with more than one loop.
pub fn plan_workers(count: WorkerCount, clone_fd: bool, platform: Platform) -> (workers: Result<
    Vec<Worker>,
    Error,
>)
    ensures
        workers is Err <==> clone_fd && count.count() > 1 && platform != Platform::Linux,
        workers is Err <==> asks_for_missing_clones(count.count(), clone_fd, platform),
        workers matches Err(error) ==> error@ == raised(
            ErrorKind::Other,
            "clone_fd is only supported on Linux"@,
        ),
        workers matches Ok(list) ==> list@.len() == count.count() && forall|i: int|
            0 <= i < list@.len() ==> (#[trigger] list@[i]).name@ == worker_name(i)
                && list@[i].task_name@ == "async_fuser::event_loop"@
                && list@[i].channel == worker_channel(i, list@.len() as int, clone_fd),
        workers matches Ok(list) ==> forall|i: int|
            0 <= i < list@.len() ==> ((#[trigger] list@[i]).channel == ChannelSource::Primary
                <==> i == list@.len() - 1) && (list@[i].channel == ChannelSource::Cloned
                <==> clone_fd && i < list@.len() - 1) && list@[i].name@ == "fuser-"@ + decimal(i),
{
    let n: usize = count.get();
    let on_linux = match platform {
        Platform::Linux => true,
        _ => false,
    };
    if clone_fd && n > 1 && !on_linux {
        return Err(Error::other("clone_fd is only supported on Linux"));
    }
    let mut workers: Vec<Worker> = Vec::new();
    let mut i: usize = 0;
    while i < n
        invariant
            i <= n,
            workers@.len() == i,
            forall|j: int|
                0 <= j < i ==> (#[trigger] workers@[j]).name@ == worker_name(j)
                    && workers@[j].task_name@ == "async_fuser::event_loop"@
                    && workers@[j].channel == worker_channel(j, n as int, clone_fd),
        decreases n - i,
    {
        let mut name = "fuser-".to_owned();
        name.append(write_unsigned(i as u64).as_str());
        let channel = if i == n - 1 {
            ChannelSource::Primary
        } else if clone_fd {
            ChannelSource::Cloned
        } else {
            ChannelSource::Shared
        };
        let task_name = "async_fuser::event_loop".to_owned();
        workers.push(Worker { name, task_name, channel });
        i = i + 1;
    }
    Ok(workers)
}

/// The event loops of a session have names of their own, and one of them has the session's channel.
pub proof fn lemma_workers_are_told_apart(i: int, j: int, n: int, clone_fd: bool)
    requires
        0 <= i < n,
        0 <= j < n,
    ensures
        worker_name(i) == worker_name(j) ==> i == j,
        worker_channel(i, n, clone_fd) == ChannelSource::Primary && worker_channel(j, n, clone_fd)
            == ChannelSource::Primary ==> i == j,
        worker_channel(n - 1, n, clone_fd) == ChannelSource::Primary,
{
    let prefix = "fuser-"@;
    assert(worker_name(i).skip(prefix.len() as int) =~= decimal(i));
    assert(worker_name(j).skip(prefix.len() as int) =~= decimal(j));
    if worker_name(i) == worker_name(j) {
        lemma_decimal_is_injective(i, j);
    }
}

/// A read that was canceled because the session is over ends the event loop in good order.
pub proof fn lemma_cancellation_ends_the_loop(
    errnos: Errnos,
    waited: Waited<usize>,
    outcome: Result<usize, Error>,
)
    requires
        waited == Waited::<usize>::Cancelled(None),
        resolves_to(errnos, waited, outcome),
    ensures
        reception_of(errnos, outcome) == Reception::Stop,
{
}

/// How an event loop ended.
#[derive(Debug)]
pub enum LoopEnd {
    /// It returned.
    Returned(Result<(), Error>),
    /// It panicked, or was lost with its thread.
    Lost,
}

/// The error of a session that lost an event loop.
pub open spec fn lost_loop_error() -> ErrorView {
    raised(ErrorKind::Other, "event loop thread panicked"@)
}

/// What the end of one more loop makes of the result of a session and of whether it has given up
/// on the other loops. An error replaces an earlier one; a lost loop ends it all.
pub open spec fn after_end(
    so_far: (Result<(), ErrorView>, bool),
    end: LoopEnd,
) -> (Result<(), ErrorView>, bool) {
    if so_far.1 {
        so_far
    } else {
        match end {
            LoopEnd::Returned(Ok(())) => so_far,
            LoopEnd::Returned(Err(error)) => (Err(error@), false),
            LoopEnd::Lost => (Err(lost_loop_error()), true),
        }
    }
}

/// What the event loops of a session amount to, in the order in which they ended.
pub open spec fn loops_result(ends: Seq<LoopEnd>) -> (Result<(), ErrorView>, bool)
    decreases ends.len(),
{
    if ends.len() == 0 {
        (Ok(()), false)
    } else {
        after_end(loops_result(ends.drop_last()), ends.last())
    }
}

/// Whether some event loop was lost.
pub open spec fn some_lost(ends: Seq<LoopEnd>) -> bool {
    exists|i: int| 0 <= i < ends.len() && #[trigger] ends[i] is Lost
}

/// A session ends well exactly if all its event loops do.
pub proof fn lemma_session_ends_well_iff_all_loops_do(ends: Seq<LoopEnd>)
    ensures
        loops_result(ends).0 is Ok <==> forall|i: int|
            0 <= i < ends.len() ==> #[trigger] ends[i] == LoopEnd::Returned(Ok(())),
        loops_result(ends).1 <==> some_lost(ends),
    decreases ends.len(),
{
    if ends.len() > 0 {
        let earlier = ends.drop_last();
        let last = ends.len() - 1;
        lemma_session_ends_well_iff_all_loops_do(earlier);
        if forall|i: int| 0 <= i < ends.len() ==> #[trigger] ends[i] == LoopEnd::Returned(Ok(())) {
            assert forall|i: int| 0 <= i < earlier.len() implies #[trigger] earlier[i]
                == LoopEnd::Returned(Ok(())) by {
                assert(ends[i] == LoopEnd::Returned(Ok(())));
            }
            assert(ends[last] == LoopEnd::Returned(Ok(())));
        }
        if loops_result(ends).0 is Ok {
            if loops_result(earlier).1 {
                lemma_lost_loop_is_reported(earlier);
            }
            assert forall|i: int| 0 <= i < ends.len() implies #[trigger] ends[i]
                == LoopEnd::Returned(Ok(())) by {
                if i < last {
                    assert(earlier[i] == LoopEnd::Returned(Ok(())));
                } else {
                    assert(ends.last()->Returned_0->Ok_0 == ());
                }
            }
        }
        if some_lost(earlier) {
            let i = choose|i: int| 0 <= i < earlier.len() && #[trigger] earlier[i] is Lost;
            assert(ends[i] is Lost);
        }
        if some_lost(ends) {
            let i = choose|i: int| 0 <= i < ends.len() && #[trigger] ends[i] is Lost;
            if i < last {
                assert(earlier[i] is Lost);
            }
        }
    }
}

/// A lost event loop is what the session reports, whatever the others ended with.
pub proof fn lemma_lost_loop_is_reported(ends: Seq<LoopEnd>)
    requires
        loops_result(ends).1,
    ensures
        loops_result(ends).0 == Err::<(), ErrorView>(lost_loop_error()),
    decreases ends.len(),
{
    if ends.len() > 0 && loops_result(ends.drop_last()).1 {
        lemma_lost_loop_is_reported(ends.drop_last());
    }
}

/// The error of a session whose filesystem something else still holds on to.
pub open spec fn held_filesystem_error() -> ErrorView {
    raised(ErrorKind::Other, "BUG: must have one refcount for filesystem"@)
}

/// What a session that runs waits for.
#[derive(Clone, Copy, Debug, PartialEq, Eq, Structural)]
pub enum RunPhase {
    /// The end of an event loop; so many are left.
    Loops { left: usize },
    /// The end of every task that the session has spawned.
    Drain,
    /// The destruction of the filesystem.
    Destruction,
    /// Nothing: the session has ended.
    Over,
}

/// What a session that runs needs done next.
#[derive(Debug)]
pub enum RunDown {
    /// Wait until one more event loop ends.
    AwaitLoop,
    /// Wait until every task that the session has spawned has ended: the event loops, and the
    /// handlers of requests. If `cancel` says so, tell the loops that are left to end.
    Drain { cancel: bool },
    /// Destroy the filesystem.
    DestroyFilesystem,
    /// Nothing: the session has ended with this result.
    Return(Result<(), Error>),
}

/// A [`RunDown`] as specifications see it.
pub enum RunDownView {
    AwaitLoop,
    Drain { cancel: bool },
    DestroyFilesystem,
    Return(Result<(), ErrorView>),
}

impl View for RunDown {
    type V = RunDownView;

    open spec fn view(&self) -> RunDownView {
        match self {
            RunDown::AwaitLoop => RunDownView::AwaitLoop,
            RunDown::Drain { cancel } => RunDownView::Drain { cancel: *cancel },
            RunDown::DestroyFilesystem => RunDownView::DestroyFilesystem,
            RunDown::Return(result) => RunDownView::Return(result_view(*result)),
        }
    }
}

/// Something that happens to a session that runs.
pub enum RunEvent {
    /// An event loop ends.
    LoopEnded(LoopEnd),
    /// Every task has ended. Whether anything else still holds on to the filesystem.
    Drained { sole_owner: bool },
    /// The filesystem has been destroyed.
    Destroyed,
}

/// A session that runs, as specifications see it: what its event loops have amounted to so far, and
/// what it waits for.
pub struct RunState {
    pub reply: Result<(), ErrorView>,
    pub phase: RunPhase,
}

/// Whether an event is one that a phase waits for.
pub open spec fn run_awaits(phase: RunPhase, event: RunEvent) -> bool {
    match phase {
        RunPhase::Loops { left } => event is LoopEnded && left > 0,
        RunPhase::Drain => event is Drained,
        RunPhase::Destruction => event is Destroyed,
        RunPhase::Over => false,
    }
}

impl RunState {
    /// The step after an event. The session waits for its event loops, unless one is lost; then for
    /// all its tasks; then it destroys its filesystem; and then it returns.
    pub open spec fn next(self, event: RunEvent) -> (RunState, RunDownView) {
        match event {
            RunEvent::LoopEnded(end) => {
                let (reply, lost) = after_end((self.reply, false), end);
                let left = self.phase->left - 1;
                if lost || left == 0 {
                    (
                        RunState { reply, phase: RunPhase::Drain },
                        RunDownView::Drain { cancel: lost },
                    )
                } else {
                    (
                        RunState { reply, phase: RunPhase::Loops { left: left as usize } },
                        RunDownView::AwaitLoop,
                    )
                }
            },
            RunEvent::Drained { sole_owner } => if sole_owner {
                (
                    RunState { phase: RunPhase::Destruction, ..self },
                    RunDownView::DestroyFilesystem,
                )
            } else {
                (
                    RunState { phase: RunPhase::Over, ..self },
                    RunDownView::Return(Err(held_filesystem_error())),
                )
            },
            RunEvent::Destroyed => (
                RunState { phase: RunPhase::Over, ..self },
                RunDownView::Return(self.reply),
            ),
        }
    }
}

/// A session that runs.
#[derive(Debug)]
pub struct SessionRun {
    /// The result that the session will have.
    pub reply: Result<(), Error>,
    /// What it waits for.
    pub phase: RunPhase,
}

impl View for SessionRun {
    type V = RunState;

    open spec fn view(&self) -> RunState {
        RunState { reply: result_view(self.reply), phase: self.phase }
    }
}

impl SessionRun {
    /// A session with so many event loops, all of which run.
    pub fn new(loops: WorkerCount) -> (run: SessionRun)
        ensures
            run@ == first_state(loops.count() as usize),
            run.phase->left == loops.count() > 0,
    {
        SessionRun { reply: Ok(()), phase: RunPhase::Loops { left: loops.get() } }
    }

    /// Takes the end of an event loop.
    pub fn on_loop_end(&mut self, end: LoopEnd) -> (next: RunDown)
        requires
            run_awaits(old(self).phase, RunEvent::LoopEnded(end)),
        ensures
            (final(self)@, next@) == old(self)@.next(RunEvent::LoopEnded(end)),
    {
        let left: usize = match self.phase {
            RunPhase::Loops { left } => left - 1,
            _ => unreached(),
        };
        match end {
            LoopEnd::Returned(Ok(())) => {},
            LoopEnd::Returned(Err(error)) => {
                self.reply = Err(error);
            },
            LoopEnd::Lost => {
                self.reply = Err(Error::other("event loop thread panicked"));
                self.phase = RunPhase::Drain;
                return RunDown::Drain { cancel: true };
            },
        }
        if left == 0 {
            self.phase = RunPhase::Drain;
            RunDown::Drain { cancel: false }
        } else {
            self.phase = RunPhase::Loops { left };
            RunDown::AwaitLoop
        }
    }

    /// Goes on once every task that the session has spawned has ended, given whether anything else
    /// still holds on to the filesystem. If something does, the filesystem cannot be destroyed, and
    /// that is the error.
    pub fn on_drained(&mut self, sole_owner: bool) -> (next: RunDown)
        requires
            old(self).phase == RunPhase::Drain,
        ensures
            (final(self)@, next@) == old(self)@.next(RunEvent::Drained { sole_owner }),
            next is DestroyFilesystem <==> sole_owner,
    {
        if sole_owner {
            self.phase = RunPhase::Destruction;
            RunDown::DestroyFilesystem
        } else {
            self.phase = RunPhase::Over;
            RunDown::Return(Err(Error::other("BUG: must have one refcount for filesystem")))
        }
    }

    /// Goes on once the filesystem has been destroyed.
    pub fn on_destroyed(self) -> (next: RunDown)
        requires
            self.phase == RunPhase::Destruction,
        ensures
            next@ == self@.next(RunEvent::Destroyed).1,
            next == RunDown::Return(self.reply),
    {
        RunDown::Return(self.reply)
    }
}

/// A session with so many event loops, all of which run.
pub open spec fn first_state(loops: usize) -> RunState {
    RunState { reply: Ok(()), phase: RunPhase::Loops { left: loops } }
}

/// Where a session stands after a number of events, and what it needed done last.
pub open spec fn session_run(loops: usize, events: Seq<RunEvent>) -> (RunState, RunDownView)
    decreases events.len(),
{
    if events.len() == 0 {
        (first_state(loops), RunDownView::AwaitLoop)
    } else {
        session_run(loops, events.drop_last()).0.next(events.last())
    }
}

/// Whether a number of events is one that a session with so many event loops can see: it waits for
/// each of them when it comes.
pub open spec fn is_run(loops: usize, events: Seq<RunEvent>) -> bool
    decreases events.len(),
{
    events.len() == 0 || (is_run(loops, events.drop_last()) && run_awaits(
        session_run(loops, events.drop_last()).0.phase,
        events.last(),
    ))
}

/// How the event loops ended, in order.
pub open spec fn ends_of(events: Seq<RunEvent>) -> Seq<LoopEnd>
    decreases events.len(),
{
    if events.len() == 0 {
        seq![]
    } else {
        match events.last() {
            RunEvent::LoopEnded(end) => ends_of(events.drop_last()).push(end),
            _ => ends_of(events.drop_last()),
        }
    }
}

/// How often a session has been told to destroy its filesystem.
pub open spec fn destructions(loops: usize, events: Seq<RunEvent>) -> nat
    decreases events.len(),
{
    if events.len() == 0 {
        0
    } else {
        destructions(loops, events.drop_last()) + (if session_run(loops, events).1
            is DestroyFilesystem {
            1nat
        } else {
            0
        })
    }
}

/// Whether every task of the session has ended, by one of the events.
pub open spec fn is_drained(events: Seq<RunEvent>) -> bool {
    exists|i: int| 0 <= i < events.len() && #[trigger] events[i] is Drained
}

proof fn lemma_drained_before(events: Seq<RunEvent>)
    requires
        events.len() > 0,
    ensures
        is_drained(events) <==> (is_drained(events.drop_last()) || events.last() is Drained),
{
    let earlier = events.drop_last();
    if is_drained(earlier) {
        let i = choose|i: int| 0 <= i < earlier.len() && #[trigger] earlier[i] is Drained;
        assert(events[i] is Drained);
    }
    if events.last() is Drained {
        assert(events[events.len() - 1] is Drained);
    }
    if is_drained(events) {
        let i = choose|i: int| 0 <= i < events.len() && #[trigger] events[i] is Drained;
        if i < events.len() - 1 {
            assert(earlier[i] is Drained);
        }
    }
}

/// The filesystem of a session is not destroyed, and the session does not return, before every task
/// of the session has ended; it is destroyed once at most; and a session that returns what its event
/// loops amount to has destroyed it before.
pub proof fn lemma_filesystem_is_destroyed_once_after_all_tasks(
    loops: usize,
    events: Seq<RunEvent>,
)
    requires
        is_run(loops, events),
    ensures
        destructions(loops, events) <= 1,
        !is_drained(events) ==> destructions(loops, events) == 0 && !(session_run(loops, events).1
            is Return),
        session_run(loops, events).1 matches RunDownView::Return(result) ==> destructions(
            loops,
            events,
        ) == 1 || result == Err::<(), ErrorView>(held_filesystem_error()),
        session_run(loops, events).0.phase is Loops || session_run(loops, events).0.phase is Drain
            ==> !is_drained(events) && destructions(loops, events) == 0,
        session_run(loops, events).0.phase is Destruction ==> destructions(loops, events) == 1,
    decreases events.len(),
{
    if events.len() > 0 {
        lemma_filesystem_is_destroyed_once_after_all_tasks(loops, events.drop_last());
        lemma_drained_before(events);
    }
}

/// A session whose filesystem it alone holds ends with what its event loops amount to, in the order
/// in which they ended; and they are told to end exactly if one of them was lost.
pub proof fn lemma_session_reports_its_loops(loops: usize, events: Seq<RunEvent>)
    requires
        is_run(loops, events),
    ensures
        session_run(loops, events).0.reply == loops_result(ends_of(events)).0,
        session_run(loops, events).0.phase is Loops ==> !loops_result(ends_of(events)).1,
        session_run(loops, events).1 matches RunDownView::Drain { cancel } ==> cancel
            == loops_result(ends_of(events)).1,
        session_run(loops, events).0.phase is Over && events.last() is Destroyed ==> session_run(
            loops,
            events,
        ).1 == RunDownView::Return(loops_result(ends_of(events)).0),
    decreases events.len(),
{
    if events.len() > 0 {
        let earlier = events.drop_last();
        lemma_session_reports_its_loops(loops, earlier);
        if let RunEvent::LoopEnded(end) = events.last() {
            assert(ends_of(events).drop_last() =~= ends_of(earlier));
        }
    }
}

/// A request that was received is taken as it is; of the errors, exactly the two that say that the
/// session or its device is gone end the loop in good order, and any other ends it with itself.
pub proof fn lemma_only_the_end_of_the_session_stops_the_loop(
    errnos: Errnos,
    size: usize,
    error: Error,
)
    ensures
        reception_of(errnos, Ok(size)) == (Reception::Request { size }),
        reception_of(errnos, Err(error)) == Reception::Stop <==> (error.os matches Some(code) && (
        code == errnos.ecanceled || code == errnos.enodev)),
        reception_of(errnos, Err(error)) != Reception::Stop ==> reception_of(errnos, Err(error))
            == (Reception::Fail { error }),
{
}

/// The kernel's goodbye is the only request that stops an event loop; the reply goes to that very
/// request. Every other one is handed on or answered.
pub proof fn lemma_only_the_goodbye_stops_the_loop(
    errnos: Errnos,
    acl: SessionACL,
    owner: u32,
    request: AnyRequest,
)
    ensures
        step_for(errnos, acl, owner, request) is ReplyOkAndStop <==> (
        request.operation matches Some(operation) && operation is Destroy),
        step_for(errnos, acl, owner, request) matches LoopStep::ReplyOkAndStop { unique } ==> unique
            == request.header.unique,
        !(request.operation matches Some(operation) && operation is Destroy) ==> step_for(
            errnos,
            acl,
            owner,
            request,
        ) == LoopStep::Dispatch(dispatch_action(errnos, acl, owner, request)),
{
}

/// All event loops but the last have a channel of the same kind: a clone each if the session clones
/// its device, else the session's, shared.
pub proof fn lemma_other_workers_share_or_clone(i: int, n: int)
    requires
        0 <= i < n - 1,
    ensures
        worker_channel(i, n, true) == ChannelSource::Cloned,
        worker_channel(i, n, false) == ChannelSource::Shared,
        worker_name(i) == "fuser-"@ + decimal(i),
{
}

/// The error that a session reports is that of the last event loop that failed, if none was lost;
/// else it is that an event loop was lost.
pub proof fn lemma_last_error_is_reported(ends: Seq<LoopEnd>, i: int)
    requires
        0 <= i < ends.len(),
    ensures
        ends[i] is Lost ==> (loops_result(ends).0 matches Err(error) && error.kind
            == ErrorKind::Other && error.os is None && error.message
            == "event loop thread panicked"@),
        (forall|j: int| 0 <= j < ends.len() ==> !(#[trigger] ends[j] is Lost)) && (forall|j: int|
            i < j < ends.len() ==> (#[trigger] ends[j] matches LoopEnd::Returned(result)
                && result is Ok)) ==> (ends[i] matches LoopEnd::Returned(Err(error))
            ==> loops_result(ends).0 == Err::<(), ErrorView>(error@)),
    decreases ends.len(),
{
    lemma_session_ends_well_iff_all_loops_do(ends);
    if ends[i] is Lost {
        assert(some_lost(ends));
        lemma_lost_loop_is_reported(ends);
    }
    if (forall|j: int| 0 <= j < ends.len() ==> !(#[trigger] ends[j] is Lost)) && (forall|j: int|
        i < j < ends.len() ==> (#[trigger] ends[j] matches LoopEnd::Returned(result) && result
            is Ok)) {
        let earlier = ends.drop_last();
        assert forall|j: int| 0 <= j < earlier.len() implies !(#[trigger] earlier[j] is Lost) by {
            assert(earlier[j] == ends[j]);
        }
        lemma_session_ends_well_iff_all_loops_do(earlier);
        assert(!loops_result(earlier).1);
        if i < ends.len() - 1 {
            assert(ends[ends.len() - 1] matches LoopEnd::Returned(result) && result is Ok);
            assert(ends.last()->Returned_0->Ok_0 == ());
            assert forall|j: int| i < j < earlier.len() implies (
            #[trigger] earlier[j] matches LoopEnd::Returned(result) && result is Ok) by {
                assert(earlier[j] == ends[j]);
            }
            lemma_last_error_is_reported(earlier, i);
        }
    }
}

/// A session waits for as many ends of event loops as it has loops, less those that have ended; it
/// stops waiting only when all have ended or one was lost.
pub proof fn lemma_session_waits_for_all_its_loops(loops: usize, events: Seq<RunEvent>)
    requires
        loops > 0,
        is_run(loops, events),
    ensures
        session_run(loops, events).0.phase matches RunPhase::Loops { left } ==> left > 0 && left
            + ends_of(events).len() == loops && !some_lost(ends_of(events)),
        !(session_run(loops, events).0.phase is Loops) ==> ends_of(events).len() == loops
            || some_lost(ends_of(events)),
        session_run(loops, events).1 matches RunDownView::Drain { cancel } ==> (cancel
            <==> some_lost(ends_of(events))),
    decreases events.len(),
{
    lemma_session_reports_its_loops(loops, events);
    lemma_session_ends_well_iff_all_loops_do(ends_of(events));
    if events.len() > 0 {
        lemma_session_waits_for_all_its_loops(loops, events.drop_last());
        if let RunEvent::LoopEnded(end) = events.last() {
            assert(ends_of(events).drop_last() =~= ends_of(events.drop_last()));
        }
    }
}

/// Once all its tasks have ended, a session destroys its filesystem if nothing else holds on to it,
/// and then returns what it has come to; else it returns an error of its own.
pub proof fn lemma_session_destroys_what_it_alone_holds(
    loops: usize,
    events: Seq<RunEvent>,
)
    requires
        session_run(loops, events).0.phase is Drain,
    ensures
        ({
            let alone = events.push(RunEvent::Drained { sole_owner: true });
            let held = events.push(RunEvent::Drained { sole_owner: false });
            let destroyed = alone.push(RunEvent::Destroyed);
            &&& session_run(loops, alone).1 == RunDownView::DestroyFilesystem
            &&& session_run(loops, destroyed).1 == RunDownView::Return(
                session_run(loops, events).0.reply,
            )
            &&& session_run(loops, destroyed).0.phase == RunPhase::Over
            &&& session_run(loops, held).1 matches RunDownView::Return(Err(error))
            &&& error.kind == ErrorKind::Other
            &&& error.os is None
            &&& error.message == "BUG: must have one refcount for filesystem"@
        }),
{
    let alone = events.push(RunEvent::Drained { sole_owner: true });
    let held = events.push(RunEvent::Drained { sole_owner: false });
    assert(alone.drop_last() =~= events);
    assert(held.drop_last() =~= events);
    assert(alone.push(RunEvent::Destroyed).drop_last() =~= alone);
}

} // verus!
