//! What runs a session: the spawners that it is given or makes for itself, and how work is spread
//! over a cluster of runtimes.
use std::sync::Arc;

use vstd::prelude::*;

use crate::error::{raised, Error, ErrorKind};
use crate::platform::Platform;

verus! {

/// Declares `tokio::runtime::Handle`, a handle to a Tokio runtime. Nothing is stated of it but its
/// flavor, below.
#[verifier::external_type_specification]
#[verifier::external_body]
pub struct ExHandle(tokio::runtime::Handle);

/// Declares `rusty_pool::ThreadPool`, a pool of threads. Nothing is stated of it.
#[verifier::external_type_specification]
#[verifier::external_body]
pub struct ExThreadPool(rusty_pool::ThreadPool);

/// What kind of runtime a handle belongs to.
#[derive(Clone, Copy, Debug, PartialEq, Eq, Structural)]
pub enum RuntimeFlavor {
    /// One that runs everything on the thread that drives it.
    CurrentThread,
    /// One with worker threads of its own.
    MultiThread,
    /// One of a kind that the library does not know.
    Other,
}

/// The kind of runtime that a handle belongs to. It does not change over the life of the handle.
pub uninterp spec fn handle_flavor(handle: tokio::runtime::Handle) -> RuntimeFlavor;

/// Calls `tokio::runtime::Handle::runtime_flavor`, and hands back the flavor under this library's
/// name for it.
#[verifier::external_body]
fn flavor_of(handle: &tokio::runtime::Handle) -> (flavor: RuntimeFlavor)
    ensures
        flavor == handle_flavor(*handle),
{
    match handle.runtime_flavor() {
        tokio::runtime::RuntimeFlavor::CurrentThread => RuntimeFlavor::CurrentThread,
        tokio::runtime::RuntimeFlavor::MultiThread => RuntimeFlavor::MultiThread,
        _ => RuntimeFlavor::Other,
    }
}

/// A spawner is something that work with results of type `R` can be spawned on: an async runtime
/// or a thread pool.
pub trait Spawner<R>: Send + Sync where R: Send + 'static {
    /// Whether the spawner is valid for a session.
    spec fn valid(&self) -> bool;

    /// Check whether the spawner is valid for the session.
    fn is_valid(&self) -> (valid: bool)
        ensures
            valid == self.valid(),
    ;
}

/// A session that ran on a single-threaded runtime could wait for itself.
impl<R: Send + 'static> Spawner<R> for tokio::runtime::Handle {
    open spec fn valid(&self) -> bool {
        handle_flavor(*self) == RuntimeFlavor::MultiThread
    }

    fn is_valid(&self) -> (valid: bool) {
        flavor_of(self) == RuntimeFlavor::MultiThread
    }
}

impl<R: Send + 'static> Spawner<R> for rusty_pool::ThreadPool {
    open spec fn valid(&self) -> bool {
        true
    }

    fn is_valid(&self) -> (valid: bool) {
        true
    }
}

impl<R: Send + 'static, S: Spawner<R>> Spawner<R> for Arc<S> {
    open spec fn valid(&self) -> bool {
        (**self).valid()
    }

    fn is_valid(&self) -> (valid: bool) {
        (**self).is_valid()
    }
}

/// A spawner with its own word on whether it is valid.
#[derive(Debug)]
pub struct JudgedSpawner<S> {
    /// The spawner.
    pub spawner: S,
    /// What it says.
    pub valid: bool,
}

impl<R: Send + 'static, S: Send + Sync> Spawner<R> for JudgedSpawner<S> {
    open spec fn valid(&self) -> bool {
        self.valid
    }

    fn is_valid(&self) -> (valid: bool) {
        self.valid
    }
}

impl<S: Clone> Clone for JudgedSpawner<S> {
    fn clone(&self) -> (copy: JudgedSpawner<S>)
        ensures
            cloned(self.spawner, copy.spawner),
            copy.valid == self.valid,
    {
        JudgedSpawner { spawner: self.spawner.clone(), valid: self.valid }
    }
}

/// A number of workers, at least one.
#[derive(Clone, Copy, Debug, PartialEq, Eq)]
pub struct WorkerCount {
    n: usize,
}

impl WorkerCount {
    #[verifier::type_invariant]
    spec fn at_least_one(self) -> bool {
        self.n >= 1
    }

    /// The number.
    pub closed spec fn count(self) -> nat {
        self.n as nat
    }

    /// So many workers, if that is at least one.
    pub fn new(n: usize) -> (count: Option<WorkerCount>)
        ensures
            count is Some <==> n >= 1,
            count matches Some(workers) ==> workers.count() == n,
    {
        if n >= 1 {
            Some(WorkerCount { n })
        } else {
            None
        }
    }

    /// One worker.
    pub fn one() -> (count: WorkerCount)
        ensures
            count.count() == 1,
    {
        WorkerCount { n: 1 }
    }

    /// The number.
    pub fn get(self) -> (n: usize)
        ensures
            n == self.count(),
            n >= 1,
    {
        proof {
            use_type_invariant(&self);
        }
        self.n
    }
}

/// The number of workers that an optional setting stands for: one, if it is not set.
pub open spec fn workers_or_one(setting: Option<WorkerCount>) -> nat {
    match setting {
        Some(workers) => workers.count(),
        None => 1,
    }
}

fn or_one(setting: Option<WorkerCount>) -> (workers: WorkerCount)
    ensures
        workers.count() == workers_or_one(setting),
{
    match setting {
        Some(workers) => workers,
        None => WorkerCount::one(),
    }
}

/// Runtime strategy for the session. Controls how internal tasks are spawned.
#[derive(Debug)]
pub enum RuntimeStrategy<E, H> {
    /// Use caller-managed spawners. This is the recommended option because it allows scaling to
    /// multiple filesystems without risk of thread oversubscription.
    Unmanaged {
        /// Number of event loop workers. One worker per filesystem is the default.
        n_event_loop_workers: Option<WorkerCount>,
        /// Spawner to use for event loop workers.
        event_loop_spawner: E,
        /// Spawner to use for handler workers.
        handler_spawner: H,
    },
    /// Make spawners for the session. This option is not recommended because it causes thread
    /// oversubscription if multiple filesystems are used.
    Managed {
        /// Number of event loop workers. One worker per filesystem is the default.
        n_event_loop_workers: Option<WorkerCount>,
        /// Number of handler workers. One worker per filesystem is the default.
        n_handler_workers: Option<WorkerCount>,
    },
}

impl<E: Clone, H: Clone> Clone for RuntimeStrategy<E, H> {
    fn clone(&self) -> (copy: RuntimeStrategy<E, H>)
        ensures
            match *self {
                RuntimeStrategy::Unmanaged {
                    n_event_loop_workers,
                    event_loop_spawner,
                    handler_spawner,
                } => {
                    &&& copy is Unmanaged
                    &&& copy->Unmanaged_n_event_loop_workers == n_event_loop_workers
                    &&& cloned(event_loop_spawner, copy->event_loop_spawner)
                    &&& cloned(handler_spawner, copy->handler_spawner)
                },
                RuntimeStrategy::Managed { .. } => copy == *self,
            },
    {
        match self {
            RuntimeStrategy::Unmanaged {
                n_event_loop_workers,
                event_loop_spawner,
                handler_spawner,
            } => RuntimeStrategy::Unmanaged {
                n_event_loop_workers: *n_event_loop_workers,
                event_loop_spawner: event_loop_spawner.clone(),
                handler_spawner: handler_spawner.clone(),
            },
            RuntimeStrategy::Managed { n_event_loop_workers, n_handler_workers } => {
                RuntimeStrategy::Managed {
                    n_event_loop_workers: *n_event_loop_workers,
                    n_handler_workers: *n_handler_workers,
                }
            },
        }
    }
}

/// Where the spawner of a session comes from.
#[derive(Debug)]
pub enum SpawnerSource<'a, S> {
    /// The caller's.
    Provided(&'a S),
    /// A new pool with so many threads, and never more.
    NewPool { threads: usize },
}

/// What runs a session.
#[derive(Debug)]
pub struct RuntimePlan<'a, E, H> {
    /// Runs the event loops.
    pub event_loop: SpawnerSource<'a, E>,
    /// Runs the handlers.
    pub handler: SpawnerSource<'a, H>,
    /// Runs the session itself.
    pub core: CoreRuntime,
}

/// A runtime that is made for a session.
#[derive(Debug)]
pub struct CoreRuntime {
    /// What kind of runtime it is.
    pub flavor: RuntimeFlavor,
    /// The name that the session's task is spawned under.
    pub task_name: &'static str,
    /// The name of its threads.
    pub thread_name: &'static str,
    /// How many they are.
    pub threads: usize,
    /// Whether dropping it waits for them.
    pub block_on_drop: bool,
}

impl<E, H> RuntimeStrategy<E, H> {
    /// The number of event loop workers.
    pub open spec fn event_loop_worker_count(self) -> nat {
        match self {
            RuntimeStrategy::Unmanaged { n_event_loop_workers, .. } => workers_or_one(
                n_event_loop_workers,
            ),
            RuntimeStrategy::Managed { n_event_loop_workers, .. } => workers_or_one(
                n_event_loop_workers,
            ),
        }
    }

    /// Get the number of event loop workers for the runtime strategy.
    pub fn event_loop_workers(&self) -> (workers: WorkerCount)
        ensures
            workers.count() == self.event_loop_worker_count(),
    {
        match self {
            RuntimeStrategy::Unmanaged { n_event_loop_workers, .. } => or_one(
                *n_event_loop_workers,
            ),
            RuntimeStrategy::Managed { n_event_loop_workers, .. } => or_one(*n_event_loop_workers),
        }
    }

    /// Whether a plan is the one that the strategy stands for: the caller's spawners, or pools of
    /// the sizes that are set, and a multi-threaded runtime, of one thread, for the session itself.
    pub open spec fn is_planned(self, plan: RuntimePlan<'_, E, H>) -> bool {
        &&& plan.core.flavor == RuntimeFlavor::MultiThread
        &&& plan.core.task_name@ == "async_fuser::background"@
        &&& plan.core.thread_name@ == "afuser-core"@
        &&& plan.core.threads == 1
        &&& !plan.core.block_on_drop
        &&& match self {
            RuntimeStrategy::Unmanaged { event_loop_spawner, handler_spawner, .. } => {
                &&& plan.event_loop == SpawnerSource::Provided(&event_loop_spawner)
                &&& plan.handler == SpawnerSource::Provided(&handler_spawner)
            },
            RuntimeStrategy::Managed { n_event_loop_workers, n_handler_workers } => {
                &&& plan.event_loop matches SpawnerSource::NewPool { threads } && threads
                    == workers_or_one(n_event_loop_workers) && threads >= 1
                &&& plan.handler matches SpawnerSource::NewPool { threads } && threads
                    == workers_or_one(n_handler_workers) && threads >= 1
            },
        }
    }

    /// Decides what runs a session. Handlers may block, so they have a pool of their own.
    pub fn build(&self) -> (plan: RuntimePlan<'_, E, H>)
        ensures
            self.is_planned(plan),
    {
        let core = CoreRuntime {
            flavor: RuntimeFlavor::MultiThread,
            task_name: "async_fuser::background",
            thread_name: "afuser-core",
            threads: 1,
            block_on_drop: false,
        };
        match self {
            RuntimeStrategy::Unmanaged { event_loop_spawner, handler_spawner, .. } => RuntimePlan {
                event_loop: SpawnerSource::Provided(event_loop_spawner),
                handler: SpawnerSource::Provided(handler_spawner),
                core,
            },
            RuntimeStrategy::Managed { n_event_loop_workers, n_handler_workers } => {
                let event_loop_threads: usize = or_one(*n_event_loop_workers).get();
                let handler_threads: usize = or_one(*n_handler_workers).get();
                RuntimePlan {
                    event_loop: SpawnerSource::NewPool { threads: event_loop_threads },
                    handler: SpawnerSource::NewPool { threads: handler_threads },
                    core,
                }
            },
        }
    }
}

/// Why a strategy cannot be used on a platform, as the category and the text of an error.
pub open spec fn strategy_fault<E: Spawner<Result<(), Error>>, H: Spawner<()>>(
    strategy: RuntimeStrategy<E, H>,
    platform: Platform,
) -> Option<(ErrorKind, Seq<char>)> {
    if platform != Platform::Linux && strategy.event_loop_worker_count() != 1 {
        Some((ErrorKind::Other, "n_event_loop_workers != 1 is only supported on Linux"@))
    } else {
        match strategy {
            RuntimeStrategy::Managed { .. } => None,
            RuntimeStrategy::Unmanaged { event_loop_spawner, handler_spawner, .. } => {
                if !handler_spawner.valid() {
                    Some((ErrorKind::InvalidInput, "handler spawner is not valid"@))
                } else if !event_loop_spawner.valid() {
                    Some((ErrorKind::InvalidInput, "event loop spawner is not valid"@))
                } else {
                    None
                }
            },
        }
    }
}

/// The strategy for a session that is not given one.
pub open spec fn default_strategy<E: Spawner<Result<(), Error>>, H: Spawner<()>>(
    current: Option<(E, H)>,
    parallelism: Option<WorkerCount>,
) -> RuntimeStrategy<E, H> {
    match current {
        Some((event_loop_spawner, handler_spawner)) if event_loop_spawner.valid()
            && handler_spawner.valid() => RuntimeStrategy::Unmanaged {
            n_event_loop_workers: None,
            event_loop_spawner,
            handler_spawner,
        },
        _ => RuntimeStrategy::Managed {
            n_event_loop_workers: None,
            n_handler_workers: parallelism,
        },
    }
}

/// A session that is not given a strategy has one event loop. It uses the current runtime exactly if
/// there is one and both spawners on it are valid; else it has pools, and as many handler workers as
/// the machine runs threads in parallel.
pub proof fn lemma_default_strategy_prefers_the_current_runtime<
    E: Spawner<Result<(), Error>>,
    H: Spawner<()>,
>(current: Option<(E, H)>, parallelism: Option<WorkerCount>)
    ensures
        default_strategy(current, parallelism).event_loop_worker_count() == 1,
        default_strategy(current, parallelism) is Unmanaged <==> (current matches Some((e, h))
            && e.valid() && h.valid()),
        default_strategy(current, parallelism) is Unmanaged ==> current == Some(
            (
                default_strategy(current, parallelism)->event_loop_spawner,
                default_strategy(current, parallelism)->handler_spawner,
            ),
        ),
        default_strategy(current, parallelism) is Managed ==> default_strategy(
            current,
            parallelism,
        )->n_handler_workers == parallelism,
{
}

impl<E: Spawner<Result<(), Error>>, H: Spawner<()>> RuntimeStrategy<E, H> {
    /// Verify that the runtime strategy is valid on a platform.
    pub fn verify(&self, platform: Platform) -> (result: Result<(), Error>)
        ensures
            match strategy_fault(*self, platform) {
                None => result is Ok,
                Some((kind, text)) => result matches Err(error) && error@ == raised(kind, text),
            },
    {
        let on_linux = match platform {
            Platform::Linux => true,
            _ => false,
        };
        if !on_linux && self.event_loop_workers().get() != 1 {
            return Err(Error::other("n_event_loop_workers != 1 is only supported on Linux"));
        }
        match self {
            RuntimeStrategy::Unmanaged { handler_spawner, event_loop_spawner, .. } => {
                if !handler_spawner.is_valid() {
                    return Err(Error::new(ErrorKind::InvalidInput, "handler spawner is not valid"));
                }
                if !event_loop_spawner.is_valid() {
                    return Err(
                        Error::new(ErrorKind::InvalidInput, "event loop spawner is not valid"),
                    );
                }
            },
            RuntimeStrategy::Managed { .. } => {},
        }
        Ok(())
    }

    /// The strategy for a session that is not given one: spawners on the current runtime if there
    /// is one and they are valid, else pools, with as many handler workers as the machine runs
    /// threads in parallel. It can be used on every platform.
    pub fn for_environment(current: Option<(E, H)>, parallelism: Option<WorkerCount>) -> (strategy:
        RuntimeStrategy<E, H>)
        ensures
            strategy == (match current {
                Some((event_loop_spawner, handler_spawner)) if event_loop_spawner.valid()
                    && handler_spawner.valid() => RuntimeStrategy::Unmanaged {
                    n_event_loop_workers: None,
                    event_loop_spawner,
                    handler_spawner,
                },
                _ => RuntimeStrategy::Managed {
                    n_event_loop_workers: None,
                    n_handler_workers: parallelism,
                },
            }),
            forall|platform: Platform| #[trigger] strategy_fault(strategy, platform) is None,
            strategy == default_strategy(current, parallelism),
    {
        if let Some((event_loop_spawner, handler_spawner)) = current {
            if event_loop_spawner.is_valid() && handler_spawner.is_valid() {
                return RuntimeStrategy::Unmanaged {
                    n_event_loop_workers: None,
                    event_loop_spawner,
                    handler_spawner,
                };
            }
        }
        RuntimeStrategy::Managed { n_event_loop_workers: None, n_handler_workers: parallelism }
    }
}

/// A strategy that can be used on some platform can be used on Linux, and one with a single event
/// loop worker can be used everywhere or nowhere.
pub proof fn lemma_linux_takes_what_others_take<E: Spawner<Result<(), Error>>, H: Spawner<()>>(
    strategy: RuntimeStrategy<E, H>,
    platform: Platform,
)
    ensures
        strategy_fault(strategy, platform) is None ==> strategy_fault(strategy, Platform::Linux)
            is None,
        strategy.event_loop_worker_count() == 1 ==> strategy_fault(strategy, platform)
            == strategy_fault(strategy, Platform::Linux),
{
}

/// How code that is not async gets the result of a future.
#[derive(Clone, Copy, Debug, PartialEq, Eq, Structural)]
pub enum SyncExecution {
    /// On a new thread with a runtime of its own: the current thread drives a runtime, and
    /// blocking it would block the future.
    NewRuntimeOnNewThread,
    /// On the current runtime, from a thread that the runtime can spare.
    CurrentRuntime,
    /// On a runtime made for it.
    NewRuntime,
}

/// How code that is not async gets the result of a future.
pub open spec fn sync_execution(current: Option<RuntimeFlavor>) -> SyncExecution {
    match current {
        Some(RuntimeFlavor::CurrentThread) => SyncExecution::NewRuntimeOnNewThread,
        Some(_) => SyncExecution::CurrentRuntime,
        None => SyncExecution::NewRuntime,
    }
}

/// A runtime is waited on only if it has threads besides the current one; a new thread is made only
/// where the current one drives a runtime by itself; and without a runtime, one is made.
pub proof fn lemma_runtime_is_not_blocked_by_its_own_thread(current: Option<RuntimeFlavor>)
    ensures
        sync_execution(current) == SyncExecution::NewRuntime <==> current is None,
        sync_execution(current) == SyncExecution::NewRuntimeOnNewThread <==> current == Some(
            RuntimeFlavor::CurrentThread,
        ),
        current == Some(RuntimeFlavor::MultiThread) ==> sync_execution(current)
            == SyncExecution::CurrentRuntime,
{
}

/// Decides how code that is not async gets the result of a future, from the flavor of the current
/// runtime, if there is one.
pub fn execution_from_sync(current: Option<RuntimeFlavor>) -> (execution: SyncExecution)
    requires
        current != Some(RuntimeFlavor::Other),
    ensures
        execution == (match current {
            Some(RuntimeFlavor::CurrentThread) => SyncExecution::NewRuntimeOnNewThread,
            Some(_) => SyncExecution::CurrentRuntime,
            None => SyncExecution::NewRuntime,
        }),
        execution == sync_execution(current),
{
    match current {
        Some(RuntimeFlavor::CurrentThread) => SyncExecution::NewRuntimeOnNewThread,
        Some(_) => SyncExecution::CurrentRuntime,
        None => SyncExecution::NewRuntime,
    }
}

/// What kind of runtime a handle belongs to.
pub fn runtime_flavor(handle: &tokio::runtime::Handle) -> (flavor: RuntimeFlavor)
    ensures
        flavor == handle_flavor(*handle),
{
    flavor_of(handle)
}

/// How many tasks in a row go to the same thread of a cluster.
pub const TASKS_PER_TURN: usize = 10;

/// How the threads of a cluster of runtimes are spread over its runtimes, the shards: every shard
/// is full but the last, which has the rest.
#[derive(Debug)]
pub struct ClusterLayout {
    /// The number of threads.
    pub worker_threads: usize,
    /// The number of threads of a full shard.
    pub worker_threads_per_shard: usize,
    /// The number of threads of each shard.
    pub shards: Vec<usize>,
}

/// The number of shards for so many threads.
pub open spec fn shard_count(threads: int, per_shard: int) -> int {
    (threads + per_shard - 1) / per_shard
}

/// The number of threads of shard `i`.
pub open spec fn shard_size(threads: int, per_shard: int, i: int) -> int {
    let rest = threads - i * per_shard;
    if rest < per_shard {
        rest
    } else {
        per_shard
    }
}

/// The sum of a number of sizes.
pub open spec fn total(sizes: Seq<usize>) -> int
    decreases sizes.len(),
{
    if sizes.len() == 0 {
        0
    } else {
        total(sizes.drop_last()) + sizes.last()
    }
}

impl ClusterLayout {
    /// The shards are those of the number of threads.
    pub open spec fn wf(self) -> bool {
        &&& self.worker_threads > 0
        &&& self.worker_threads_per_shard > 0
        &&& self.shards@.len() == shard_count(
            self.worker_threads as int,
            self.worker_threads_per_shard as int,
        )
        &&& forall|i: int|
            0 <= i < self.shards@.len() ==> #[trigger] self.shards@[i] == shard_size(
                self.worker_threads as int,
                self.worker_threads_per_shard as int,
                i,
            )
    }

    /// The thread, of all threads of the cluster, that task number `counter` goes to.
    pub open spec fn thread_of(self, counter: nat) -> int {
        ((counter / (TASKS_PER_TURN as nat)) % (self.worker_threads as nat)) as int
    }

    /// The shard that thread `thread` is in.
    pub open spec fn shard_of(self, thread: int) -> int {
        thread / (self.worker_threads_per_shard as int)
    }

    /// Lays out a cluster of `worker_threads` threads, with `worker_threads_per_shard` to a shard.
    pub fn new(worker_threads: usize, worker_threads_per_shard: usize) -> (layout: Result<
        ClusterLayout,
        Error,
    >)
        ensures
            layout is Ok <==> worker_threads > 0 && worker_threads_per_shard > 0,
            layout matches Ok(cluster) ==> cluster.wf() && cluster.worker_threads == worker_threads
                && cluster.worker_threads_per_shard == worker_threads_per_shard,
            layout matches Err(error) ==> error@ == raised(
                ErrorKind::InvalidInput,
                "worker_threads and worker_threads_per_shard must be greater than 0"@,
            ),
    {
        if worker_threads == 0 || worker_threads_per_shard == 0 {
            return Err(
                Error::new(
                    ErrorKind::InvalidInput,
                    "worker_threads and worker_threads_per_shard must be greater than 0",
                ),
            );
        }
        let ghost threads = worker_threads as int;
        let ghost per_shard = worker_threads_per_shard as int;
        let mut remaining: usize = worker_threads;
        let mut shards: Vec<usize> = Vec::new();
        assert(0 * per_shard == 0);
        while remaining > 0
            invariant
                threads == worker_threads,
                per_shard == worker_threads_per_shard,
                per_shard > 0,
                remaining > 0 ==> remaining == threads - shards@.len() * per_shard,
                remaining == 0 ==> (shards@.len() - 1) * per_shard < threads <= shards@.len()
                    * per_shard,
                forall|i: int|
                    0 <= i < shards@.len() ==> #[trigger] shards@[i] == shard_size(
                        threads,
                        per_shard,
                        i,
                    ),
            decreases remaining,
        {
            let ghost made = shards@.len();
            let size: usize = if remaining < worker_threads_per_shard {
                remaining
            } else {
                worker_threads_per_shard
            };
            shards.push(size);
            remaining = remaining - size;
            assert((made + 1) * per_shard == made * per_shard + per_shard) by (nonlinear_arith);
        }
        proof {
            lemma_shard_count(threads, per_shard, shards@.len() as int);
        }
        Ok(ClusterLayout { worker_threads, worker_threads_per_shard, shards })
    }

    /// The number of shards.
    pub fn len(&self) -> (len: usize)
        ensures
            len == self.shards@.len(),
    {
        self.shards.len()
    }

    /// The shard that task number `counter` is spawned on.
    pub fn shard_for(&self, counter: usize) -> (shard: usize)
        requires
            self.wf(),
        ensures
            shard == self.shard_of(self.thread_of(counter as nat)),
            shard < self.shards@.len(),
    {
        let thread: usize = (counter / TASKS_PER_TURN) % self.worker_threads;
        proof {
            lemma_thread_is_in_its_shard(*self, thread as int);
        }
        thread / self.worker_threads_per_shard
    }
}

/// A number of shards that holds all threads, and would not without the last, is the number of
/// shards.
proof fn lemma_shard_count(threads: int, per_shard: int, shards: int)
    requires
        per_shard > 0,
        (shards - 1) * per_shard < threads <= shards * per_shard,
    ensures
        shards == shard_count(threads, per_shard),
{
    let rest = threads + per_shard - 1 - shards * per_shard;
    assert((shards - 1) * per_shard == shards * per_shard - per_shard) by (nonlinear_arith);
    assert(0 <= rest < per_shard);
    vstd::arithmetic::div_mod::lemma_fundamental_div_mod_converse(
        threads + per_shard - 1,
        per_shard,
        shards,
        rest,
    );
}

/// Every thread of a cluster is in a shard: among the threads that its shard has.
pub proof fn lemma_thread_is_in_its_shard(layout: ClusterLayout, thread: int)
    requires
        layout.wf(),
        0 <= thread < layout.worker_threads,
    ensures
        0 <= layout.shard_of(thread) < layout.shards@.len(),
        0 <= thread - layout.shard_of(thread) * layout.worker_threads_per_shard
            < layout.shards@[layout.shard_of(thread)],
{
    let threads = layout.worker_threads as int;
    let per_shard = layout.worker_threads_per_shard as int;
    let shard = layout.shard_of(thread);
    let count = shard_count(threads, per_shard);
    vstd::arithmetic::div_mod::lemma_fundamental_div_mod(thread, per_shard);
    vstd::arithmetic::div_mod::lemma_fundamental_div_mod(threads + per_shard - 1, per_shard);
    vstd::arithmetic::div_mod::lemma_mod_bound(thread, per_shard);
    vstd::arithmetic::div_mod::lemma_mod_bound(threads + per_shard - 1, per_shard);
    assert(shard * per_shard <= thread < shard * per_shard + per_shard) by (nonlinear_arith)
        requires
            thread == per_shard * shard + thread % per_shard,
            0 <= thread % per_shard < per_shard,
    ;
    assert(threads <= count * per_shard) by (nonlinear_arith)
        requires
            threads + per_shard - 1 == per_shard * count + (threads + per_shard - 1) % per_shard,
            0 <= (threads + per_shard - 1) % per_shard < per_shard,
    ;
    assert(0 <= shard) by (nonlinear_arith)
        requires
            thread < shard * per_shard + per_shard,
            0 <= thread,
            per_shard > 0,
    ;
    assert(shard < count) by (nonlinear_arith)
        requires
            shard * per_shard < count * per_shard,
            per_shard > 0,
    ;
    assert(layout.shards@[shard] == shard_size(threads, per_shard, shard));
}

/// The shards of a cluster have all its threads between them, no more and no fewer.
pub proof fn lemma_shards_have_all_threads(layout: ClusterLayout)
    requires
        layout.wf(),
    ensures
        total(layout.shards@) == layout.worker_threads,
{
    let threads = layout.worker_threads as int;
    let per_shard = layout.worker_threads_per_shard as int;
    let count = layout.shards@.len() as int;
    vstd::arithmetic::div_mod::lemma_fundamental_div_mod(threads + per_shard - 1, per_shard);
    vstd::arithmetic::div_mod::lemma_mod_bound(threads + per_shard - 1, per_shard);
    assert((count - 1) * per_shard < threads <= count * per_shard) by (nonlinear_arith)
        requires
            threads + per_shard - 1 == per_shard * count + (threads + per_shard - 1) % per_shard,
            0 <= (threads + per_shard - 1) % per_shard < per_shard,
    ;
    lemma_full_shards(layout, count - 1);
    assert(layout.shards@.drop_last() =~= layout.shards@.take(count - 1));
    assert((count - 1) * per_shard == count * per_shard - per_shard) by (nonlinear_arith);
    assert(layout.shards@[count - 1] == shard_size(threads, per_shard, count - 1));
}

/// The first `full` shards are full, if there are more than that.
proof fn lemma_full_shards(layout: ClusterLayout, full: int)
    requires
        layout.wf(),
        0 <= full < layout.shards@.len(),
        full * layout.worker_threads_per_shard < layout.worker_threads,
    ensures
        total(layout.shards@.take(full)) == full * layout.worker_threads_per_shard,
    decreases full,
{
    let per_shard = layout.worker_threads_per_shard as int;
    let threads = layout.worker_threads as int;
    if full > 0 {
        let fewer = layout.shards@.take(full);
        assert((full - 1) * per_shard == full * per_shard - per_shard) by (nonlinear_arith);
        assert(per_shard > 0);
        lemma_full_shards(layout, full - 1);
        assert(fewer.drop_last() =~= layout.shards@.take(full - 1));
        assert(fewer.last() == layout.shards@[full - 1]);
        assert(layout.shards@[full - 1] == shard_size(threads, per_shard, full - 1));
    } else {
        assert(0 * per_shard == 0);
    }
}

/// Tasks go to the threads in turns, [`TASKS_PER_TURN`] to a turn, and every thread gets its turn.
pub proof fn lemma_threads_take_turns(layout: ClusterLayout, thread: int, task: nat)
    requires
        layout.wf(),
        0 <= thread < layout.worker_threads,
        task < TASKS_PER_TURN,
    ensures
        layout.thread_of((thread * TASKS_PER_TURN + task) as nat) == thread,
{
    let counter = thread * TASKS_PER_TURN + task;
    assert(counter / 10 == thread) by {
        vstd::arithmetic::div_mod::lemma_fundamental_div_mod_converse(
            counter,
            10,
            thread,
            task as int,
        );
    }
    vstd::arithmetic::div_mod::lemma_small_mod(thread as nat, layout.worker_threads as nat);
}

/// How many of the first `tasks` tasks are spawned on shard `shard`.
pub open spec fn tasks_on_shard(layout: ClusterLayout, tasks: nat, shard: int) -> nat
    decreases tasks,
{
    if tasks == 0 {
        0
    } else {
        let earlier = (tasks - 1) as nat;
        tasks_on_shard(layout, earlier, shard) + (if layout.shard_of(layout.thread_of(earlier))
            == shard {
            1nat
        } else {
            0
        })
    }
}

/// How many of the first `threads` threads are in shard `shard`.
spec fn threads_in_shard(layout: ClusterLayout, threads: int, shard: int) -> int {
    let rest = threads - shard * layout.worker_threads_per_shard;
    if rest < 0 {
        0
    } else if rest < layout.worker_threads_per_shard {
        rest
    } else {
        layout.worker_threads_per_shard as int
    }
}

/// A thread is in the shard whose threads it is among.
proof fn lemma_shard_of_thread(layout: ClusterLayout, thread: int, shard: int)
    requires
        layout.wf(),
        thread >= 0,
    ensures
        layout.shard_of(thread) == shard <==> shard * layout.worker_threads_per_shard <= thread
            < shard * layout.worker_threads_per_shard + layout.worker_threads_per_shard,
{
    let per_shard = layout.worker_threads_per_shard as int;
    vstd::arithmetic::div_mod::lemma_fundamental_div_mod(thread, per_shard);
    vstd::arithmetic::div_mod::lemma_mod_bound(thread, per_shard);
    assert(per_shard * (thread / per_shard) == (thread / per_shard) * per_shard)
        by (nonlinear_arith);
    if shard * per_shard <= thread < shard * per_shard + per_shard {
        vstd::arithmetic::div_mod::lemma_fundamental_div_mod_converse(
            thread,
            per_shard,
            shard,
            thread - shard * per_shard,
        );
    }
}

proof fn lemma_tasks_of_threads(layout: ClusterLayout, threads: int, tasks: nat, shard: int)
    requires
        layout.wf(),
        0 <= shard,
        0 <= threads,
        tasks <= TASKS_PER_TURN,
        threads < layout.worker_threads || threads == layout.worker_threads && tasks == 0,
    ensures
        tasks_on_shard(layout, (threads * TASKS_PER_TURN + tasks) as nat, shard)
            == threads_in_shard(layout, threads, shard) * TASKS_PER_TURN + (if layout.shard_of(
            threads,
        ) == shard {
            tasks as int
        } else {
            0
        }),
    decreases threads, tasks,
{
    lemma_shard_of_thread(layout, threads, shard);
    if tasks > 0 {
        let earlier = (tasks - 1) as nat;
        lemma_tasks_of_threads(layout, threads, earlier, shard);
        lemma_threads_take_turns(layout, threads, earlier);
        assert((threads * TASKS_PER_TURN + tasks - 1) as nat == (threads * TASKS_PER_TURN
            + earlier) as nat);
    } else if threads > 0 {
        lemma_tasks_of_threads(layout, threads - 1, TASKS_PER_TURN as nat, shard);
        lemma_shard_of_thread(layout, threads - 1, shard);
    } else {
        assert(shard * layout.worker_threads_per_shard >= 0) by (nonlinear_arith)
            requires
                shard >= 0,
        ;
    }
}

/// Of the tasks of one round, in which every thread of a cluster has its turn, each shard gets
/// [`TASKS_PER_TURN`] for each of its threads.
pub proof fn lemma_shards_get_tasks_by_their_size(layout: ClusterLayout, shard: int)
    requires
        layout.wf(),
        0 <= shard < layout.shards@.len(),
    ensures
        tasks_on_shard(layout, (layout.worker_threads * TASKS_PER_TURN) as nat, shard)
            == layout.shards@[shard] * TASKS_PER_TURN,
{
    let threads = layout.worker_threads as int;
    let per_shard = layout.worker_threads_per_shard as int;
    lemma_tasks_of_threads(layout, threads, 0, shard);
    assert(layout.shards@[shard] == shard_size(threads, per_shard, shard));
}

/// A runtime is valid for a session exactly if it has worker threads of its own; a pool of threads
/// always is; a spawner that is shared is as valid as the one that it shares; and one that has been
/// asked is what it said.
pub proof fn lemma_what_a_session_can_run_on<R: Send + 'static, S: Spawner<R>, T: Send + Sync>(
    handle: tokio::runtime::Handle,
    pool: rusty_pool::ThreadPool,
    shared: Arc<S>,
    judged: JudgedSpawner<T>,
)
    ensures
        Spawner::<R>::valid(&handle) <==> handle_flavor(handle) is MultiThread,
        Spawner::<R>::valid(&pool),
        Spawner::<R>::valid(&shared) == Spawner::<R>::valid(&*shared),
        Spawner::<R>::valid(&judged) == judged.valid,
{
}

/// The number of event loop workers is the one that is set, and one where none is set, whoever
/// manages the spawners.
pub proof fn lemma_one_event_loop_unless_more_are_set<E, H>(
    n_event_loop_workers: Option<WorkerCount>,
    n_handler_workers: Option<WorkerCount>,
    event_loop_spawner: E,
    handler_spawner: H,
)
    ensures
        ({
            let managed = RuntimeStrategy::<E, H>::Managed {
                n_event_loop_workers,
                n_handler_workers,
            };
            let unmanaged = RuntimeStrategy::<E, H>::Unmanaged {
                n_event_loop_workers,
                event_loop_spawner,
                handler_spawner,
            };
            &&& managed.event_loop_worker_count() == unmanaged.event_loop_worker_count()
            &&& n_event_loop_workers matches Some(workers) ==> managed.event_loop_worker_count()
                == workers.count()
            &&& n_event_loop_workers is None ==> managed.event_loop_worker_count() == 1
        }),
{
}

/// A strategy can be used exactly if it runs a single event loop wherever more are not supported,
/// and every spawner that it is given is valid. Of several faults, the number of event loops is
/// reported first, then the spawner of the handlers, then that of the event loops.
pub proof fn lemma_faults_of_a_strategy<E: Spawner<Result<(), Error>>, H: Spawner<()>>(
    strategy: RuntimeStrategy<E, H>,
    platform: Platform,
)
    ensures
        ({
            let many = platform != Platform::Linux && strategy.event_loop_worker_count() != 1;
            let fault = strategy_fault(strategy, platform);
            &&& many ==> fault == Some(
                (ErrorKind::Other, "n_event_loop_workers != 1 is only supported on Linux"@),
            )
            &&& !many && strategy is Managed ==> fault is None
            &&& !many && strategy is Unmanaged && !strategy->handler_spawner.valid() ==> fault
                == Some((ErrorKind::InvalidInput, "handler spawner is not valid"@))
            &&& !many && strategy is Unmanaged && strategy->handler_spawner.valid()
                && !strategy->event_loop_spawner.valid() ==> fault == Some(
                (ErrorKind::InvalidInput, "event loop spawner is not valid"@),
            )
            &&& !many && strategy is Unmanaged && strategy->handler_spawner.valid()
                && strategy->event_loop_spawner.valid() ==> fault is None
        }),
{
}

/// What a plan holds: the caller's spawners where there are any, else a pool for the event loops
/// with a thread for each of them, and a pool of its own for the handlers, with the number of
/// threads that is set, or one.
pub proof fn lemma_plan_follows_the_strategy<E, H>(
    strategy: RuntimeStrategy<E, H>,
    plan: RuntimePlan<'_, E, H>,
)
    requires
        strategy.is_planned(plan),
    ensures
        strategy is Unmanaged ==> plan.event_loop == SpawnerSource::Provided(
            &strategy->event_loop_spawner,
        ) && plan.handler == SpawnerSource::Provided(&strategy->handler_spawner),
        strategy is Managed ==> (plan.event_loop matches SpawnerSource::NewPool { threads }
            && threads == strategy.event_loop_worker_count()),
        strategy is Managed ==> (plan.handler matches SpawnerSource::NewPool { threads } && threads
            == match strategy->n_handler_workers {
            Some(workers) => workers.count(),
            None => 1,
        }),
        plan.core.flavor is MultiThread,
        plan.core.threads == 1,
        !plan.core.block_on_drop,
        plan.core.task_name@ == "async_fuser::background"@,
        plan.core.thread_name@ == "afuser-core"@,
{
}

/// Every shard of a cluster is full but the last, which has what is left, and that is something.
pub proof fn lemma_all_shards_but_the_last_are_full(layout: ClusterLayout, shard: int)
    requires
        layout.wf(),
        0 <= shard < layout.shards@.len(),
    ensures
        shard < layout.shards@.len() - 1 ==> layout.shards@[shard]
            == layout.worker_threads_per_shard,
        0 < layout.shards@[shard] <= layout.worker_threads_per_shard,
        layout.shards@[layout.shards@.len() - 1] == layout.worker_threads - (layout.shards@.len()
            - 1) * layout.worker_threads_per_shard,
{
    let threads = layout.worker_threads as int;
    let per_shard = layout.worker_threads_per_shard as int;
    let count = layout.shards@.len() as int;
    vstd::arithmetic::div_mod::lemma_fundamental_div_mod(threads + per_shard - 1, per_shard);
    vstd::arithmetic::div_mod::lemma_mod_bound(threads + per_shard - 1, per_shard);
    assert((count - 1) * per_shard < threads <= count * per_shard) by (nonlinear_arith)
        requires
            threads + per_shard - 1 == per_shard * count + (threads + per_shard - 1) % per_shard,
            0 <= (threads + per_shard - 1) % per_shard < per_shard,
    ;
    assert((count - 1) * per_shard == count * per_shard - per_shard) by (nonlinear_arith);
    assert(layout.shards@[shard] == shard_size(threads, per_shard, shard));
    assert(layout.shards@[count - 1] == shard_size(threads, per_shard, count - 1));
    if shard < count - 1 {
        assert(shard * per_shard + per_shard <= (count - 1) * per_shard) by (nonlinear_arith)
            requires
                shard + 1 <= count - 1,
                per_shard > 0,
        ;
    }
}

/// Ten tasks in a row go to a thread, then ten to the next, and after the last thread it is the first
/// again: in round `round`, the tasks of thread `thread` come behind those of all threads in the
/// rounds before and of the threads before it in this one.
pub proof fn lemma_turns_come_round(layout: ClusterLayout, round: nat, thread: int, task: nat)
    requires
        layout.wf(),
        0 <= thread < layout.worker_threads,
        task < 10,
    ensures
        layout.thread_of(((round * layout.worker_threads + thread) * 10 + task) as nat) == thread,
{
    let threads = layout.worker_threads as int;
    let turn = round * threads + thread;
    assert(turn >= 0) by (nonlinear_arith)
        requires
            turn == round * threads + thread,
            threads > 0,
            thread >= 0,
    ;
    vstd::arithmetic::div_mod::lemma_fundamental_div_mod_converse(
        turn * 10 + task,
        10,
        turn,
        task as int,
    );
    vstd::arithmetic::div_mod::lemma_fundamental_div_mod_converse(
        turn,
        threads,
        round as int,
        thread,
    );
}

} // verus!
