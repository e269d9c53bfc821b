use std::sync::Arc;

use async_fuser::acl::SessionACL;
use async_fuser::channel::{
    resolve, with_nonblock, without_cloexec, wrote_everything, Waited, FD_CLOEXEC,
};
use async_fuser::dispatch::DispatchAction;
use async_fuser::errno::Errnos;
use async_fuser::error::{Error, ErrorKind};
use async_fuser::event_loop::{
    loop_step, plan_workers, received, ChannelSource, LoopEnd, LoopStep, Reception, RunDown,
    SessionRun,
};
use async_fuser::mount_options::{MountOption, MountOptionGroup, MountOptionKind};
use async_fuser::operation::{AnyRequest, Operation, RequestHeader, Version};
use async_fuser::platform::Platform;
use async_fuser::runtime::{
    execution_from_sync, runtime_flavor, ClusterLayout, JudgedSpawner, RuntimeFlavor, RuntimeStrategy,
    Spawner, SpawnerSource, SyncExecution, WorkerCount,
};
use async_fuser::session::{
    Config, Opening, OpeningAction, OpeningPhase, SessionSource, MAX_WRITE_SIZE,
};
use async_fuser::unmount::SlotStart;
use tokio::runtime::{Builder, Handle, Runtime};

// The error codes of the system that the tests run on.
const ERRNOS: Errnos = Errnos {
    eperm: libc::EPERM,
    enoent: libc::ENOENT,
    eintr: libc::EINTR,
    eio: libc::EIO,
    eagain: libc::EAGAIN,
    enomem: libc::ENOMEM,
    eacces: libc::EACCES,
    efault: libc::EFAULT,
    ebusy: libc::EBUSY,
    enodev: libc::ENODEV,
    einval: libc::EINVAL,
    enametoolong: libc::ENAMETOOLONG,
    enosys: libc::ENOSYS,
    eproto: libc::EPROTO,
    ecanceled: libc::ECANCELED,
};

type Strategy = RuntimeStrategy<Arc<Handle>, Arc<Handle>>;

fn current_thread() -> Runtime {
    Builder::new_current_thread().build().unwrap()
}

fn multi_thread() -> Runtime {
    Builder::new_multi_thread().worker_threads(4).build().unwrap()
}

fn unmanaged(workers: Option<usize>, event_loop: &Runtime, handler: &Runtime) -> Strategy {
    RuntimeStrategy::Unmanaged {
        n_event_loop_workers: workers.and_then(WorkerCount::new),
        event_loop_spawner: Arc::new(event_loop.handle().clone()),
        handler_spawner: Arc::new(handler.handle().clone()),
    }
}

fn managed(event_loop: usize, handler: usize) -> Strategy {
    RuntimeStrategy::Managed {
        n_event_loop_workers: WorkerCount::new(event_loop),
        n_handler_workers: WorkerCount::new(handler),
    }
}

// A runtime has as many workers as the machine runs threads in parallel, unless it is told otherwise.
fn parallelism() -> Option<WorkerCount> {
    WorkerCount::new(Runtime::new().unwrap().metrics().num_workers())
}

fn default_strategy(parallelism: Option<WorkerCount>) -> Strategy {
    let current = Handle::try_current().ok().map(Arc::new);
    RuntimeStrategy::for_environment(current.map(|h| (h.clone(), h)), parallelism)
}

#[test]
fn test_runtime_strategy_in_current_thread_context() {
    let parallelism = parallelism();
    current_thread().block_on(async {
        let strategy = default_strategy(parallelism);
        assert!(strategy.verify(Platform::Linux).is_ok());
        assert!(matches!(
            strategy,
            RuntimeStrategy::Managed {
                n_event_loop_workers: None,
                n_handler_workers,
            } if n_handler_workers == parallelism,
        ));
    });
}

#[test]
fn test_runtime_strategy_in_multi_thread_context() {
    let parallelism = parallelism();
    multi_thread().block_on(async {
        let strategy = default_strategy(parallelism);
        assert!(strategy.verify(Platform::Linux).is_ok());
        assert!(matches!(
            strategy,
            RuntimeStrategy::Unmanaged {
                n_event_loop_workers: None,
                handler_spawner,
                event_loop_spawner,
            } if event_loop_spawner.metrics().num_workers() == 4
            && handler_spawner.metrics().num_workers() == 4
        ));
    });
}

#[test]
fn strategy_without_a_runtime_is_managed() {
    let strategy = default_strategy(parallelism());
    assert!(matches!(strategy, RuntimeStrategy::Managed { n_event_loop_workers: None, .. }));
    assert!(strategy.verify(Platform::Other).is_ok());
}

#[test]
fn flavor_of_a_handle() {
    assert_eq!(runtime_flavor(current_thread().handle()), RuntimeFlavor::CurrentThread);
    assert_eq!(runtime_flavor(multi_thread().handle()), RuntimeFlavor::MultiThread);
}

#[test]
fn pools_are_valid_spawners() {
    let pool = rusty_pool::ThreadPool::new(1, 1, std::time::Duration::from_secs(0));
    assert!(Spawner::<()>::is_valid(&pool));
    assert!(Spawner::<Result<(), Error>>::is_valid(&Arc::new(pool)));
}

#[test]
fn judged_spawners_are_taken_at_their_word() {
    let judged = |valid| JudgedSpawner { spawner: "pool", valid };
    assert!(Spawner::<()>::is_valid(&judged(true)));
    let strategy = RuntimeStrategy::Unmanaged {
        n_event_loop_workers: None,
        event_loop_spawner: judged(false),
        handler_spawner: judged(true),
    };
    let error = strategy.verify(Platform::Linux).unwrap_err();
    assert_eq!(error.message, "event loop spawner is not valid");
}

#[test]
fn single_threaded_spawners_are_refused() {
    let (one, many) = (current_thread(), multi_thread());
    let fault = |strategy: Strategy| {
        let error = strategy.verify(Platform::Linux).unwrap_err();
        assert_eq!(error.kind(), ErrorKind::InvalidInput);
        error.message
    };
    assert_eq!(fault(unmanaged(None, &many, &one)), "handler spawner is not valid");
    assert_eq!(fault(unmanaged(None, &one, &many)), "event loop spawner is not valid");
    assert_eq!(fault(unmanaged(None, &one, &one)), "handler spawner is not valid");
    assert!(unmanaged(Some(2), &many, &many).verify(Platform::Linux).is_ok());
}

#[test]
fn linux_takes_what_others_take() {
    let error = managed(2, 1).verify(Platform::MacOs).unwrap_err();
    assert_eq!(error.kind(), ErrorKind::Other);
    assert_eq!(error.message, "n_event_loop_workers != 1 is only supported on Linux");
    assert!(managed(2, 1).verify(Platform::Linux).is_ok());
    assert!(managed(1, 8).verify(Platform::Other).is_ok());
    assert!(managed(0, 0).verify(Platform::Other).is_ok());
}

#[test]
fn worker_counts() {
    assert!(WorkerCount::new(0).is_none());
    assert_eq!(WorkerCount::new(3).unwrap().get(), 3);
    assert_eq!(WorkerCount::one().get(), 1);
    assert_eq!(managed(0, 0).event_loop_workers().get(), 1);
    assert_eq!(managed(5, 0).event_loop_workers().get(), 5);
    let many = multi_thread();
    assert_eq!(unmanaged(Some(2), &many, &many).event_loop_workers().get(), 2);
}

#[test]
fn clone_of_a_strategy_has_its_settings() {
    let copy = managed(3, 2).clone();
    assert!(matches!(
        copy,
        RuntimeStrategy::Managed { n_event_loop_workers, n_handler_workers }
            if n_event_loop_workers == WorkerCount::new(3)
                && n_handler_workers == WorkerCount::new(2)
    ));
    let many = multi_thread();
    match unmanaged(Some(2), &many, &many).clone() {
        RuntimeStrategy::Unmanaged { n_event_loop_workers, handler_spawner, .. } => {
            assert_eq!(n_event_loop_workers, WorkerCount::new(2));
            assert_eq!(handler_spawner.metrics().num_workers(), 4);
        }
        other => panic!("{:?}", other),
    }
    assert!(!JudgedSpawner { spawner: 1, valid: false }.clone().valid);
}

#[test]
fn plan_has_the_spawners_of_the_strategy() {
    let strategy = managed(3, 0);
    let plan = strategy.build();
    assert!(matches!(plan.event_loop, SpawnerSource::NewPool { threads: 3 }));
    assert!(matches!(plan.handler, SpawnerSource::NewPool { threads: 1 }));
    assert_eq!(plan.core.flavor, RuntimeFlavor::MultiThread);
    assert_eq!(plan.core.task_name, "async_fuser::background");
    assert_eq!(plan.core.thread_name, "afuser-core");
    assert_eq!((plan.core.threads, plan.core.block_on_drop), (1, false));
    let many = multi_thread();
    let strategy = unmanaged(None, &many, &many);
    match strategy.build().handler {
        SpawnerSource::Provided(handle) => assert_eq!(handle.metrics().num_workers(), 4),
        other => panic!("{:?}", other),
    }
}

#[test]
fn sync_code_waits_where_it_does_not_block_the_future() {
    assert_eq!(
        execution_from_sync(Some(RuntimeFlavor::CurrentThread)),
        SyncExecution::NewRuntimeOnNewThread
    );
    assert_eq!(
        execution_from_sync(Some(RuntimeFlavor::MultiThread)),
        SyncExecution::CurrentRuntime
    );
    assert_eq!(execution_from_sync(None), SyncExecution::NewRuntime);
}

#[test]
fn shards_have_all_threads() {
    assert_eq!(ClusterLayout::new(10, 4).unwrap().shards, [4, 4, 2]);
    assert_eq!(ClusterLayout::new(8, 4).unwrap().shards, [4, 4]);
    assert_eq!(ClusterLayout::new(1, 4).unwrap().shards, [1]);
    assert_eq!(ClusterLayout::new(10, 4).unwrap().len(), 3);
    assert_eq!(ClusterLayout::new(7, usize::MAX).unwrap().shards, [7]);
    for (threads, per_shard) in [(0, 1), (1, 0), (0, 0)] {
        let error = ClusterLayout::new(threads, per_shard).unwrap_err();
        assert_eq!(error.kind(), ErrorKind::InvalidInput);
        assert_eq!(
            error.message,
            "worker_threads and worker_threads_per_shard must be greater than 0"
        );
    }
}

#[test]
fn threads_take_turns() {
    let layout = ClusterLayout::new(10, 4).unwrap();
    let turns = [0, 0, 0, 0, 1, 1, 1, 1, 2, 2, 0];
    for (thread, shard) in turns.into_iter().enumerate() {
        for task in 0..10 {
            assert_eq!(layout.shard_for(thread * 10 + task), shard);
        }
    }
    assert!(layout.shard_for(usize::MAX) < 3);
}

#[test]
fn shards_get_tasks_by_their_size() {
    let layout = ClusterLayout::new(7, 3).unwrap();
    let mut tasks = vec![0; layout.len()];
    for counter in 0..70 {
        tasks[layout.shard_for(counter)] += 1;
    }
    assert_eq!(tasks, [30, 30, 10]);
}

#[test]
fn descriptor_flags() {
    assert_eq!(FD_CLOEXEC, libc::FD_CLOEXEC);
    assert_eq!(without_cloexec(libc::FD_CLOEXEC | 6), Some(6));
    assert_eq!(without_cloexec(6), None);
    assert_eq!(with_nonblock(libc::O_RDWR, libc::O_NONBLOCK), libc::O_RDWR | libc::O_NONBLOCK);
}

#[test]
fn writes_are_all_or_nothing() {
    assert!(wrote_everything(&vec![16, 0, 4], 20));
    assert!(!wrote_everything(&vec![16, 0, 4], 19));
    assert!(!wrote_everything(&vec![16, 0, 4], 21));
    assert!(wrote_everything(&vec![], 0));
    assert!(!wrote_everything(&vec![usize::MAX, 1], 0));
}

#[test]
fn cancellation_ends_the_loop() {
    let outcome = resolve::<usize>(ERRNOS, Waited::Cancelled(None));
    assert_eq!(outcome.as_ref().unwrap_err().raw_os_error(), Some(libc::ECANCELED));
    assert!(matches!(received(ERRNOS, outcome), Reception::Stop));
    assert_eq!(resolve(ERRNOS, Waited::Cancelled(Some(Ok(7)))).unwrap(), 7);
    assert_eq!(resolve(ERRNOS, Waited::Completed(Ok(8))).unwrap(), 8);
    let failure = resolve::<u8>(ERRNOS, Waited::Completed(Err(Error::other("e"))));
    assert_eq!(failure.unwrap_err().message, "e");
}

#[test]
fn reception() {
    let of_code = |code| received(ERRNOS, Err(Error::from_raw_os_error(code)));
    assert!(matches!(received(ERRNOS, Ok(40)), Reception::Request { size: 40 }));
    assert!(matches!(of_code(libc::ENODEV), Reception::Stop));
    match of_code(libc::EIO) {
        Reception::Fail { error } => assert_eq!(error.raw_os_error(), Some(libc::EIO)),
        other => panic!("{:?}", other),
    }
}

#[test]
fn loop_steps() {
    let request = |uid, operation| {
        let header = RequestHeader { unique: 8, nodeid: 1, uid, gid: 0, pid: 0 };
        Some(AnyRequest { header, operation })
    };
    match loop_step(ERRNOS, SessionACL::Owner, 1000, None) {
        LoopStep::Fail { error } => {
            assert_eq!(error.kind(), ErrorKind::InvalidData);
            assert_eq!(error.message, "Invalid request");
        }
        other => panic!("{:?}", other),
    }
    // Whoever says goodbye is believed.
    let goodbye = request(7, Some(Operation::Destroy));
    let step = loop_step(ERRNOS, SessionACL::Owner, 1000, goodbye);
    assert!(matches!(step, LoopStep::ReplyOkAndStop { unique: 8 }));
    match loop_step(ERRNOS, SessionACL::Owner, 1000, request(7, Some(Operation::StatFs))) {
        LoopStep::Dispatch(DispatchAction::ReplyErrno { unique, errno }) => {
            assert_eq!((unique, errno.code()), (8, libc::EACCES));
        }
        other => panic!("{:?}", other),
    }
}

#[test]
fn workers_are_told_apart() {
    let count = |n| WorkerCount::new(n).unwrap();
    let layout = |n, clone_fd, platform| {
        let workers = plan_workers(count(n), clone_fd, platform).unwrap();
        assert!(workers.iter().all(|w| w.task_name == "async_fuser::event_loop"));
        workers.into_iter().map(|w| (w.name, w.channel)).collect::<Vec<_>>()
    };
    let named = |i: usize, channel| (format!("fuser-{}", i), channel);
    assert_eq!(
        layout(3, true, Platform::Linux),
        [
            named(0, ChannelSource::Cloned),
            named(1, ChannelSource::Cloned),
            named(2, ChannelSource::Primary),
        ]
    );
    assert_eq!(
        layout(2, false, Platform::Other),
        [named(0, ChannelSource::Shared), named(1, ChannelSource::Primary)]
    );
    assert_eq!(layout(1, true, Platform::Other), [named(0, ChannelSource::Primary)]);
    let error = plan_workers(count(2), true, Platform::MacOs).unwrap_err();
    assert_eq!(error.kind(), ErrorKind::Other);
    assert_eq!(error.message, "clone_fd is only supported on Linux");
    assert_eq!(layout(12, false, Platform::Linux)[10].0, "fuser-10");
}

fn run(loops: usize) -> SessionRun {
    SessionRun::new(WorkerCount::new(loops).unwrap())
}

fn result_of(next: RunDown) -> Result<(), Error> {
    match next {
        RunDown::Return(result) => result,
        other => panic!("{:?}", other),
    }
}

#[test]
fn filesystem_is_destroyed_once_after_all_tasks() {
    let mut session = run(2);
    let next = session.on_loop_end(LoopEnd::Returned(Ok(())));
    assert!(matches!(next, RunDown::AwaitLoop));
    let next = session.on_loop_end(LoopEnd::Returned(Ok(())));
    assert!(matches!(next, RunDown::Drain { cancel: false }));
    assert!(matches!(session.on_drained(true), RunDown::DestroyFilesystem));
    assert!(result_of(session.on_destroyed()).is_ok());
}

#[test]
fn session_reports_its_loops() {
    let mut session = run(4);
    session.on_loop_end(LoopEnd::Returned(Ok(())));
    session.on_loop_end(LoopEnd::Returned(Err(Error::other("first"))));
    session.on_loop_end(LoopEnd::Returned(Err(Error::other("second"))));
    let next = session.on_loop_end(LoopEnd::Returned(Ok(())));
    assert!(matches!(next, RunDown::Drain { cancel: false }));
    session.on_drained(true);
    assert_eq!(result_of(session.on_destroyed()).unwrap_err().message, "second");
}

#[test]
fn lost_loop_is_reported() {
    let mut session = run(3);
    session.on_loop_end(LoopEnd::Returned(Err(Error::other("first"))));
    let next = session.on_loop_end(LoopEnd::Lost);
    assert!(matches!(next, RunDown::Drain { cancel: true }));
    session.on_drained(true);
    let error = result_of(session.on_destroyed()).unwrap_err();
    assert_eq!(error.kind(), ErrorKind::Other);
    assert_eq!(error.message, "event loop thread panicked");
}

#[test]
fn filesystem_that_is_held_cannot_be_destroyed() {
    let mut session = run(1);
    session.on_loop_end(LoopEnd::Returned(Ok(())));
    let error = result_of(session.on_drained(false)).unwrap_err();
    assert_eq!(error.kind(), ErrorKind::Other);
    assert_eq!(error.message, "BUG: must have one refcount for filesystem");
}

fn config(auto_unmount: bool, acl: SessionACL, workers: usize) -> Config<Arc<Handle>, Arc<Handle>> {
    let option = MountOption {
        kind: MountOptionKind::AutoUnmount,
        group: MountOptionGroup::Fusermount,
        text: "auto_unmount".to_string(),
        flag: Ok(0),
    };
    Config {
        mount_options: if auto_unmount { vec![option] } else { vec![] },
        acl,
        runtime_strategy: managed(workers, 1),
        clone_fd: false,
    }
}

#[test]
fn configuration_is_checked_in_order() {
    assert_eq!(MAX_WRITE_SIZE, 16 * 1024 * 1024);
    let fine = config(false, SessionACL::Owner, 2);
    assert!(fine.prepare(Ok(()), Platform::Linux).is_ok());
    let conflict = || Err(Error::new(ErrorKind::InvalidInput, "conflict"));
    let error = fine.prepare(conflict(), Platform::Other).unwrap_err();
    assert_eq!(error.message, "conflict");
    let error = fine.prepare(Ok(()), Platform::Other).unwrap_err();
    assert_eq!(error.message, "n_event_loop_workers != 1 is only supported on Linux");
}

#[test]
fn auto_unmount_needs_an_open_filesystem() {
    let error = config(true, SessionACL::Owner, 1).check_mount().unwrap_err();
    assert_eq!(error.kind(), ErrorKind::InvalidInput);
    assert_eq!(error.message, "auto_unmount requires acl != Owner, got: Owner");
    assert!(config(true, SessionACL::RootAndOwner, 1).check_mount().is_ok());
    assert!(config(true, SessionACL::All, 1).check_mount().is_ok());
    assert!(config(false, SessionACL::Owner, 1).check_mount().is_ok());
}

const VERSION: Version = Version { major: 7, minor: 31 };

#[test]
fn session_opens_step_by_step() {
    let config = config(false, SessionACL::Owner, 1);
    let mut opening = Opening::new(&config, SessionSource::Mountpoint);
    let first = opening.start(Ok(()), Platform::Linux);
    assert!(matches!(first, OpeningAction::BuildRuntime(_)));
    assert!(matches!(opening.on_runtime(Ok(())), OpeningAction::Mount));
    assert!(matches!(opening.on_mounted(Ok("mount")), OpeningAction::Handshake));
    assert_eq!(opening.proto_version(), None);
    assert!(matches!(opening.on_handshake(Ok(VERSION)), OpeningAction::Open));
    assert_eq!(opening.proto_version(), Some(VERSION));
    assert!(matches!(opening.slot.start_umount(), SlotStart::Proceed("mount")));
}

#[test]
fn session_on_a_descriptor_has_nothing_to_unmount() {
    // Neither the mount options nor the access rule matter to it.
    let config = config(true, SessionACL::Owner, 1);
    let mut opening = Opening::<_, _, &str>::new(&config, SessionSource::Descriptor);
    let first = opening.start(Err(Error::other("conflict")), Platform::Linux);
    assert!(matches!(first, OpeningAction::BuildRuntime(_)));
    assert!(matches!(opening.on_runtime(Ok(())), OpeningAction::TakeDevice));
    assert!(matches!(opening.on_device(Ok(())), OpeningAction::Handshake));
    assert!(matches!(opening.on_handshake(Ok(VERSION)), OpeningAction::Open));
    assert_eq!(opening.proto_version(), Some(VERSION));
    assert!(matches!(opening.slot.start_umount(), SlotStart::Done(Ok(()))));
}

#[test]
fn opening_may_fail_at_each_step() {
    let fine = config(false, SessionACL::Owner, 1);
    let error = || Error::other("no");
    let message = |action| match action {
        OpeningAction::Fail(error) => error.message,
        other => panic!("{:?}", other),
    };
    let start = |config, source| {
        let mut opening = Opening::<_, _, &str>::new(config, source);
        opening.start(Ok(()), Platform::Linux);
        opening
    };
    let mut opening = Opening::<_, _, &str>::new(&fine, SessionSource::Mountpoint);
    assert_eq!(message(opening.start(Err(error()), Platform::Linux)), "no");
    assert_eq!(opening.phase, OpeningPhase::Failed);
    let mut opening = start(&fine, SessionSource::Mountpoint);
    assert_eq!(message(opening.on_runtime(Err(error()))), "no");
    let mut opening = start(&fine, SessionSource::Mountpoint);
    opening.on_runtime(Ok(()));
    assert_eq!(message(opening.on_mounted(Err(error()))), "no");
    assert!(opening.slot.mount.is_none());
    let mut opening = start(&fine, SessionSource::Descriptor);
    opening.on_runtime(Ok(()));
    assert_eq!(message(opening.on_device(Err(error()))), "no");
    let mut opening = start(&fine, SessionSource::Descriptor);
    opening.on_runtime(Ok(()));
    opening.on_device(Ok(()));
    assert_eq!(message(opening.on_handshake(Err(error()))), "no");
    assert_eq!(opening.proto_version(), None);
    let closed = config(true, SessionACL::Owner, 1);
    let mut opening = start(&closed, SessionSource::Mountpoint);
    assert_eq!(
        message(opening.on_runtime(Ok(()))),
        "auto_unmount requires acl != Owner, got: Owner"
    );
}
