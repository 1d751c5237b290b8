// The worker pool of the futures crate: submitted tasks run without any
// drive call, communicate over channels, hand their outputs back through
// handles, and thread-confined submissions are refused.

use async_runtime::{
    init, spawn, spawn_handle, spawn_handle_local, spawn_local, Config, ErrorKind, Registry,
};

use async_runtime::block_on;
use futures::channel::oneshot;
use futures::future::FutureExt;
use futures::task::{FutureObj, LocalFutureObj};

#[test]
fn threadpool_basic_spawn() {
    let mut rt = Registry::new();
    init(&mut rt, Config::ThreadPool).expect("no double executor init");

    let (tx, rx) = oneshot::channel();

    let task = async move {
        tx.send(2u8).expect("send on channel");
    };

    spawn(&mut rt, FutureObj::new(Box::pin(task))).expect("Spawn task");

    block_on(LocalFutureObj::new(Box::pin(async move {
        assert_eq!(2u8, rx.await.expect("wait on channel"));
    })));
}

#[test]
fn threadpool_spawn_boxed() {
    let mut rt = Registry::new();
    init(&mut rt, Config::ThreadPool).expect("no double executor init");

    let (tx, rx) = oneshot::channel();

    let task = async move {
        tx.send(5).expect("send on channel");
    }
    .boxed();

    spawn(&mut rt, FutureObj::new(task)).expect("Spawn task");

    block_on(LocalFutureObj::new(Box::pin(async move {
        assert_eq!(5, rx.await.expect("wait on channel"));
    })));
}

#[test]
fn threadpool_several() {
    let mut rt = Registry::new();
    init(&mut rt, Config::ThreadPool).expect("no double executor init");

    let (tx, rx) = oneshot::channel();
    let (tx2, rx2) = oneshot::channel();

    let task = async move {
        tx2.send(4 + rx.await.expect("channel"))
            .expect("send on channel");
    };

    let task2 = async move {
        tx.send(2).expect("send on channel");
    };

    spawn(&mut rt, FutureObj::new(Box::pin(task))).expect("Spawn task");
    spawn(&mut rt, FutureObj::new(Box::pin(task2))).expect("Spawn task2");

    block_on(LocalFutureObj::new(Box::pin(async move {
        assert_eq!(6, rx2.await.expect("wait on channel"));
    })));
}

// Trigger SpawnLocalOnThreadPool.
#[test]
fn threadpool_spawn_local_on_thread_pool() {
    let mut rt = Registry::new();
    init(&mut rt, Config::ThreadPool).expect("no double executor init");

    let res = spawn_local(&mut rt, LocalFutureObj::new(Box::pin(async {})));

    assert_eq!(&ErrorKind::SpawnLocalOnThreadPool, res.unwrap_err().kind());
}

// Spawn_handle, return string.
#[test]
fn threadpool_spawn_handle() {
    let mut rt = Registry::new();
    init(&mut rt, Config::ThreadPool).expect("no double executor init");

    let handle = spawn_handle(
        &mut rt,
        FutureObj::new(Box::pin(async { "hello".to_string() })),
    )
    .expect("spawn_handle");

    block_on(LocalFutureObj::new(Box::pin(async {
        assert_eq!("hello", &handle.await);
    })));
}

// Verify that we cannot spawn !Send futures through a handle either.
#[test]
fn threadpool_spawn_handle_local() {
    let mut rt = Registry::new();
    init(&mut rt, Config::ThreadPool).expect("no double executor init");

    let handle = spawn_handle_local(&mut rt, LocalFutureObj::new(Box::pin(async {})));

    if let Err(error) = handle {
        assert_eq!(&ErrorKind::SpawnLocalOnThreadPool, error.kind());
    } else {
        panic!("spawn_handle_local should return an error on threadpools");
    }
}
