// The registry's uniform interface: inspection, double-commit errors, and the
// refusal of every submission variant on an uncommitted registry.

use async_runtime::{
    block_on, current_rt, init, spawn, spawn_handle, spawn_handle_local, spawn_local, Config,
    ErrorKind, Registry,
};
use futures::channel::oneshot;
use futures::future::FutureExt;
use futures::task::{FutureObj, LocalFutureObj};

#[test]
fn rt_init_localpool() {
    let mut rt = Registry::new();
    assert_eq!(None, current_rt(&rt));

    init(&mut rt, Config::LocalPool).expect("no double executor init");

    assert_eq!(Some(Config::LocalPool), current_rt(&rt));
}

#[test]
fn rt_init_juliex() {
    let mut rt = Registry::new();
    assert_eq!(None, current_rt(&rt));

    init(&mut rt, Config::Juliex).expect("no double executor init");

    assert_eq!(Some(Config::Juliex), current_rt(&rt));
}

#[test]
fn rt_init_async_std() {
    let mut rt = Registry::new();
    assert_eq!(None, current_rt(&rt));

    init(&mut rt, Config::AsyncStd).expect("no double executor init");

    assert_eq!(Some(Config::AsyncStd), current_rt(&rt));
}

// Trigger DoubleExecutorInit with 2 threadpool executors.
#[test]
fn double_init_pool() {
    let mut rt = Registry::new();

    init(&mut rt, Config::Juliex).expect("no double executor init");
    let result = init(&mut rt, Config::Juliex);

    assert_eq!(&ErrorKind::DoubleExecutorInit, result.unwrap_err().kind());
}

// Trigger DoubleExecutorInit with 2 different executors.
#[test]
fn rt_double_init_different() {
    let mut rt = Registry::new();

    init(&mut rt, Config::LocalPool).expect("no double executor init");
    let result = init(&mut rt, Config::Juliex);

    assert_eq!(&ErrorKind::DoubleExecutorInit, result.unwrap_err().kind());
}

#[test]
fn rt_double_init_inverse() {
    let mut rt = Registry::new();

    init(&mut rt, Config::Juliex).expect("no double executor init");
    let result = init(&mut rt, Config::LocalPool);

    assert_eq!(&ErrorKind::DoubleExecutorInit, result.unwrap_err().kind());
}

// spawn should error if no executor initialized
#[test]
fn spawn_without_init() {
    let mut rt = Registry::new();

    let result = spawn(&mut rt, FutureObj::new(Box::pin(async {})));

    assert_eq!(&ErrorKind::NoExecutorInitialized, result.unwrap_err().kind());
}

// spawn_local should error if no executor initialized
#[test]
fn spawn_local_without_init() {
    let mut rt = Registry::new();

    let result = spawn_local(&mut rt, LocalFutureObj::new(Box::pin(async {})));

    assert_eq!(&ErrorKind::NoExecutorInitialized, result.unwrap_err().kind());
}

// spawn_handle should error if no executor initialized
#[test]
fn spawn_handle_without_init() {
    let mut rt = Registry::new();

    let handle = spawn_handle(&mut rt, FutureObj::new(Box::pin(async {})));

    if let Err(error) = handle {
        assert_eq!(&ErrorKind::NoExecutorInitialized, error.kind());
    } else {
        panic!("spawn_handle should return an error when no executor initialized");
    }
}

// spawn_handle_local should error if no executor initialized
#[test]
fn spawn_handle_local_without_init() {
    let mut rt = Registry::new();

    let handle = spawn_handle_local(&mut rt, LocalFutureObj::new(Box::pin(async {})));

    if let Err(error) = handle {
        assert_eq!(&ErrorKind::NoExecutorInitialized, error.kind());
    } else {
        panic!("spawn_handle should return an error when no executor initialized");
    }
}

#[test]
fn rt_block_on() {
    let (tx, rx) = oneshot::channel();

    block_on(LocalFutureObj::new(Box::pin(async {
        tx.send(2).expect("send on channel");
    })));

    block_on(LocalFutureObj::new(Box::pin(async move {
        let num: u8 = rx.await.expect("wait for channel");
        assert_eq!(2, num);
    })));
}

#[test]
fn rt_block_on_boxed() {
    let (tx, rx) = oneshot::channel();

    block_on(LocalFutureObj::new(
        async {
            tx.send(2).expect("send on channel");
        }
        .boxed(),
    ));

    block_on(LocalFutureObj::new(
        async move {
            let num: u8 = rx.await.expect("wait for channel");
            assert_eq!(2, num);
        }
        .boxed(),
    ));
}
