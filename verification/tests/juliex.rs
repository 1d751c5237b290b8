// The juliex worker pool: a submitted task runs without any drive call and
// its result comes back over a channel.

use async_runtime::{block_on, init, spawn, Config, Registry};
use futures::channel::oneshot;
use futures::future::FutureExt;
use futures::task::{FutureObj, LocalFutureObj};

#[test]
fn juliex_basic_spawn() {
    let mut rt = Registry::new();
    init(&mut rt, Config::Juliex).expect("no double executor init");

    let (tx, rx) = oneshot::channel();

    let task = async move {
        tx.send(2u8).expect("send on channel");
    };

    spawn(&mut rt, FutureObj::new(Box::pin(task))).expect("Spawn task");

    block_on(LocalFutureObj::new(Box::pin(async move {
        assert_eq!(2u8, rx.await.expect("wait on channel"));
    })));
}

#[test]
fn spawn_config() {
    let (tx, rx) = oneshot::channel();

    let mut rt = Registry::new();
    init(&mut rt, Config::Juliex).expect("no double executor init");

    let task = async move {
        tx.send(3u8).expect("send on channel");
    };

    spawn(&mut rt, FutureObj::new(Box::pin(task))).expect("Spawn task");

    block_on(LocalFutureObj::new(Box::pin(async move {
        assert_eq!(3u8, rx.await.expect("wait on channel"));
    })));
}

#[test]
fn juliex_spawn_boxed() {
    let mut rt = Registry::new();
    init(&mut rt, Config::Juliex).expect("no double executor init");

    let (tx, rx) = oneshot::channel();

    let task = async move {
        tx.send(5).expect("send on channel");
    }
    .boxed();

    spawn(&mut rt, FutureObj::new(task)).expect("Spawn task");

    block_on(LocalFutureObj::new(Box::pin(async move {
        assert_eq!(5, rx.await.expect("wait on channel"));
    })));
}

#[test]
fn juliex_several() {
    let mut rt = Registry::new();
    init(&mut rt, Config::Juliex).expect("no double executor init");

    let (tx, rx) = oneshot::channel();
    let (tx2, rx2) = oneshot::channel();

    let task = async move {
        tx2.send(4 + rx.await.expect("channel"))
            .expect("send on channel");
    };

    let task2 = async move {
        tx.send(2).expect("send on channel");
    };

    spawn(&mut rt, FutureObj::new(Box::pin(task))).expect("Spawn task");
    spawn(&mut rt, FutureObj::new(Box::pin(task2))).expect("Spawn task2");

    block_on(LocalFutureObj::new(Box::pin(async move {
        assert_eq!(6, rx2.await.expect("wait on channel"));
    })));
}
