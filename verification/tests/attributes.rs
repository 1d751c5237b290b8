// Turning an async function into a plain callable: commit idempotently, submit
// the body, drive the pool, and block on the handle — the sequence a wrapping
// entry point performs around this library.

use async_runtime::{block_on, init_allow_same, localpool, spawn_handle_local, Config, Registry};
use futures::task::LocalFutureObj;

fn hello_world() -> String {
    let mut rt = Registry::new();

    init_allow_same(&mut rt, Config::LocalPool).expect("no double executor init");

    let body = async move { format!("You succesfully spawned a future") };

    let handle = spawn_handle_local(&mut rt, LocalFutureObj::new(Box::pin(body)))
        .expect("spawn from entry point wrapper");

    localpool::run(&mut rt).expect("LocalPool executor");

    block_on(LocalFutureObj::new(Box::pin(handle)))
}

// call an async method from a sync method
#[test]
fn call_async() {
    assert_eq!(&hello_world(), "You succesfully spawned a future");
}
