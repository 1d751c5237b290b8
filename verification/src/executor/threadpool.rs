//! The worker-pool strategy backed by `futures::executor::ThreadPool`.
//!
//! A submitted task starts running on a worker thread right away and may
//! resume on a different worker after every suspension point, so only
//! cross-thread-movable tasks are accepted.

use vstd::prelude::*;

use crate::error::{Error, ErrorKind};

verus! {

#[verifier::external_type_specification]
#[verifier::external_body]
pub struct ExThreadPool(futures::executor::ThreadPool);

/// Relies on `futures::executor::ThreadPool::new`: starts a pool with one
/// worker per CPU. Creation fails only when the OS refuses to start the
/// worker threads, which is fatal here, as it was nothing this crate's
/// callers could recover from.
#[verifier::external_body]
fn new_pool() -> (r: futures::executor::ThreadPool) {
    futures::executor::ThreadPool::new().expect("start the worker threads of the thread pool")
}

/// Relies on `futures::executor::ThreadPool::spawn_obj_ok`: hands the task to
/// the pool, which begins running it immediately; the call is documented and
/// implemented to always succeed.
#[verifier::external_body]
fn pool_spawn(pool: &futures::executor::ThreadPool, fut: futures::task::FutureObj<'static, ()>) {
    pool.spawn_obj_ok(fut)
}

/// A worker pool from the `futures` crate. Tasks begin running as soon as
/// they are submitted; no run call is needed, and thread-confined tasks are
/// refused.
///
/// Each committed registry starts a pool of its own, owned by this strategy
/// instance: the crate keeps no process-wide state, so two registries never
/// share one pool. The pool's worker threads carry no registry either, so a
/// task cannot submit further work by itself; a caller that needs that keeps
/// its registry outside the task and submits between run calls.
pub struct WorkerPool {
    pool: futures::executor::ThreadPool,
}

impl WorkerPool {
    /// Start a new worker pool.
    pub fn new() -> Self {
        WorkerPool { pool: new_pool() }
    }

    /// Hand a movable task to the pool; it starts running immediately, and
    /// the submission itself never fails.
    pub fn spawn(&self, fut: futures::task::FutureObj<'static, ()>) -> (r: Result<(), Error>)
        ensures
            r is Ok,
    {
        pool_spawn(&self.pool, fut);
        Ok(())
    }

    /// A thread-confined task can never run on a worker pool.
    pub fn spawn_local(&self, _fut: futures::task::LocalFutureObj<'static, ()>) -> (r: Result<
        (),
        Error,
    >)
        ensures
            r matches Err(e) && e.kind_spec() == ErrorKind::SpawnLocalOnThreadPool,
    {
        Err(Error::new(ErrorKind::SpawnLocalOnThreadPool))
    }

    /// Hand a movable task to the pool and keep the handle to its output; the
    /// submission itself never fails.
    pub fn spawn_handle<T: Send + 'static>(&self, fut: futures::task::FutureObj<'static, T>) -> (r:
        Result<futures::future::RemoteHandle<T>, Error>)
        ensures
            r is Ok,
    {
        let (task, handle) = crate::task::remote_task(fut);
        pool_spawn(&self.pool, task);
        Ok(handle)
    }

    /// A thread-confined task can never run on a worker pool.
    pub fn spawn_handle_local<T: Send + 'static>(
        &self,
        _fut: futures::task::LocalFutureObj<'static, T>,
    ) -> (r: Result<futures::future::RemoteHandle<T>, Error>)
        ensures
            r matches Err(e) && e.kind_spec() == ErrorKind::SpawnLocalOnThreadPool,
    {
        Err(Error::new(ErrorKind::SpawnLocalOnThreadPool))
    }
}

} // verus!
