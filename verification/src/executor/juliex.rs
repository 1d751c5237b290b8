//! The worker-pool strategy backed by the `juliex` crate.
//!
//! `juliex` keeps one process-wide pool of its own, started lazily on the
//! first spawn, so this strategy carries no state: it only forwards movable
//! tasks to that pool.

use vstd::prelude::*;

use crate::error::{Error, ErrorKind};

verus! {

/// Relies on `juliex::spawn`: hands the task to juliex's process-wide pool,
/// starting the pool on first use; it begins running the task immediately and
/// reports no failure.
#[verifier::external_body]
fn global_spawn(fut: futures::task::FutureObj<'static, ()>) {
    juliex::spawn(fut)
}

/// The process-wide worker pool of the `juliex` crate. Tasks begin running as
/// soon as they are submitted; thread-confined tasks are refused.
pub struct Juliex {}

impl Juliex {
    /// A handle onto juliex's process-wide pool; the pool itself is started
    /// lazily by the first spawn.
    pub fn new() -> Self {
        Juliex {}
    }

    /// Hand a movable task to the pool; it starts running immediately.
    pub fn spawn(&self, fut: futures::task::FutureObj<'static, ()>) -> (r: Result<(), Error>)
        ensures
            r is Ok,
    {
        global_spawn(fut);
        Ok(())
    }

    /// A thread-confined task can never run on a worker pool.
    pub fn spawn_local(&self, _fut: futures::task::LocalFutureObj<'static, ()>) -> (r: Result<
        (),
        Error,
    >)
        ensures
            r matches Err(e) && e.kind_spec() == ErrorKind::SpawnLocalOnThreadPool,
    {
        Err(Error::new(ErrorKind::SpawnLocalOnThreadPool))
    }

    /// Hand a movable task to the pool and keep the handle to its output.
    pub fn spawn_handle<T: Send + 'static>(&self, fut: futures::task::FutureObj<'static, T>) -> (r:
        Result<futures::future::RemoteHandle<T>, Error>)
        ensures
            r is Ok,
    {
        let (task, handle) = crate::task::remote_task(fut);
        global_spawn(task);
        Ok(handle)
    }

    /// A thread-confined task can never run on a worker pool.
    pub fn spawn_handle_local<T: Send + 'static>(
        &self,
        _fut: futures::task::LocalFutureObj<'static, T>,
    ) -> (r: Result<futures::future::RemoteHandle<T>, Error>)
        ensures
            r matches Err(e) && e.kind_spec() == ErrorKind::SpawnLocalOnThreadPool,
    {
        Err(Error::new(ErrorKind::SpawnLocalOnThreadPool))
    }
}

} // verus!
