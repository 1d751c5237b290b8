//! The worker-pool strategy backed by the `async-std` crate.
//!
//! `async-std` manages its own process-wide scheduler, so this strategy
//! carries no state: it only forwards movable tasks to that scheduler. Beside
//! the uniform submission methods, [`spawn_handle`] gives callers committed
//! to this strategy the scheduler's own join handle, saving the extra remote
//! wrapping.

use vstd::prelude::*;

use crate::error::{Error, ErrorKind};
use crate::executor::Executor;
use crate::rt::Registry;

verus! {

#[verifier::external_type_specification]
#[verifier::external_body]
#[verifier::reject_recursive_types(T)]
pub struct ExJoinHandle<T>(async_std::task::JoinHandle<T>);

/// Relies on `async_std::task::spawn`: hands the task to async-std's
/// process-wide scheduler, which begins running it immediately and reports no
/// failure, and returns the scheduler's handle onto the task's output.
/// Dropping that handle detaches the task, which then simply keeps running.
#[verifier::external_body]
fn global_spawn<T: Send + 'static>(fut: futures::task::FutureObj<'static, T>) -> (r:
    async_std::task::JoinHandle<T>) {
    async_std::task::spawn(fut)
}

/// The process-wide scheduler of the `async-std` crate. Tasks begin running
/// as soon as they are submitted; thread-confined tasks are refused.
pub struct AsyncStd {}

impl AsyncStd {
    /// A handle onto async-std's process-wide scheduler.
    pub fn new() -> Self {
        AsyncStd {}
    }

    /// Hand a movable task to the scheduler; it starts running immediately,
    /// and the submission itself never fails. The scheduler's join handle is
    /// dropped, detaching the task.
    pub fn spawn(&self, fut: futures::task::FutureObj<'static, ()>) -> (r: Result<(), Error>)
        ensures
            r is Ok,
    {
        let _ = global_spawn(fut);
        Ok(())
    }

    /// A thread-confined task can never run on a worker pool.
    pub fn spawn_local(&self, _fut: futures::task::LocalFutureObj<'static, ()>) -> (r: Result<
        (),
        Error,
    >)
        ensures
            r matches Err(e) && e.kind_spec() == ErrorKind::SpawnLocalOnThreadPool,
    {
        Err(Error::new(ErrorKind::SpawnLocalOnThreadPool))
    }

    /// Hand a movable task to the scheduler and keep the handle to its
    /// output; the submission itself never fails.
    pub fn spawn_handle<T: Send + 'static>(&self, fut: futures::task::FutureObj<'static, T>) -> (r:
        Result<futures::future::RemoteHandle<T>, Error>)
        ensures
            r is Ok,
    {
        let (task, handle) = crate::task::remote_task(fut);
        let _ = global_spawn(task);
        Ok(handle)
    }

    /// A thread-confined task can never run on a worker pool.
    pub fn spawn_handle_local<T: Send + 'static>(
        &self,
        _fut: futures::task::LocalFutureObj<'static, T>,
    ) -> (r: Result<futures::future::RemoteHandle<T>, Error>)
        ensures
            r matches Err(e) && e.kind_spec() == ErrorKind::SpawnLocalOnThreadPool,
    {
        Err(Error::new(ErrorKind::SpawnLocalOnThreadPool))
    }
}

/// Submit a movable task directly to async-std and recover its output through
/// the scheduler's own join handle. This is specific to one strategy, so the
/// registry must be committed to it: on an empty registry this is refused as
/// [`ErrorKind::NoExecutorInitialized`], and under any other strategy as
/// [`ErrorKind::WrongExecutor`]; committed to async-std it always succeeds.
pub fn spawn_handle<T: Send + 'static>(
    rt: &Registry,
    fut: futures::task::FutureObj<'static, T>,
) -> (r: Result<async_std::task::JoinHandle<T>, Error>)
    ensures
        match rt@ {
            None => r matches Err(e) && e.kind_spec() == ErrorKind::NoExecutorInitialized,
            Some(c) => if c is AsyncStd {
                r is Ok
            } else {
                r matches Err(e) && e.kind_spec() == ErrorKind::WrongExecutor
            },
        },
{
    match &rt.slot {
        None => Err(Error::new(ErrorKind::NoExecutorInitialized)),
        Some(Executor::AsyncStd(_)) => Ok(global_spawn(fut)),
        Some(_) => Err(Error::new(ErrorKind::WrongExecutor)),
    }
}

} // verus!
