//! The cooperative single-thread strategy, backed by
//! `futures::executor::LocalPool`.
//!
//! Submitting never runs anything here: tasks sit in the pool until one of
//! the run calls drives them, on the thread that owns the pool. In return
//! this is the one strategy that accepts thread-confined tasks.

use vstd::prelude::*;

use crate::config::Config;
use crate::error::{Error, ErrorKind};
use crate::executor::Executor;
use crate::rt::Registry;

verus! {

/// The dispatch rule for the run calls of this module: they need a committed
/// cooperative pool, and report exactly what is missing otherwise.
pub open spec fn localpool_dispatch(state: Option<Config>) -> Option<ErrorKind> {
    match state {
        None => Some(ErrorKind::NoExecutorInitialized),
        Some(c) => if c is LocalPool {
            None
        } else {
            Some(ErrorKind::WrongExecutor)
        },
    }
}

#[verifier::external_type_specification]
#[verifier::external_body]
pub struct ExLocalPool(futures::executor::LocalPool);

#[verifier::external_type_specification]
#[verifier::external_body]
pub struct ExLocalSpawner(futures::executor::LocalSpawner);

/// Relies on `futures::executor::LocalPool::new`: a new, empty pool.
#[verifier::external_body]
fn new_pool() -> (r: futures::executor::LocalPool) {
    futures::executor::LocalPool::new()
}

/// Relies on `futures::executor::LocalPool::spawner`: a handle through which
/// tasks can be put into this pool.
#[verifier::external_body]
fn pool_spawner(pool: &futures::executor::LocalPool) -> (r: futures::executor::LocalSpawner) {
    pool.spawner()
}

/// Relies on `futures::task::LocalSpawn::spawn_local_obj` on `LocalSpawner`:
/// queues the task on the pool; it refuses only when the pool the spawner
/// came from is gone.
#[verifier::external_body]
fn spawner_spawn(
    spawner: &futures::executor::LocalSpawner,
    fut: futures::task::LocalFutureObj<'static, ()>,
) -> (r: Result<(), futures::task::SpawnError>) {
    futures::task::LocalSpawn::spawn_local_obj(spawner, fut)
}

/// Relies on `futures::executor::LocalPool::run`: drives every queued task,
/// including ones spawned meanwhile, until all of them have completed.
#[verifier::external_body]
fn pool_run(pool: &mut futures::executor::LocalPool) {
    pool.run()
}

/// Relies on `futures::executor::LocalPool::run_until`: drives the pool until
/// the given future completes, and returns that future's output.
#[verifier::external_body]
fn pool_run_until<T>(
    pool: &mut futures::executor::LocalPool,
    fut: futures::task::LocalFutureObj<'static, T>,
) -> (r: T) {
    pool.run_until(fut)
}

/// Relies on `futures::executor::LocalPool::try_run_one`: makes progress
/// without blocking and reports whether one task ran to completion.
#[verifier::external_body]
fn pool_try_run_one(pool: &mut futures::executor::LocalPool) -> (r: bool) {
    pool.try_run_one()
}

/// Relies on `futures::executor::LocalPool::run_until_stalled`: drives every
/// queued task until none can make progress without new external input.
#[verifier::external_body]
fn pool_run_until_stalled(pool: &mut futures::executor::LocalPool) {
    pool.run_until_stalled()
}

/// The cooperative single-thread executor. It accepts both movable and
/// thread-confined tasks, and runs them only while one of the run methods is
/// driving it.
pub struct CooperativePool {
    pool: futures::executor::LocalPool,
    spawner: futures::executor::LocalSpawner,
}

impl CooperativePool {
    /// Create a new, empty cooperative pool.
    pub fn new() -> Self {
        let pool = new_pool();
        let spawner = pool_spawner(&pool);
        CooperativePool { pool, spawner }
    }

    /// Drive every queued task to completion, blocking this thread.
    pub fn run(&mut self) {
        pool_run(&mut self.pool);
    }

    /// Drive the pool until `fut` completes and return its output.
    pub fn run_until<T>(&mut self, fut: futures::task::LocalFutureObj<'static, T>) -> T {
        pool_run_until(&mut self.pool, fut)
    }

    /// Make progress without blocking; true when one task ran to completion.
    pub fn try_run_one(&mut self) -> bool {
        pool_try_run_one(&mut self.pool)
    }

    /// Drive every queued task until none can progress without new input.
    pub fn run_until_stalled(&mut self) {
        pool_run_until_stalled(&mut self.pool);
    }

    /// Queue a movable task; it is treated exactly as a thread-confined one.
    pub fn spawn(&self, fut: futures::task::FutureObj<'static, ()>) -> (r: Result<(), Error>)
        ensures
            r matches Err(e) ==> e.kind_spec() == ErrorKind::Spawn,
    {
        self.spawn_local(crate::task::into_local_task(fut))
    }

    /// Queue a thread-confined task until the next run call.
    pub fn spawn_local(&self, fut: futures::task::LocalFutureObj<'static, ()>) -> (r: Result<
        (),
        Error,
    >)
        ensures
            r matches Err(e) ==> e.kind_spec() == ErrorKind::Spawn,
    {
        crate::task::backend_outcome(spawner_spawn(&self.spawner, fut))
    }

    /// Queue a movable task and hand back the handle to its output.
    pub fn spawn_handle<T: Send + 'static>(&self, fut: futures::task::FutureObj<'static, T>) -> (r:
        Result<futures::future::RemoteHandle<T>, Error>)
        ensures
            r matches Err(e) ==> e.kind_spec() == ErrorKind::Spawn,
    {
        let (task, handle) = crate::task::remote_task(fut);
        match self.spawn(task) {
            Ok(()) => Ok(handle),
            Err(e) => Err(e),
        }
    }

    /// Queue a thread-confined task and hand back the handle to its output.
    pub fn spawn_handle_local<T: Send + 'static>(
        &self,
        fut: futures::task::LocalFutureObj<'static, T>,
    ) -> (r: Result<futures::future::RemoteHandle<T>, Error>)
        ensures
            r matches Err(e) ==> e.kind_spec() == ErrorKind::Spawn,
    {
        let (task, handle) = crate::task::remote_task_local(fut);
        match self.spawn_local(task) {
            Ok(()) => Ok(handle),
            Err(e) => Err(e),
        }
    }
}

/// Drive the committed cooperative pool until every submitted task has
/// completed, blocking this thread. Unlike [`crate::rt::run`] this reports a
/// missing or different executor as a typed error instead of asking the
/// caller to rule it out.
pub fn run(rt: &mut Registry) -> (r: Result<(), Error>)
    ensures
        final(rt)@ == old(rt)@,
        match localpool_dispatch(old(rt)@) {
            Some(k) => r matches Err(e) && e.kind_spec() == k,
            None => r is Ok,
        },
{
    match &mut rt.slot {
        None => Err(Error::new(ErrorKind::NoExecutorInitialized)),
        Some(Executor::LocalPool(e)) => {
            e.run();
            Ok(())
        },
        Some(_) => Err(Error::new(ErrorKind::WrongExecutor)),
    }
}

/// Drive the committed cooperative pool until the given task completes, and
/// return that task's output; other tasks of the pool progress meanwhile but
/// may stay pending.
pub fn run_until<T>(rt: &mut Registry, fut: futures::task::LocalFutureObj<'static, T>) -> (r:
    Result<T, Error>)
    ensures
        final(rt)@ == old(rt)@,
        match localpool_dispatch(old(rt)@) {
            Some(k) => r matches Err(e) && e.kind_spec() == k,
            None => r is Ok,
        },
{
    match &mut rt.slot {
        None => Err(Error::new(ErrorKind::NoExecutorInitialized)),
        Some(Executor::LocalPool(e)) => Ok(e.run_until(fut)),
        Some(_) => Err(Error::new(ErrorKind::WrongExecutor)),
    }
}

/// Make progress on the committed cooperative pool without blocking; `true`
/// exactly when one task ran to completion.
pub fn try_run_one(rt: &mut Registry) -> (r: Result<bool, Error>)
    ensures
        final(rt)@ == old(rt)@,
        match localpool_dispatch(old(rt)@) {
            Some(k) => r matches Err(e) && e.kind_spec() == k,
            None => r is Ok,
        },
{
    match &mut rt.slot {
        None => Err(Error::new(ErrorKind::NoExecutorInitialized)),
        Some(Executor::LocalPool(e)) => Ok(e.try_run_one()),
        Some(_) => Err(Error::new(ErrorKind::WrongExecutor)),
    }
}

/// Drive the committed cooperative pool until no submitted task can make
/// progress without new external input, then return without blocking further.
pub fn run_until_stalled(rt: &mut Registry) -> (r: Result<(), Error>)
    ensures
        final(rt)@ == old(rt)@,
        match localpool_dispatch(old(rt)@) {
            Some(k) => r matches Err(e) && e.kind_spec() == k,
            None => r is Ok,
        },
{
    match &mut rt.slot {
        None => Err(Error::new(ErrorKind::NoExecutorInitialized)),
        Some(Executor::LocalPool(e)) => {
            e.run_until_stalled();
            Ok(())
        },
        Some(_) => Err(Error::new(ErrorKind::WrongExecutor)),
    }
}

} // verus!
