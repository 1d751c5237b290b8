//! The closed set of executors a registry can hold, behind one dispatch
//! surface.
//!
//! The set of strategies is fixed and small, so it is a plain enum: every
//! dispatch below matches on it exhaustively, and a missing strategy would be
//! a compile error, not a run-time surprise.

use vstd::prelude::*;

use crate::config::{is_pool, Config};
use crate::error::{Error, ErrorKind};

pub mod asyncstd;
pub mod juliex;
pub mod localpool;
pub mod threadpool;

use self::asyncstd::AsyncStd;
use self::juliex::Juliex;
use self::localpool::CooperativePool;
use self::threadpool::WorkerPool;

verus! {

/// One live executor, of whichever strategy the registry was committed to.
pub enum Executor {
    /// The worker pool of the `futures` crate.
    ThreadPool(WorkerPool),
    /// The process-wide worker pool of the `juliex` crate.
    Juliex(Juliex),
    /// The process-wide scheduler of the `async-std` crate.
    AsyncStd(AsyncStd),
    /// The cooperative single-thread pool, `futures::executor::LocalPool`.
    LocalPool(CooperativePool),
}

impl Executor {
    /// The strategy this executor implements.
    pub open spec fn config_spec(&self) -> Config {
        match self {
            Executor::ThreadPool(_) => Config::ThreadPool,
            Executor::Juliex(_) => Config::Juliex,
            Executor::AsyncStd(_) => Config::AsyncStd,
            Executor::LocalPool(_) => Config::LocalPool,
        }
    }

    /// Construct a live executor of the requested strategy. For the worker
    /// pools this may start the pool's threads as a side effect.
    pub fn new(config: Config) -> (r: Self)
        ensures
            r.config_spec() == config,
    {
        match config {
            Config::ThreadPool => Executor::ThreadPool(WorkerPool::new()),
            Config::Juliex => Executor::Juliex(Juliex::new()),
            Config::AsyncStd => Executor::AsyncStd(AsyncStd::new()),
            Config::LocalPool => Executor::LocalPool(CooperativePool::new()),
        }
    }

    /// The strategy this executor implements.
    pub fn config(&self) -> (r: Config)
        ensures
            r == self.config_spec(),
    {
        match self {
            Executor::ThreadPool(_) => Config::ThreadPool,
            Executor::Juliex(_) => Config::Juliex,
            Executor::AsyncStd(_) => Config::AsyncStd,
            Executor::LocalPool(_) => Config::LocalPool,
        }
    }

    /// Drive the cooperative pool until every queued task has completed. On
    /// the worker pools tasks progress on their own, so this is a no-op.
    pub fn run(&mut self)
        ensures
            final(self).config_spec() == old(self).config_spec(),
    {
        match self {
            Executor::LocalPool(e) => e.run(),
            Executor::ThreadPool(_) => (),
            Executor::Juliex(_) => (),
            Executor::AsyncStd(_) => (),
        }
    }

    /// Submit a movable task. On every worker pool the submission succeeds
    /// and the task begins running at once; only the cooperative backend's
    /// own refusal, which comes only once its pool itself is gone, is
    /// reported, as [`ErrorKind::Spawn`].
    pub fn spawn(&self, fut: futures::task::FutureObj<'static, ()>) -> (r: Result<(), Error>)
        ensures
            r matches Err(e) ==> e.kind_spec() == ErrorKind::Spawn,
            is_pool(self.config_spec()) ==> r is Ok,
    {
        match self {
            Executor::ThreadPool(e) => e.spawn(fut),
            Executor::Juliex(e) => e.spawn(fut),
            Executor::AsyncStd(e) => e.spawn(fut),
            Executor::LocalPool(e) => e.spawn(fut),
        }
    }

    /// Submit a thread-confined task: refused with
    /// [`ErrorKind::SpawnLocalOnThreadPool`] on every worker pool, accepted on
    /// the cooperative pool.
    pub fn spawn_local(&self, fut: futures::task::LocalFutureObj<'static, ()>) -> (r: Result<
        (),
        Error,
    >)
        ensures
            is_pool(self.config_spec()) <==> (r matches Err(e) && e.kind_spec()
                == ErrorKind::SpawnLocalOnThreadPool),
            r matches Err(e) ==> (e.kind_spec() == ErrorKind::SpawnLocalOnThreadPool
                || e.kind_spec() == ErrorKind::Spawn),
    {
        match self {
            Executor::ThreadPool(e) => e.spawn_local(fut),
            Executor::Juliex(e) => e.spawn_local(fut),
            Executor::AsyncStd(e) => e.spawn_local(fut),
            Executor::LocalPool(e) => e.spawn_local(fut),
        }
    }

    /// Submit a movable task and keep a handle that resolves to its output;
    /// on every worker pool the submission succeeds.
    pub fn spawn_handle<T: Send + 'static>(&self, fut: futures::task::FutureObj<'static, T>) -> (r:
        Result<futures::future::RemoteHandle<T>, Error>)
        ensures
            r matches Err(e) ==> e.kind_spec() == ErrorKind::Spawn,
            is_pool(self.config_spec()) ==> r is Ok,
    {
        match self {
            Executor::ThreadPool(e) => e.spawn_handle(fut),
            Executor::Juliex(e) => e.spawn_handle(fut),
            Executor::AsyncStd(e) => e.spawn_handle(fut),
            Executor::LocalPool(e) => e.spawn_handle(fut),
        }
    }

    /// Submit a thread-confined task and keep a handle to its output:
    /// refused on every worker pool, as [`Executor::spawn_local`] is.
    pub fn spawn_handle_local<T: Send + 'static>(
        &self,
        fut: futures::task::LocalFutureObj<'static, T>,
    ) -> (r: Result<futures::future::RemoteHandle<T>, Error>)
        ensures
            is_pool(self.config_spec()) <==> (r matches Err(e) && e.kind_spec()
                == ErrorKind::SpawnLocalOnThreadPool),
            r matches Err(e) ==> (e.kind_spec() == ErrorKind::SpawnLocalOnThreadPool
                || e.kind_spec() == ErrorKind::Spawn),
    {
        match self {
            Executor::ThreadPool(e) => e.spawn_handle_local(fut),
            Executor::Juliex(e) => e.spawn_handle_local(fut),
            Executor::AsyncStd(e) => e.spawn_handle_local(fut),
            Executor::LocalPool(e) => e.spawn_handle_local(fut),
        }
    }
}

} // verus!
