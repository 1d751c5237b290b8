//! The registry: a single-assignment slot holding one live executor, and the
//! uniform submission interface over it.
//!
//! A [`Registry`] models one thread's executor choice. Its abstract state is
//! `Option<Config>`: `None` while nothing is committed, `Some(c)` once
//! [`init`] or [`init_allow_same`] has succeeded with strategy `c`. The state
//! machine has one legal transition, from empty to committed, and committed
//! is terminal: no operation of this module ever clears or replaces a live
//! executor, and every contract below says so through
//! [`commit_transition`].
//!
//! The crate keeps no ambient state, so each thread creates one registry and
//! hands it to the code that submits tasks; a registry never moves to another
//! thread once its executor is live.

use vstd::prelude::*;

use crate::config::{is_pool, Config};
use crate::error::{Error, ErrorKind};
use crate::executor::Executor;

verus! {

/// Whether a plain commit may write the slot: only when it is still empty; a
/// second commit is refused even for the strategy already live.
pub open spec fn commit_allowed(state: Option<Config>, config: Config) -> bool {
    state is None
}

/// Whether an idempotent commit may succeed: on an empty slot, or when the
/// slot already holds exactly the requested strategy.
pub open spec fn idem_commit_allowed(state: Option<Config>, config: Config) -> bool {
    state is None || state == Some(config)
}

/// The slot after a commit of either kind: filled once, then left as it was.
pub open spec fn commit_transition(state: Option<Config>, config: Config) -> Option<Config> {
    if state is None {
        Some(config)
    } else {
        state
    }
}

/// The dispatch rule for movable tasks: refused only while nothing is
/// committed; every strategy accepts them.
pub open spec fn send_dispatch(state: Option<Config>) -> Option<ErrorKind> {
    match state {
        None => Some(ErrorKind::NoExecutorInitialized),
        Some(_) => None,
    }
}

/// The dispatch rule for thread-confined tasks: refused while nothing is
/// committed, and refused on every worker pool, which may resume a task on a
/// different thread than the one that submitted it.
pub open spec fn local_dispatch(state: Option<Config>) -> Option<ErrorKind> {
    match state {
        None => Some(ErrorKind::NoExecutorInitialized),
        Some(c) => if is_pool(c) {
            Some(ErrorKind::SpawnLocalOnThreadPool)
        } else {
            None
        },
    }
}

/// The single-assignment slot for one thread's executor.
pub struct Registry {
    pub(crate) slot: Option<Executor>,
}

impl View for Registry {
    type V = Option<Config>;

    /// The abstract state: the strategy committed so far, if any.
    open(crate) spec fn view(&self) -> Option<Config> {
        match self.slot {
            Some(e) => Some(e.config_spec()),
            None => None,
        }
    }
}

impl Registry {
    /// A fresh registry with nothing committed.
    pub fn new() -> (r: Registry)
        ensures
            r@ is None,
    {
        Registry { slot: None }
    }
}

/// Commit the registry to the requested strategy. This succeeds exactly once:
/// any later commit fails with [`ErrorKind::DoubleExecutorInit`], whatever it
/// asks for, and leaves the live executor untouched. On success the concrete
/// executor is constructed and stored, which for a worker pool may start the
/// pool's threads.
pub fn init(rt: &mut Registry, config: Config) -> (r: Result<(), Error>)
    ensures
        final(rt)@ == commit_transition(old(rt)@, config),
        r is Ok <==> commit_allowed(old(rt)@, config),
        r matches Err(e) ==> e.kind_spec() == ErrorKind::DoubleExecutorInit,
{
    match rt.slot {
        Some(_) => Err(Error::new(ErrorKind::DoubleExecutorInit)),
        None => {
            rt.slot = Some(Executor::new(config));
            Ok(())
        },
    }
}

/// Commit the registry to the requested strategy, quietly accepting a repeat
/// of the strategy already live: a no-op then. A commit asking for a
/// different strategy than the live one still fails with
/// [`ErrorKind::DoubleExecutorInit`].
pub fn init_allow_same(rt: &mut Registry, config: Config) -> (r: Result<(), Error>)
    ensures
        final(rt)@ == commit_transition(old(rt)@, config),
        r is Ok <==> idem_commit_allowed(old(rt)@, config),
        r matches Err(e) ==> e.kind_spec() == ErrorKind::DoubleExecutorInit,
{
    match current_rt(rt) {
        Some(cfg) => {
            if config == cfg {
                Ok(())
            } else {
                Err(Error::new(ErrorKind::DoubleExecutorInit))
            }
        },
        None => init(rt, config),
    }
}

/// Inspect without mutating: the strategy committed so far, `None` while the
/// registry is still empty.
pub fn current_rt(rt: &Registry) -> (r: Option<Config>)
    ensures
        r == rt@,
{
    match &rt.slot {
        Some(e) => Some(e.config()),
        None => None,
    }
}

/// Submit a movable task to the live executor. Refused with
/// [`ErrorKind::NoExecutorInitialized`] while nothing is committed; after
/// that every strategy accepts it, the worker pools beginning to run it at
/// once — their submission never fails — and the cooperative pool holding it
/// for the next [`run`]. Only the cooperative backend's own refusal,
/// [`ErrorKind::Spawn`], can then still come, and only once its pool itself
/// is gone.
pub fn spawn(rt: &mut Registry, fut: futures::task::FutureObj<'static, ()>) -> (r: Result<
    (),
    Error,
>)
    ensures
        final(rt)@ == old(rt)@,
        match send_dispatch(old(rt)@) {
            Some(k) => r matches Err(e) && e.kind_spec() == k,
            None => r matches Err(e) ==> e.kind_spec() == ErrorKind::Spawn,
        },
        old(rt)@ matches Some(c) && is_pool(c) ==> r is Ok,
{
    match &rt.slot {
        None => Err(Error::new(ErrorKind::NoExecutorInitialized)),
        Some(e) => e.spawn(fut),
    }
}

/// Submit a thread-confined task. Refused with
/// [`ErrorKind::NoExecutorInitialized`] while nothing is committed and with
/// [`ErrorKind::SpawnLocalOnThreadPool`] on every worker pool; the
/// cooperative pool accepts it.
pub fn spawn_local(rt: &mut Registry, fut: futures::task::LocalFutureObj<'static, ()>) -> (r:
    Result<(), Error>)
    ensures
        final(rt)@ == old(rt)@,
        match local_dispatch(old(rt)@) {
            Some(k) => r matches Err(e) && e.kind_spec() == k,
            None => r matches Err(e) ==> e.kind_spec() == ErrorKind::Spawn,
        },
{
    match &rt.slot {
        None => Err(Error::new(ErrorKind::NoExecutorInitialized)),
        Some(e) => e.spawn_local(fut),
    }
}

/// Submit a movable task and recover its output: on success the returned
/// handle resolves, once the task has run to completion, to the task's
/// output. Dropping the handle before it resolves cancels the task at its
/// next poll; the handle's `forget` method instead lets the task run on
/// unobserved. Dispatch is refused and reported exactly as by [`spawn`].
pub fn spawn_handle<T: Send + 'static>(
    rt: &mut Registry,
    fut: futures::task::FutureObj<'static, T>,
) -> (r: Result<futures::future::RemoteHandle<T>, Error>)
    ensures
        final(rt)@ == old(rt)@,
        match send_dispatch(old(rt)@) {
            Some(k) => r matches Err(e) && e.kind_spec() == k,
            None => r matches Err(e) ==> e.kind_spec() == ErrorKind::Spawn,
        },
        old(rt)@ matches Some(c) && is_pool(c) ==> r is Ok,
{
    match &rt.slot {
        None => Err(Error::new(ErrorKind::NoExecutorInitialized)),
        Some(e) => e.spawn_handle(fut),
    }
}

/// Submit a thread-confined task and recover its output through a handle
/// that may itself cross threads; the handle behaves as the one of
/// [`spawn_handle`] does. Dispatch is refused and reported exactly as by
/// [`spawn_local`].
pub fn spawn_handle_local<T: Send + 'static>(
    rt: &mut Registry,
    fut: futures::task::LocalFutureObj<'static, T>,
) -> (r: Result<futures::future::RemoteHandle<T>, Error>)
    ensures
        final(rt)@ == old(rt)@,
        match local_dispatch(old(rt)@) {
            Some(k) => r matches Err(e) && e.kind_spec() == k,
            None => r matches Err(e) ==> e.kind_spec() == ErrorKind::Spawn,
        },
{
    match &rt.slot {
        None => Err(Error::new(ErrorKind::NoExecutorInitialized)),
        Some(e) => e.spawn_handle_local(fut),
    }
}

/// Drive the committed cooperative pool until every submitted task has
/// completed, blocking this thread; on a committed worker pool this is a
/// no-op, since tasks there progress without being driven. With zero tasks
/// pending the run call returns at once. The registry must be committed; on
/// an empty one there is nothing this call could mean. A task cannot make the
/// pool it runs on drive itself: that would need the registry, which this
/// call holds exclusively for as long as it runs.
pub fn run(rt: &mut Registry)
    requires
        old(rt)@ is Some,
    ensures
        final(rt)@ == old(rt)@,
{
    match &mut rt.slot {
        Some(e) => e.run(),
        None => (),
    }
}

/// Relies on `futures::executor::block_on`: blocks the calling thread until
/// exactly the given task completes, and returns its output. No other
/// submitted task is driven: tasks pending on a cooperative pool stay
/// pending, and a worker pool keeps running on its own threads meanwhile.
#[verifier::external_body]
pub fn block_on<T>(fut: futures::task::LocalFutureObj<'static, T>) -> (r: T) {
    futures::executor::block_on(fut)
}

} // verus!
