//! The task and handle types that submissions exchange with the executors.
//!
//! A cross-thread-movable task is a `futures::task::FutureObj<'static, T>`, a
//! thread-confined one a `futures::task::LocalFutureObj<'static, T>`: the
//! type-erased future objects of the `futures` crate. Whether a task may move
//! between threads is thereby part of its type, not checked at run time. The
//! output of a handle-returning submission comes back through a
//! `futures::future::RemoteHandle<T>`, a single-resolution handle that can
//! cross threads even when the task itself cannot.

use vstd::prelude::*;

use crate::error::ErrorKind;

verus! {

#[verifier::external_type_specification]
#[verifier::external_body]
#[verifier::reject_recursive_types(T)]
pub struct ExFutureObj<'a, T>(futures::task::FutureObj<'a, T>);

#[verifier::external_type_specification]
#[verifier::external_body]
#[verifier::reject_recursive_types(T)]
pub struct ExLocalFutureObj<'a, T>(futures::task::LocalFutureObj<'a, T>);

#[verifier::external_type_specification]
#[verifier::external_body]
#[verifier::reject_recursive_types(T)]
pub struct ExRemoteHandle<T>(futures::future::RemoteHandle<T>);

#[verifier::external_type_specification]
#[verifier::external_body]
pub struct ExSpawnError(futures::task::SpawnError);

/// What a submission returns for each answer of a backend's own spawn
/// primitive: acceptance passes through, refusal — which the local pool gives
/// only once the pool itself is gone — becomes [`ErrorKind::Spawn`].
pub(crate) fn backend_outcome(res: Result<(), futures::task::SpawnError>) -> (r: Result<
    (),
    crate::error::Error,
>)
    ensures
        r is Ok <==> res is Ok,
        r matches Err(e) ==> e.kind_spec() == ErrorKind::Spawn,
{
    match res {
        Ok(()) => Ok(()),
        Err(_) => Err(crate::error::Error::new(ErrorKind::Spawn)),
    }
}

/// Relies on `From<FutureObj> for LocalFutureObj`: a movable task may always
/// be treated as a thread-confined one; the future it runs is unchanged.
#[verifier::external_body]
pub(crate) fn into_local_task(
    fut: futures::task::FutureObj<'static, ()>,
) -> (r: futures::task::LocalFutureObj<'static, ()>) {
    fut.into()
}

/// Relies on `futures::future::FutureExt::remote_handle`: splits a task into
/// a remote part that runs the given future, and a handle that resolves to
/// that future's output once the remote part has run to completion. Two
/// further facts of that mechanism: dropping the handle cancels the remote
/// part at its next poll, unless the handle was first given away with its
/// `forget` method; and awaiting a handle whose task panicked, or was dropped
/// unrun, resumes that panic in the awaiting thread.
#[verifier::external_body]
pub(crate) fn remote_task<T: Send + 'static>(
    fut: futures::task::FutureObj<'static, T>,
) -> (r: (futures::task::FutureObj<'static, ()>, futures::future::RemoteHandle<T>)) {
    let (remote, handle) = futures::future::FutureExt::remote_handle(fut);
    (futures::task::FutureObj::new(Box::pin(remote)), handle)
}

/// Relies on `futures::future::FutureExt::remote_handle`, as
/// [`remote_task`] does, for tasks that must stay on their thread; only the
/// handle, which carries the plain output, may cross threads.
#[verifier::external_body]
pub(crate) fn remote_task_local<T: Send + 'static>(
    fut: futures::task::LocalFutureObj<'static, T>,
) -> (r: (futures::task::LocalFutureObj<'static, ()>, futures::future::RemoteHandle<T>)) {
    let (remote, handle) = futures::future::FutureExt::remote_handle(fut);
    (futures::task::LocalFutureObj::new(Box::pin(remote)), handle)
}

} // verus!
