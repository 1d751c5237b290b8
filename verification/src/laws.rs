//! The commitment and dispatch rules of the registry, stated once over the
//! abstract model and proved for every strategy and every registry state.
//!
//! The contracts of [`crate::rt`] describe each operation through the spec
//! functions [`commit_allowed`](crate::rt::commit_allowed),
//! [`idem_commit_allowed`](crate::rt::idem_commit_allowed),
//! [`commit_transition`](crate::rt::commit_transition),
//! [`send_dispatch`](crate::rt::send_dispatch) and
//! [`local_dispatch`](crate::rt::local_dispatch). The lemmas here state what
//! those rules amount to across calls: commitment is single-assignment,
//! idempotent commitment absorbs only an exact repeat, and the dispatch rules
//! refuse exactly the uncommitted registry and the confined-task-on-a-pool
//! combination.

use vstd::prelude::*;

use crate::config::{is_pool, Config};
use crate::error::ErrorKind;
use crate::rt::{
    commit_allowed, commit_transition, idem_commit_allowed, local_dispatch, send_dispatch,
};

verus! {

/// On a fresh registry a commit of any strategy succeeds and makes that
/// strategy current; after it, a second commit is refused whatever strategy
/// it asks for, and the first commitment stands.
pub proof fn law_commit_once(first: Config, second: Config)
    ensures
        commit_allowed(None::<Config>, first),
        commit_transition(None::<Config>, first) == Some(first),
        !commit_allowed(commit_transition(None::<Config>, first), second),
        commit_transition(commit_transition(None::<Config>, first), second) == Some(first),
{
}

/// Committed is terminal: once a registry holds a strategy, no commit of
/// either kind ever clears or replaces it.
pub proof fn law_commit_terminal(state: Option<Config>, config: Config)
    ensures
        state is Some ==> commit_transition(state, config) == state,
{
}

/// An idempotent commit of one strategy, repeated on the same registry,
/// succeeds both times, and the strategy reported as current is that one
/// after either call.
pub proof fn law_idem_commit_twice(config: Config)
    ensures
        idem_commit_allowed(None::<Config>, config),
        commit_transition(None::<Config>, config) == Some(config),
        idem_commit_allowed(Some(config), config),
        commit_transition(Some(config), config) == Some(config),
{
}

/// An idempotent commit after an idempotent commit of a different strategy
/// is refused, and the first commitment stands.
pub proof fn law_idem_commit_different(first: Config, second: Config)
    requires
        first != second,
    ensures
        !idem_commit_allowed(commit_transition(None::<Config>, first), second),
        commit_transition(commit_transition(None::<Config>, first), second) == Some(first),
{
}

/// A thread-confined submission is refused, as
/// [`ErrorKind::SpawnLocalOnThreadPool`], exactly on the strategies that run
/// tasks on a pool of worker threads; the cooperative pool dispatches it to
/// its backend.
pub proof fn law_confined_dispatch(config: Config)
    ensures
        is_pool(config) <==> local_dispatch(Some(config)) == Some(
            ErrorKind::SpawnLocalOnThreadPool,
        ),
        config is LocalPool <==> local_dispatch(Some(config)) is None,
{
}

/// Before any commit, every submission is refused as
/// [`ErrorKind::NoExecutorInitialized`], movable and thread-confined alike;
/// after a commit, no submission is ever refused for want of an executor.
pub proof fn law_uncommitted_refuses_submission(config: Config)
    ensures
        send_dispatch(None::<Config>) == Some(ErrorKind::NoExecutorInitialized),
        local_dispatch(None::<Config>) == Some(ErrorKind::NoExecutorInitialized),
        send_dispatch(Some(config)) is None,
        local_dispatch(Some(config)) != Some(ErrorKind::NoExecutorInitialized),
{
}

} // verus!
