use vstd::prelude::*;

verus! {

/// The kinds of failure the registry and the strategies can report.
///
/// The set is flat and closed: every fallible operation of this crate returns
/// one of these, and nothing in the crate panics on a recoverable condition.
#[derive(Debug, Copy, Clone, PartialEq, Eq, Hash, Structural)]
pub enum ErrorKind {
    /// A commit was attempted on a registry that already holds an executor.
    DoubleExecutorInit,
    /// The live executor's own submission primitive refused the task; on the
    /// local pool this happens only once the pool itself is gone.
    Spawn,
    /// A thread-confined task was submitted while the live executor is a
    /// thread pool, which may resume the task on another thread.
    SpawnLocalOnThreadPool,
    /// An operation specific to one strategy was invoked while another
    /// strategy is live.
    WrongExecutor,
    /// A submission was attempted before any executor was committed.
    NoExecutorInitialized,
}

/// The fixed description that [`ErrorKind::message`] returns for each kind.
pub open spec fn message_spec(k: ErrorKind) -> Seq<char> {
    match k {
        ErrorKind::DoubleExecutorInit => "cannot initialize the executor twice on the same registry"@,
        ErrorKind::Spawn => "failed to spawn a future"@,
        ErrorKind::SpawnLocalOnThreadPool => "cannot spawn a thread-confined future on a thread pool"@,
        ErrorKind::WrongExecutor => "this operation belongs to another executor than the one in use"@,
        ErrorKind::NoExecutorInitialized => "an executor must be initialized before futures can be spawned"@,
    }
}

impl ErrorKind {
    /// A fixed, human-readable description of the failure.
    pub fn message(&self) -> (r: &'static str)
        ensures
            r@ == message_spec(*self),
    {
        match self {
            ErrorKind::DoubleExecutorInit => "cannot initialize the executor twice on the same registry",
            ErrorKind::Spawn => "failed to spawn a future",
            ErrorKind::SpawnLocalOnThreadPool => "cannot spawn a thread-confined future on a thread pool",
            ErrorKind::WrongExecutor => "this operation belongs to another executor than the one in use",
            ErrorKind::NoExecutorInitialized => "an executor must be initialized before futures can be spawned",
        }
    }
}

/// An error of this crate: a carrier for an [`ErrorKind`].
#[derive(Debug)]
pub struct Error {
    kind: ErrorKind,
}

impl Error {
    /// The kind this error carries, as an abstract value.
    pub closed spec fn kind_spec(&self) -> ErrorKind {
        self.kind
    }

    /// Create a new error of the given kind.
    pub fn new(kind: ErrorKind) -> (r: Self)
        ensures
            r.kind_spec() == kind,
    {
        Error { kind }
    }

    /// Allows matching on the error kind.
    pub fn kind(&self) -> (r: &ErrorKind)
        ensures
            *r == self.kind_spec(),
    {
        &self.kind
    }

    /// A fixed, human-readable description of the failure.
    pub fn message(&self) -> (r: &'static str)
        ensures
            r@ == message_spec(self.kind_spec()),
    {
        self.kind.message()
    }
}

} // verus!
