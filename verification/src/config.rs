use vstd::prelude::*;

verus! {

/// The execution strategy a registry can be committed to.
///
/// `LocalPool` is a cooperative, single-thread executor: submitted tasks make
/// progress only while one of the explicit run calls is driving the pool.
/// The other three are thread pools: a submitted task starts running on a
/// worker thread as soon as it is submitted, and may resume on a different
/// worker after every suspension point, which is why thread-confined tasks
/// are refused on them.
#[derive(Debug, Copy, Clone, Hash, PartialEq, Eq, Structural)]
pub enum Config {
    /// The thread pool of the `futures` crate.
    ThreadPool,
    /// The global thread pool of the `juliex` crate.
    Juliex,
    /// The global thread pool of the `async-std` crate.
    AsyncStd,
    /// A cooperative single-thread executor, `futures::executor::LocalPool`.
    LocalPool,
}

/// True of the strategies that run tasks on a pool of worker threads, where a
/// task may resume on a different thread than the one it was submitted from.
pub open spec fn is_pool(c: Config) -> bool {
    c is ThreadPool || c is Juliex || c is AsyncStd
}

impl Default for Config {
    /// The most capable strategy that is always available: the thread pool of
    /// the `futures` crate.
    fn default() -> (r: Self)
        ensures
            r == Config::ThreadPool,
    {
        Config::ThreadPool
    }
}

} // verus!
