//! A per-thread asynchronous task runner behind one uniform interface.
//!
//! A [`Registry`] holds at most one live executor. Code commits a registry to
//! one execution strategy ([`Config`]) with [`init`] or [`init_allow_same`],
//! and from then on submits tasks through [`spawn`], [`spawn_local`] and
//! their handle-returning variants without caring which strategy was chosen.
//! Misuse — committing twice, submitting before committing, submitting a
//! thread-confined task to a thread pool — is a typed [`Error`], never a
//! panic.
//!
//! Every operation that reads or changes a registry carries a contract over
//! the registry's abstract state, the committed [`Config`], and the
//! commitment and dispatch rules are stated and proved once and for all in
//! [`laws`].

mod config;
mod error;
mod executor;
mod task;

pub mod laws;
pub mod rt;

pub use config::Config;
pub use error::{Error, ErrorKind};
pub use executor::{asyncstd, juliex, localpool, threadpool, Executor};
pub use rt::{
    block_on, current_rt, init, init_allow_same, run, spawn, spawn_handle, spawn_handle_local,
    spawn_local, Registry,
};
