//! The process-wide pool of async-std.

use vstd::prelude::*;
use vstd::future::FutureAdditionalSpecFns;
use std::future::Future;
use futures_task::FutureObj;
use futures_task::LocalFutureObj;
use futures_task::LocalSpawn;
use futures_task::Spawn;
use futures_task::SpawnError;
use crate::outside::block_on_async_std;
use crate::outside::spawn_local_on_async_std;
use crate::outside::spawn_on_async_std;

verus! {

/// Spawns on the pool of worker threads that async-std keeps for the whole
/// process. The pool is not owned by anyone, so this type holds nothing: every
/// value of it stands for the same pool.
///
/// A task that is bound to its thread is queued on that thread instead, and is
/// polled there whenever the thread is inside `block_on`.
#[derive(Copy, Clone, Debug, PartialEq, Eq, Structural)]
pub struct AsyncStd;

impl AsyncStd {
    /// The token for the pool.
    pub fn new() -> (token: Self)
        ensures
            token == AsyncStd,
    {
        Self::default()
    }

    /// Blocks this thread until the future is done and returns what it
    /// resolved to. The workers go on polling the submitted tasks meanwhile,
    /// and the tasks that are bound to this thread are polled here.
    pub fn block_on<F: Future>(future: F) -> (output: F::Output)
        ensures
            output == future@,
    {
        block_on_async_std(future)
    }
}

impl Default for AsyncStd {
    fn default() -> (token: Self)
        ensures
            token == AsyncStd,
    {
        AsyncStd
    }
}

impl Spawn for AsyncStd {
    /// Hands the task to the pool and lets go of the pool's handle to it, so
    /// that the task runs unattended. The pool never refuses a task.
    fn spawn_obj(&self, future: FutureObj<'static, ()>) -> (accepted: Result<(), SpawnError>)
        ensures
            accepted is Ok,
    {
        let _ = spawn_on_async_std(future);
        Ok(())
    }
}

impl LocalSpawn for AsyncStd {
    /// Queues the task on this thread and lets go of the handle to it, so that
    /// the task runs unattended. A task is never refused.
    fn spawn_local_obj(&self, future: LocalFutureObj<'static, ()>) -> (accepted: Result<
        (),
        SpawnError,
    >)
        ensures
            accepted is Ok,
    {
        let _ = spawn_local_on_async_std(future);
        Ok(())
    }
}

} // verus!
