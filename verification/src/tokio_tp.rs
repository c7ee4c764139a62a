//! A tokio runtime that runs its tasks on a pool of worker threads.

use vstd::prelude::*;
use vstd::future::FutureAdditionalSpecFns;
use vstd::std_specs::convert::TryFromSpecImpl;
use std::future::Future;
use std::sync::Arc;
use futures_task::FutureObj;
use futures_task::Spawn;
use futures_task::SpawnError;
use tokio::runtime::Builder;
use tokio::runtime::Handle;
use tokio::runtime::Runtime;
use tokio::runtime::TryCurrentError;
use crate::outside::block_on_runtime;
use crate::outside::build_runtime;
use crate::outside::current_runtime;
use crate::outside::handle_in;
use crate::outside::handle_of;
use crate::outside::spawn_on_tokio;

verus! {

/// Spawns on a tokio runtime with worker threads. A clone spawns on the same
/// runtime, and so does every `TokioHandle` taken from it.
///
/// The last clone must not be dropped inside a task: tokio does not let a
/// runtime go on a thread that is inside one.
#[derive(Clone, Debug)]
pub struct TokioTp {
    runtime: Arc<Runtime>,
    handle: Handle,
}

/// Spawns on the runtime of the `TokioTp` it was taken from. It can be sent to
/// other threads and cloned at will.
#[derive(Clone, Debug)]
pub struct TokioHandle {
    spawner: Handle,
}

impl TokioTp {
    /// The runtime that this executor drives.
    pub closed spec fn runs_on(&self) -> Runtime {
        *self.runtime
    }

    /// The handle through which this executor submits its tasks. Two executors
    /// with the same handle submit to the same runtime.
    pub closed spec fn submits_to(&self) -> Handle {
        self.handle
    }

    /// Runs the future on this thread until it is done and gives what it
    /// resolved to. The workers go on polling the submitted tasks meanwhile.
    ///
    /// A thread that is inside a runtime already, as every task is, cannot
    /// block on another future: there the future is handed back as it came and
    /// nothing is run. So it is on a thread that has merely entered the context
    /// of a runtime, since the two cannot be told apart. The executor itself
    /// is the same afterwards either way.
    pub fn block_on<F: Future>(&mut self, f: F) -> (r: Result<F::Output, F>)
        ensures
            r matches Ok(output) ==> output == f@,
            r matches Err(back) ==> back == f,
            *final(self) == *old(self),
    {
        self.block_on_from(current_runtime(), f)
    }

    /// What blocking on a future comes to, once it is known whether this
    /// thread is inside a runtime: where it is inside of none, the future is
    /// run and what it resolved to is given; where it is inside of one, the
    /// future is handed back unrun.
    pub(crate) fn block_on_from<F: Future>(
        &mut self,
        current: Result<Handle, TryCurrentError>,
        f: F,
    ) -> (r: Result<F::Output, F>)
        ensures
            current is Ok ==> r == Err::<F::Output, F>(f),
            current is Err ==> r == Ok::<F::Output, F>(f@),
            *final(self) == *old(self),
    {
        match current {
            Ok(_) => Err(f),
            Err(_) => Ok(block_on_runtime(&self.runtime, f)),
        }
    }

    /// A handle for spawning on this runtime from anywhere: it submits where
    /// this executor submits.
    pub fn handle(&self) -> (handle: TokioHandle)
        ensures
            handle.submits_to() == self.submits_to(),
    {
        TokioHandle { spawner: self.handle.clone() }
    }

    /// The handle that submits tasks to the runtime.
    pub(crate) fn spawner(&self) -> (handle: &Handle)
        ensures
            *handle == self.submits_to(),
    {
        &self.handle
    }

    /// What building the runtime comes to: where it was built, the executor
    /// that drives this runtime and submits through the runtime's own handle;
    /// where it was not, the system's error.
    pub fn from_built(built: Result<Runtime, std::io::Error>) -> (r: Result<
        TokioTp,
        std::io::Error,
    >)
        ensures
            match built {
                Ok(runtime) => r is Ok && r->Ok_0.runs_on() == runtime && r->Ok_0.submits_to()
                    == handle_in(runtime),
                Err(error) => r == Err::<TokioTp, std::io::Error>(error),
            },
    {
        match built {
            Ok(runtime) => {
                let handle = handle_of(&runtime).clone();
                Ok(TokioTp { runtime: Arc::new(runtime), handle })
            },
            Err(error) => Err(error),
        }
    }
}

impl TokioHandle {
    /// The handle through which this executor submits its tasks. Two executors
    /// with the same handle submit to the same runtime.
    pub closed spec fn submits_to(&self) -> Handle {
        self.spawner
    }

    /// The handle that submits tasks to the runtime.
    pub(crate) fn spawner(&self) -> (handle: &Handle)
        ensures
            *handle == self.submits_to(),
    {
        &self.spawner
    }
}

impl TryFrom<&mut Builder> for TokioTp {
    type Error = std::io::Error;

    /// Builds the runtime that the builder describes and wraps it: the executor
    /// submits through the handle of the runtime that it drives. The builder
    /// should describe a multi-thread runtime.
    fn try_from(builder: &mut Builder) -> (r: Result<Self, std::io::Error>)
        ensures
            r matches Ok(built) ==> built.submits_to() == handle_in(built.runs_on()),
    {
        TokioTp::from_built(build_runtime(builder))
    }
}

impl TryFromSpecImpl<&mut Builder> for TokioTp {
    open spec fn obeys_try_from_spec() -> bool {
        false
    }

    open spec fn try_from_spec(v: &mut Builder) -> Result<Self, std::io::Error> {
        arbitrary()
    }
}

impl Spawn for TokioTp {
    /// Hands the task to the runtime and lets go of the runtime's handle to it,
    /// so that the task runs unattended. The runtime never refuses a task.
    fn spawn_obj(&self, future: FutureObj<'static, ()>) -> (accepted: Result<(), SpawnError>)
        ensures
            accepted is Ok,
    {
        let _ = spawn_on_tokio(&self.handle, future);
        Ok(())
    }
}

impl Spawn for TokioHandle {
    /// Hands the task to the runtime and lets go of the runtime's handle to it,
    /// so that the task runs unattended. The runtime never refuses a task.
    fn spawn_obj(&self, future: FutureObj<'static, ()>) -> (accepted: Result<(), SpawnError>)
        ensures
            accepted is Ok,
    {
        let _ = spawn_on_tokio(&self.spawner, future);
        Ok(())
    }
}

} // verus!
