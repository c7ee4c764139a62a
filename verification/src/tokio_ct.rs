//! A tokio runtime that is driven from one thread.

use vstd::prelude::*;
use vstd::future::FutureAdditionalSpecFns;
use vstd::std_specs::convert::TryFromSpecImpl;
use std::future::Future;
use std::rc::Rc;
use futures_task::FutureObj;
use futures_task::LocalFutureObj;
use futures_task::LocalSpawn;
use futures_task::Spawn;
use futures_task::SpawnError;
use tokio::runtime::Builder;
use tokio::runtime::Handle;
use tokio::runtime::Runtime;
use tokio::runtime::TryCurrentError;
use tokio::task::LocalSet;
use crate::outside::block_on_local_set;
use crate::outside::build_runtime;
use crate::outside::current_runtime;
use crate::outside::handle_in;
use crate::outside::handle_of;
use crate::outside::new_local_set;
use crate::outside::spawn_on_local_set;
use crate::outside::spawn_on_tokio;

verus! {

/// Spawns on a tokio runtime that runs its tasks on the thread that calls
/// `block_on`. It takes tasks that are bound to that thread as well as tasks
/// that could change threads.
///
/// A clone spawns on the same runtime. Tasks may be submitted at any time; they
/// are polled only while `block_on` runs.
///
/// The type cannot be sent to another thread, nor shared with one, and
/// everything else here rests on that. A task that is bound to its thread is
/// queued on a set of tasks that is polled by `block_on` alone, so it is polled
/// on the thread that holds this value, which is the thread that made it. The
/// runtime and the set are held behind pointers that are themselves bound to
/// the thread; they must stay so.
///
/// The runtime catches a panic of a task while it polls it. A task must leave
/// nothing half done that outlives it when it unwinds in the middle of a poll.
///
/// The last clone must not be dropped inside a task: tokio does not let a
/// runtime go on a thread that is inside one.
#[derive(Clone, Debug)]
pub struct TokioCt {
    runtime: Rc<Runtime>,
    local: Rc<LocalSet>,
    handle: Handle,
}

impl TokioCt {
    /// The runtime that this executor drives.
    pub closed spec fn runs_on(&self) -> Runtime {
        *self.runtime
    }

    /// The handle through which this executor submits the tasks that may
    /// change threads.
    pub closed spec fn submits_to(&self) -> Handle {
        self.handle
    }

    /// The set on which this executor queues the tasks that are bound to its
    /// thread.
    pub closed spec fn queues_on(&self) -> LocalSet {
        *self.local
    }

    /// Runs the future on this thread until it is done and gives what it
    /// resolved to. While it runs, the tasks that were submitted are polled.
    ///
    /// A thread that is inside a runtime already, as every task is, cannot
    /// block on another future: there the future is handed back as it came and
    /// nothing is run. So it is on a thread that has merely entered the context
    /// of a runtime, since the two cannot be told apart. The executor itself
    /// is the same afterwards either way.
    pub fn block_on<F: Future>(&mut self, f: F) -> (r: Result<F::Output, F>)
        ensures
            r matches Ok(output) ==> output == f@,
            r matches Err(back) ==> back == f,
            *final(self) == *old(self),
    {
        self.block_on_from(current_runtime(), f)
    }

    /// What blocking on a future comes to, once it is known whether this
    /// thread is inside a runtime: where it is inside of none, the future is
    /// run and what it resolved to is given; where it is inside of one, the
    /// future is handed back unrun.
    pub(crate) fn block_on_from<F: Future>(
        &mut self,
        current: Result<Handle, TryCurrentError>,
        f: F,
    ) -> (r: Result<F::Output, F>)
        ensures
            current is Ok ==> r == Err::<F::Output, F>(f),
            current is Err ==> r == Ok::<F::Output, F>(f@),
            *final(self) == *old(self),
    {
        match current {
            Ok(_) => Err(f),
            Err(_) => Ok(block_on_local_set(&self.local, &self.runtime, f)),
        }
    }

    /// The handle that submits tasks to the runtime.
    pub(crate) fn spawner(&self) -> (handle: &Handle)
        ensures
            *handle == self.submits_to(),
    {
        &self.handle
    }

    /// The set of tasks that stay on this thread.
    pub(crate) fn local_set(&self) -> (local: &LocalSet)
        ensures
            *local == self.queues_on(),
    {
        &self.local
    }

    /// What building the runtime comes to: where it was built, the executor
    /// that drives this runtime and submits through the runtime's own handle;
    /// where it was not, the system's error.
    pub fn from_built(built: Result<Runtime, std::io::Error>) -> (r: Result<
        TokioCt,
        std::io::Error,
    >)
        ensures
            match built {
                Ok(runtime) => r is Ok && r->Ok_0.runs_on() == runtime && r->Ok_0.submits_to()
                    == handle_in(runtime),
                Err(error) => r == Err::<TokioCt, std::io::Error>(error),
            },
    {
        match built {
            Ok(runtime) => {
                let handle = handle_of(&runtime).clone();
                Ok(TokioCt { runtime: Rc::new(runtime), local: Rc::new(new_local_set()), handle })
            },
            Err(error) => Err(error),
        }
    }
}

impl TryFrom<&mut Builder> for TokioCt {
    type Error = std::io::Error;

    /// Builds the runtime that the builder describes and wraps it: the executor
    /// submits through the handle of the runtime that it drives. The builder
    /// should describe a current-thread runtime.
    fn try_from(builder: &mut Builder) -> (r: Result<Self, std::io::Error>)
        ensures
            r matches Ok(built) ==> built.submits_to() == handle_in(built.runs_on()),
    {
        TokioCt::from_built(build_runtime(builder))
    }
}

impl TryFromSpecImpl<&mut Builder> for TokioCt {
    open spec fn obeys_try_from_spec() -> bool {
        false
    }

    open spec fn try_from_spec(v: &mut Builder) -> Result<Self, std::io::Error> {
        arbitrary()
    }
}

impl Spawn for TokioCt {
    /// Hands the task to the runtime and lets go of the runtime's handle to it,
    /// so that the task runs unattended. The runtime never refuses a task.
    fn spawn_obj(&self, future: FutureObj<'static, ()>) -> (accepted: Result<(), SpawnError>)
        ensures
            accepted is Ok,
    {
        let _ = spawn_on_tokio(&self.handle, future);
        Ok(())
    }
}

impl LocalSpawn for TokioCt {
    /// Queues the task on the set of tasks that stay on this thread and lets go
    /// of the runtime's handle to it. The set never refuses a task.
    fn spawn_local_obj(&self, future: LocalFutureObj<'static, ()>) -> (accepted: Result<
        (),
        SpawnError,
    >)
        ensures
            accepted is Ok,
    {
        let _ = spawn_on_local_set(&self.local, future);
        Ok(())
    }
}

} // verus!
