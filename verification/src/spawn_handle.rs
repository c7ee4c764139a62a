//! Spawning a task that may change threads, and getting a handle to it.

use vstd::prelude::*;
use vstd::future::FutureAdditionalSpecFns;
use std::future::Future;
use std::rc::Rc;
use std::sync::Arc;
use futures_executor::LocalSpawner;
use futures_executor::ThreadPool;
use futures_task::FutureObj;
use futures_task::SpawnError;
use crate::async_std_pool::AsyncStd;
use crate::lifecycle::Backing;
use crate::lifecycle::Lifecycle;
use crate::lifecycle::Phase;
use crate::outside::abortable;
use crate::outside::erase;
use crate::outside::spawn_on_async_std;
use crate::outside::spawn_on_local_pool;
use crate::outside::spawn_on_thread_pool;
use crate::outside::spawn_on_tokio;
use crate::remote_handle::abortable_handle;
use crate::remote_handle::remote_handle;
use crate::task_handle::TaskHandle;
use crate::tokio_ct::TokioCt;
use crate::tokio_tp::TokioHandle;
use crate::tokio_tp::TokioTp;

verus! {

/// An engine that takes a task and gives back a handle to await its output.
///
/// The task comes as a `FutureObj`, so that the trait can be used behind a
/// pointer: `Box<dyn SpawnHandle<Out>>` spawns like the engine inside it. The
/// price is that the trait is generic over the output. `SpawnHandleExt` takes
/// any future that fits and makes the `FutureObj` itself.
pub trait SpawnHandle<Out: 'static + Send> {
    /// Submits the task. Where the engine takes it, the handle that comes back
    /// is attached to it; where the engine refuses it, the refusal comes back
    /// and the task is dropped.
    fn spawn_handle_obj(&self, future: FutureObj<'static, Out>) -> (r: Result<
        TaskHandle<Out>,
        SpawnError,
    >)
        ensures
            r matches Ok(handle) ==> handle.lifecycle().phase == Phase::Attached
                && handle.well_formed(),
    ;
}

/// Spawning any future that fits on a `SpawnHandle`, without making the
/// `FutureObj` by hand. Every `SpawnHandle` has it.
pub trait SpawnHandleExt<Out: 'static + Send>: SpawnHandle<Out> {
    /// Puts the future behind a pointer and submits it with `spawn_handle_obj`:
    /// what comes back is what `spawn_handle_obj` gives for a task that
    /// resolves to what the future resolves to.
    fn spawn_handle(&self, future: impl Future<Output = Out> + Send + 'static) -> (r: Result<
        TaskHandle<Out>,
        SpawnError,
    >)
        ensures
            exists|erased: FutureObj<'static, Out>|
                erased@ == future@ && #[trigger] call_ensures(
                    Self::spawn_handle_obj,
                    (self, erased),
                    r,
                ),
            r matches Ok(handle) ==> handle.lifecycle().phase == Phase::Attached
                && handle.well_formed(),
    ;
}

impl<T, Out> SpawnHandleExt<Out> for T where T: SpawnHandle<Out> + ?Sized, Out: 'static + Send {
    fn spawn_handle(&self, future: impl Future<Output = Out> + Send + 'static) -> (r: Result<
        TaskHandle<Out>,
        SpawnError,
    >) {
        self.spawn_handle_obj(erase(future))
    }
}

impl<T: ?Sized, Out> SpawnHandle<Out> for Box<T> where T: SpawnHandle<Out>, Out: 'static + Send {
    /// Submits the task to the engine in the box: what comes back is what that
    /// engine gives for it.
    fn spawn_handle_obj(&self, future: FutureObj<'static, Out>) -> (r: Result<
        TaskHandle<Out>,
        SpawnError,
    >)
        ensures
            call_ensures(T::spawn_handle_obj, (&**self, future), r),
    {
        (**self).spawn_handle_obj(future)
    }
}

impl<T: ?Sized, Out> SpawnHandle<Out> for Arc<T> where T: SpawnHandle<Out>, Out: 'static + Send {
    /// Submits the task to the shared engine: what comes back is what that
    /// engine gives for it.
    fn spawn_handle_obj(&self, future: FutureObj<'static, Out>) -> (r: Result<
        TaskHandle<Out>,
        SpawnError,
    >)
        ensures
            call_ensures(T::spawn_handle_obj, (&**self, future), r),
    {
        (**self).spawn_handle_obj(future)
    }
}

impl<T: ?Sized, Out> SpawnHandle<Out> for Rc<T> where T: SpawnHandle<Out>, Out: 'static + Send {
    /// Submits the task to the shared engine: what comes back is what that
    /// engine gives for it.
    fn spawn_handle_obj(&self, future: FutureObj<'static, Out>) -> (r: Result<
        TaskHandle<Out>,
        SpawnError,
    >)
        ensures
            call_ensures(T::spawn_handle_obj, (&**self, future), r),
    {
        (**self).spawn_handle_obj(future)
    }
}

impl<T, Out> SpawnHandle<Out> for &T where T: SpawnHandle<Out>, Out: 'static + Send {
    /// Submits the task to the engine referred to: what comes back is what that
    /// engine gives for it.
    fn spawn_handle_obj(&self, future: FutureObj<'static, Out>) -> (r: Result<
        TaskHandle<Out>,
        SpawnError,
    >)
        ensures
            call_ensures(T::spawn_handle_obj, (&**self, future), r),
    {
        (**self).spawn_handle_obj(future)
    }
}

impl<T, Out> SpawnHandle<Out> for &mut T where T: SpawnHandle<Out>, Out: 'static + Send {
    /// Submits the task to the engine referred to: what comes back is what that
    /// engine gives for it.
    fn spawn_handle_obj(&self, future: FutureObj<'static, Out>) -> (r: Result<
        TaskHandle<Out>,
        SpawnError,
    >)
        ensures
            call_ensures(T::spawn_handle_obj, (&*old(*self), future), r),
    {
        (**self).spawn_handle_obj(future)
    }
}

impl<Out: 'static + Send> SpawnHandle<Out> for TokioCt {
    /// Wraps the task to be abortable and hands it to the runtime. The runtime
    /// never refuses a task; the handle holds the cancel token and the join
    /// handle that the runtime gave.
    fn spawn_handle_obj(&self, future: FutureObj<'static, Out>) -> (r: Result<
        TaskHandle<Out>,
        SpawnError,
    >)
        ensures
            r is Ok,
            r->Ok_0.lifecycle() == Lifecycle::submitted(Backing::NativeCancellable),
            r->Ok_0.engine_handle() is Some,
    {
        let (fut, a_handle) = abortable(future);
        let handle = spawn_on_tokio(self.spawner(), fut);
        Ok(TaskHandle::native_tokio(handle, a_handle))
    }
}

impl<Out: 'static + Send> SpawnHandle<Out> for TokioTp {
    /// Wraps the task to be abortable and hands it to the runtime. The runtime
    /// never refuses a task; the handle holds the cancel token and the join
    /// handle that the runtime gave.
    fn spawn_handle_obj(&self, future: FutureObj<'static, Out>) -> (r: Result<
        TaskHandle<Out>,
        SpawnError,
    >)
        ensures
            r is Ok,
            r->Ok_0.lifecycle() == Lifecycle::submitted(Backing::NativeCancellable),
            r->Ok_0.engine_handle() is Some,
    {
        let (fut, a_handle) = abortable(future);
        let handle = spawn_on_tokio(self.spawner(), fut);
        Ok(TaskHandle::native_tokio(handle, a_handle))
    }
}

impl<Out: 'static + Send> SpawnHandle<Out> for TokioHandle {
    /// Wraps the task to be abortable and hands it to the runtime. The runtime
    /// never refuses a task; the handle holds the cancel token and the join
    /// handle that the runtime gave.
    fn spawn_handle_obj(&self, future: FutureObj<'static, Out>) -> (r: Result<
        TaskHandle<Out>,
        SpawnError,
    >)
        ensures
            r is Ok,
            r->Ok_0.lifecycle() == Lifecycle::submitted(Backing::NativeCancellable),
            r->Ok_0.engine_handle() is Some,
    {
        let (fut, a_handle) = abortable(future);
        let handle = spawn_on_tokio(self.spawner(), fut);
        Ok(TaskHandle::native_tokio(handle, a_handle))
    }
}

impl<Out: 'static + Send> SpawnHandle<Out> for AsyncStd {
    /// Wraps the task to be abortable and to send its output, and hands it to
    /// the pool. The pool never refuses a task; the handle holds the cancel
    /// token.
    fn spawn_handle_obj(&self, future: FutureObj<'static, Out>) -> (r: Result<
        TaskHandle<Out>,
        SpawnError,
    >)
        ensures
            r is Ok,
            r->Ok_0.lifecycle() == Lifecycle::submitted(Backing::NativeCancellable),
    {
        let (task, handle) = abortable_handle(future);
        let _ = spawn_on_async_std(task);
        Ok(handle)
    }
}

impl<Out: 'static + Send> SpawnHandle<Out> for LocalSpawner {
    /// Wraps the task to watch a companion and queues it on the pool. Where
    /// the pool is gone it refuses the task; else the handle holds the
    /// companion.
    fn spawn_handle_obj(&self, future: FutureObj<'static, Out>) -> (r: Result<
        TaskHandle<Out>,
        SpawnError,
    >)
        ensures
            r matches Ok(handle) ==> handle.lifecycle() == Lifecycle::submitted(
                Backing::RemoteHandle,
            ),
    {
        let (task, handle) = remote_handle(future);
        let accepted = spawn_on_local_pool(self, task);
        TaskHandle::for_submitted(accepted, handle)
    }
}

impl<Out: 'static + Send> SpawnHandle<Out> for ThreadPool {
    /// Wraps the task to watch a companion and sends it to the workers.
    /// The pool never refuses a task; the handle holds the companion.
    fn spawn_handle_obj(&self, future: FutureObj<'static, Out>) -> (r: Result<
        TaskHandle<Out>,
        SpawnError,
    >)
        ensures
            r is Ok,
            r->Ok_0.lifecycle() == Lifecycle::submitted(Backing::RemoteHandle),
    {
        let (task, handle) = remote_handle(future);
        let accepted = spawn_on_thread_pool(self, task);
        TaskHandle::for_submitted(accepted, handle)
    }
}

} // verus!
