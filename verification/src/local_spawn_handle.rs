//! Spawning a task that is bound to its thread, and getting a handle to it.

use vstd::prelude::*;
use vstd::future::FutureAdditionalSpecFns;
use std::future::Future;
use std::rc::Rc;
use std::sync::Arc;
use futures_executor::LocalSpawner;
use futures_task::LocalFutureObj;
use futures_task::SpawnError;
use crate::async_std_pool::AsyncStd;
use crate::lifecycle::Backing;
use crate::lifecycle::Lifecycle;
use crate::lifecycle::Phase;
use crate::outside::abortable;
use crate::outside::erase_local;
use crate::outside::spawn_local_on_async_std;
use crate::outside::spawn_local_on_local_pool;
use crate::outside::spawn_on_local_set;
use crate::remote_handle::abortable_handle_local;
use crate::remote_handle::remote_handle;
use crate::task_handle::TaskHandle;
use crate::tokio_ct::TokioCt;

verus! {

/// An engine that takes a task which must stay on this thread and gives back a
/// handle to await its output.
///
/// The task comes as a `LocalFutureObj`, so that the trait can be used behind
/// a pointer. `LocalSpawnHandleExt` takes any future that fits and makes the
/// `LocalFutureObj` itself.
pub trait LocalSpawnHandle<Out: 'static> {
    /// Submits the task. Where the engine takes it, the handle that comes back
    /// is attached to it; where the engine refuses it, the refusal comes back
    /// and the task is dropped.
    fn spawn_handle_local_obj(&self, future: LocalFutureObj<'static, Out>) -> (r: Result<
        TaskHandle<Out>,
        SpawnError,
    >)
        ensures
            r matches Ok(handle) ==> handle.lifecycle().phase == Phase::Attached
                && handle.well_formed(),
    ;
}

/// Spawning any future that fits on a `LocalSpawnHandle`, without making the
/// `LocalFutureObj` by hand. Every `LocalSpawnHandle` has it.
pub trait LocalSpawnHandleExt<Out: 'static>: LocalSpawnHandle<Out> {
    /// Puts the future behind a pointer and submits it with
    /// `spawn_handle_local_obj`: what comes back is what
    /// `spawn_handle_local_obj` gives for a task that resolves to what the
    /// future resolves to.
    fn spawn_handle_local(&self, future: impl Future<Output = Out> + 'static) -> (r: Result<
        TaskHandle<Out>,
        SpawnError,
    >)
        ensures
            exists|erased: LocalFutureObj<'static, Out>|
                erased@ == future@ && #[trigger] call_ensures(
                    Self::spawn_handle_local_obj,
                    (self, erased),
                    r,
                ),
            r matches Ok(handle) ==> handle.lifecycle().phase == Phase::Attached
                && handle.well_formed(),
    ;
}

impl<T, Out> LocalSpawnHandleExt<Out> for T where T: LocalSpawnHandle<Out> + ?Sized, Out: 'static {
    fn spawn_handle_local(&self, future: impl Future<Output = Out> + 'static) -> (r: Result<
        TaskHandle<Out>,
        SpawnError,
    >) {
        self.spawn_handle_local_obj(erase_local(future))
    }
}

impl<T: ?Sized, Out> LocalSpawnHandle<Out> for Box<T> where T: LocalSpawnHandle<Out>, Out: 'static {
    /// Submits the task to the engine in the box: what comes back is what that
    /// engine gives for it.
    fn spawn_handle_local_obj(&self, future: LocalFutureObj<'static, Out>) -> (r: Result<
        TaskHandle<Out>,
        SpawnError,
    >)
        ensures
            call_ensures(T::spawn_handle_local_obj, (&**self, future), r),
    {
        (**self).spawn_handle_local_obj(future)
    }
}

impl<T: ?Sized, Out> LocalSpawnHandle<Out> for Arc<T> where T: LocalSpawnHandle<Out>, Out: 'static {
    /// Submits the task to the shared engine: what comes back is what that
    /// engine gives for it.
    fn spawn_handle_local_obj(&self, future: LocalFutureObj<'static, Out>) -> (r: Result<
        TaskHandle<Out>,
        SpawnError,
    >)
        ensures
            call_ensures(T::spawn_handle_local_obj, (&**self, future), r),
    {
        (**self).spawn_handle_local_obj(future)
    }
}

impl<T: ?Sized, Out> LocalSpawnHandle<Out> for Rc<T> where T: LocalSpawnHandle<Out>, Out: 'static {
    /// Submits the task to the shared engine: what comes back is what that
    /// engine gives for it.
    fn spawn_handle_local_obj(&self, future: LocalFutureObj<'static, Out>) -> (r: Result<
        TaskHandle<Out>,
        SpawnError,
    >)
        ensures
            call_ensures(T::spawn_handle_local_obj, (&**self, future), r),
    {
        (**self).spawn_handle_local_obj(future)
    }
}

impl<T, Out> LocalSpawnHandle<Out> for &T where T: LocalSpawnHandle<Out>, Out: 'static {
    /// Submits the task to the engine referred to: what comes back is what that
    /// engine gives for it.
    fn spawn_handle_local_obj(&self, future: LocalFutureObj<'static, Out>) -> (r: Result<
        TaskHandle<Out>,
        SpawnError,
    >)
        ensures
            call_ensures(T::spawn_handle_local_obj, (&**self, future), r),
    {
        (**self).spawn_handle_local_obj(future)
    }
}

impl<T, Out> LocalSpawnHandle<Out> for &mut T where T: LocalSpawnHandle<Out>, Out: 'static {
    /// Submits the task to the engine referred to: what comes back is what that
    /// engine gives for it.
    fn spawn_handle_local_obj(&self, future: LocalFutureObj<'static, Out>) -> (r: Result<
        TaskHandle<Out>,
        SpawnError,
    >)
        ensures
            call_ensures(T::spawn_handle_local_obj, (&*old(*self), future), r),
    {
        (**self).spawn_handle_local_obj(future)
    }
}

impl<Out: 'static> LocalSpawnHandle<Out> for TokioCt {
    /// Wraps the task to be abortable and queues it on the set of tasks that
    /// stay on this thread. The set never refuses a task; the handle holds the
    /// cancel token and the join handle that the set gave.
    fn spawn_handle_local_obj(&self, future: LocalFutureObj<'static, Out>) -> (r: Result<
        TaskHandle<Out>,
        SpawnError,
    >)
        ensures
            r is Ok,
            r->Ok_0.lifecycle() == Lifecycle::submitted(Backing::NativeCancellable),
            r->Ok_0.engine_handle() is Some,
    {
        let (fut, a_handle) = abortable(future);
        let handle = spawn_on_local_set(self.local_set(), fut);
        Ok(TaskHandle::native_tokio(handle, a_handle))
    }
}

impl<Out: 'static> LocalSpawnHandle<Out> for AsyncStd {
    /// Wraps the task to be abortable and to send its output, and queues it on
    /// this thread. A task is never refused; the handle holds the cancel token.
    fn spawn_handle_local_obj(&self, future: LocalFutureObj<'static, Out>) -> (r: Result<
        TaskHandle<Out>,
        SpawnError,
    >)
        ensures
            r is Ok,
            r->Ok_0.lifecycle() == Lifecycle::submitted(Backing::NativeCancellable),
    {
        let (task, handle) = abortable_handle_local(future);
        let _ = spawn_local_on_async_std(task);
        Ok(handle)
    }
}

impl<Out: 'static> LocalSpawnHandle<Out> for LocalSpawner {
    /// Wraps the task to watch a companion and queues it on the pool. Where
    /// the pool is gone it refuses the task; else the handle holds the
    /// companion.
    fn spawn_handle_local_obj(&self, future: LocalFutureObj<'static, Out>) -> (r: Result<
        TaskHandle<Out>,
        SpawnError,
    >)
        ensures
            r matches Ok(handle) ==> handle.lifecycle() == Lifecycle::submitted(
                Backing::RemoteHandle,
            ),
    {
        let (task, handle) = remote_handle(future);
        let accepted = spawn_local_on_local_pool(self, task);
        TaskHandle::for_submitted(accepted, handle)
    }
}

} // verus!
