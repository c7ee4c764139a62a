//! The engines and helper crates that the library stands on.
//!
//! Their types are opaque here: a value of one is carried from one call to the
//! next and never looked into. Each function below makes exactly one call into
//! an outside crate or into std. None of the bodies is verified; what is claimed
//! of a call stands in its contract and the comment above it says where it
//! comes from. Most claim nothing: what an engine does with a task is not a
//! function of the arguments.
//!
//! None of the calls unwinds by itself in a state in which the library makes
//! it. A call that runs a task or a future runs code that is not the
//! library's, and unwinds where that code does.

use vstd::prelude::*;
use vstd::future::FutureAdditionalSpecFns;
use std::future::Future;
use std::pin::Pin;
use std::task::Context;
use std::task::Poll;
use futures_channel::oneshot::Canceled;
use futures_channel::oneshot::Receiver;
use futures_channel::oneshot::Sender;
use futures_task::FutureObj;
use futures_task::LocalFutureObj;
use futures_task::SpawnError;
use futures_util::future::AbortHandle;
use futures_util::future::Abortable;
use futures_util::future::Aborted;
use futures_util::task::LocalSpawnExt;
use futures_util::task::SpawnExt;
use futures_executor::LocalSpawner;
use futures_executor::ThreadPool;

verus! {

/// `std::task::Poll`, with its two variants.
#[verifier::external_type_specification]
#[verifier::reject_recursive_types(T)]
pub struct ExPoll<T>(Poll<T>);

/// `std::task::Context`.
#[verifier::external_type_specification]
#[verifier::external_body]
pub struct ExContext<'a>(Context<'a>);

/// `std::pin::Pin`.
#[verifier::external_type_specification]
#[verifier::external_body]
#[verifier::reject_recursive_types(Ptr)]
pub struct ExPin<Ptr>(Pin<Ptr>);

/// `std::fmt::Formatter`.
#[verifier::external_type_specification]
#[verifier::external_body]
pub struct ExFormatter<'a>(std::fmt::Formatter<'a>);

/// `std::fmt::Error`.
#[verifier::external_type_specification]
#[verifier::external_body]
pub struct ExFmtError(std::fmt::Error);

/// `std::io::Error`.
#[verifier::external_type_specification]
#[verifier::external_body]
pub struct ExIoError(std::io::Error);

/// `futures_task::FutureObj`: a future behind a pointer, free to change threads.
#[verifier::external_type_specification]
#[verifier::external_body]
#[verifier::reject_recursive_types(T)]
pub struct ExFutureObj<'a, T>(FutureObj<'a, T>);

/// `futures_task::LocalFutureObj`: a future behind a pointer, bound to its thread.
#[verifier::external_type_specification]
#[verifier::external_body]
#[verifier::reject_recursive_types(T)]
pub struct ExLocalFutureObj<'a, T>(LocalFutureObj<'a, T>);

/// `futures_task::SpawnError`: the engine refused the task.
#[verifier::external_type_specification]
#[verifier::external_body]
pub struct ExSpawnError(SpawnError);

/// `futures_util::future::AbortHandle`: the cancel token of an `Abortable`.
#[verifier::external_type_specification]
#[verifier::external_body]
pub struct ExAbortHandle(AbortHandle);

/// `futures_util::future::Abortable`: a future that ends early once its token
/// was fired.
#[verifier::external_type_specification]
#[verifier::external_body]
#[verifier::reject_recursive_types(T)]
pub struct ExAbortable<T>(Abortable<T>);

/// `futures_util::future::Aborted`: what an `Abortable` yields when it ended
/// early.
#[verifier::external_type_specification]
pub struct ExAborted(Aborted);

/// `futures_channel::oneshot::Sender`: the sending end of a channel for one
/// value.
#[verifier::external_type_specification]
#[verifier::external_body]
#[verifier::reject_recursive_types(T)]
pub struct ExSender<T>(Sender<T>);

/// `futures_channel::oneshot::Receiver`: the receiving end of a channel for
/// one value.
#[verifier::external_type_specification]
#[verifier::external_body]
#[verifier::reject_recursive_types(T)]
pub struct ExReceiver<T>(Receiver<T>);

/// `futures_channel::oneshot::Canceled`: the sending end went away without
/// sending.
#[verifier::external_type_specification]
pub struct ExCanceled(Canceled);

/// `tokio::runtime::TryCurrentError`: this thread is not inside a runtime.
#[verifier::external_type_specification]
#[verifier::external_body]
pub struct ExTryCurrentError(tokio::runtime::TryCurrentError);

/// `futures_executor::LocalSpawner`: a handle to a `LocalPool` for submitting
/// tasks.
#[verifier::external_type_specification]
#[verifier::external_body]
pub struct ExLocalSpawner(LocalSpawner);

/// `futures_executor::ThreadPool`.
#[verifier::external_type_specification]
#[verifier::external_body]
pub struct ExThreadPool(ThreadPool);

/// `tokio::runtime::Runtime`.
#[verifier::external_type_specification]
#[verifier::external_body]
pub struct ExRuntime(tokio::runtime::Runtime);

/// `tokio::runtime::Handle`: a handle to a runtime for submitting tasks.
#[verifier::external_type_specification]
#[verifier::external_body]
pub struct ExRuntimeHandle(tokio::runtime::Handle);

/// `tokio::runtime::Builder`.
#[verifier::external_type_specification]
#[verifier::external_body]
pub struct ExRuntimeBuilder(tokio::runtime::Builder);

/// `tokio::task::LocalSet`: the tasks of a runtime that stay on one thread.
#[verifier::external_type_specification]
#[verifier::external_body]
pub struct ExLocalSet(tokio::task::LocalSet);

/// `tokio::task::JoinHandle`.
#[verifier::external_type_specification]
#[verifier::external_body]
#[verifier::reject_recursive_types(T)]
pub struct ExTokioJoinHandle<T>(tokio::task::JoinHandle<T>);

/// `tokio::task::JoinError`: the task panicked or the runtime gave it up.
#[verifier::external_type_specification]
#[verifier::external_body]
pub struct ExTokioJoinError(tokio::task::JoinError);

/// `async_std::task::JoinHandle`.
#[verifier::external_type_specification]
#[verifier::external_body]
#[verifier::reject_recursive_types(T)]
pub struct ExAsyncStdJoinHandle<T>(async_std::task::JoinHandle<T>);

/// `FutureObj::new` on the boxed future. The result polls the given future and
/// nothing else, so it resolves to what that future resolves to.
#[verifier::external_body]
pub(crate) fn erase<F: Future + Send + 'static>(future: F) -> (erased: FutureObj<
    'static,
    F::Output,
>)
    ensures
        erased@ == future@,
{
    FutureObj::new(Box::new(future))
}

/// `LocalFutureObj::new` on the boxed future. The result polls the given future
/// and nothing else, so it resolves to what that future resolves to.
#[verifier::external_body]
pub(crate) fn erase_local<F: Future + 'static>(future: F) -> (erased: LocalFutureObj<
    'static,
    F::Output,
>)
    ensures
        erased@ == future@,
{
    LocalFutureObj::new(Box::new(future))
}

/// `Future::poll` of a tokio `JoinHandle`. Whether the task is over is up to
/// the runtime, so nothing is claimed of the result. The runtime catches the
/// panic of a task and reports it here as an error. The handle must not be
/// polled again once it was ready; only the task handle calls this, on handles
/// that the adapters got from the runtime, and never after a ready one.
#[verifier::external_body]
pub(crate) fn poll_tokio<T>(
    handle: &mut tokio::task::JoinHandle<T>,
    cx: &mut Context<'_>,
) -> Poll<Result<T, tokio::task::JoinError>>
{
    Pin::new(handle).poll(cx)
}

/// `Future::poll` of a task that may be moved. This runs the task's own code
/// up to its next point of suspension, so nothing is claimed of the result.
#[verifier::external_body]
pub(crate) fn poll_unpinned<F: Future + Unpin>(task: &mut F, cx: &mut Context<'_>) -> Poll<
    F::Output,
>
{
    Pin::new(task).poll(cx)
}

/// `oneshot::channel`: the two ends of a new channel for one value.
#[verifier::external_body]
pub(crate) fn channel<T>() -> (Sender<T>, Receiver<T>)
{
    futures_channel::oneshot::channel()
}

/// `Sender::send`: puts the value into the channel, or hands it back where
/// the receiving end is gone.
#[verifier::external_body]
pub(crate) fn send<T>(sender: Sender<T>, value: T) -> Result<(), T>
{
    sender.send(value)
}

/// `Sender::poll_canceled`: ready once the receiving end is gone; else pending,
/// and the task is woken when the receiving end goes.
#[verifier::external_body]
pub(crate) fn poll_canceled<T>(sender: &mut Sender<T>, cx: &mut Context<'_>) -> Poll<()>
{
    sender.poll_canceled(cx)
}

/// `Receiver::try_recv`: the value if one was sent, nothing if the sending end
/// is still there, and an error if it went away without sending.
#[verifier::external_body]
pub(crate) fn try_recv<T>(receiver: &mut Receiver<T>) -> Result<Option<T>, Canceled>
{
    receiver.try_recv()
}

/// `Future::poll` of a `Receiver`: the value once it was sent, an error once
/// the sending end went away without sending, pending until then. It reads
/// flags and a slot, and does not unwind in any state of the channel.
#[verifier::external_body]
pub(crate) fn poll_receiver<T>(receiver: &mut Receiver<T>, cx: &mut Context<'_>) -> Poll<
    Result<T, Canceled>,
>
{
    Pin::new(receiver).poll(cx)
}

/// `Handle::try_current` of tokio: the runtime that this thread is inside of,
/// or an error where it is inside of none. It never panics.
#[verifier::external_body]
pub(crate) fn current_runtime() -> Result<tokio::runtime::Handle, tokio::runtime::TryCurrentError>
{
    tokio::runtime::Handle::try_current()
}

/// `Formatter::write_str`: writes the text to the formatter's output, or fails
/// where the output does.
#[verifier::external_body]
pub(crate) fn write_text(f: &mut std::fmt::Formatter<'_>, text: &str) -> Result<
    (),
    std::fmt::Error,
>
{
    f.write_str(text)
}

/// `Pin::get_mut`: the reference inside the pin, for a value that may be moved.
#[verifier::external_body]
pub(crate) fn unpinned<'a, T: Unpin>(pinned: Pin<&'a mut T>) -> &'a mut T
{
    pinned.get_mut()
}

/// `futures_util::future::abortable`: wraps the future and hands out the token
/// that ends it early.
#[verifier::external_body]
pub(crate) fn abortable<F: Future>(future: F) -> (Abortable<F>, AbortHandle)
{
    futures_util::future::abortable(future)
}

/// `AbortHandle::abort`: sets the token's flag and wakes the wrapped task. It
/// stores one flag and calls one waker; it does not unwind unless the engine's
/// waker does.
#[verifier::external_body]
pub(crate) fn abort(token: &AbortHandle)
    opens_invariants none
    no_unwind
{
    token.abort()
}

/// `SpawnExt::spawn` on a `LocalSpawner`: boxes the task and queues it on the
/// pool, or refuses it when the pool is gone.
#[verifier::external_body]
pub(crate) fn spawn_on_local_pool<F: Future<Output = ()> + Send + 'static>(
    spawner: &LocalSpawner,
    task: F,
) -> Result<(), SpawnError>
{
    spawner.spawn(task)
}

/// `LocalSpawnExt::spawn_local` on a `LocalSpawner`: boxes the task and queues
/// it on the pool, or refuses it when the pool is gone.
#[verifier::external_body]
pub(crate) fn spawn_local_on_local_pool<F: Future<Output = ()> + 'static>(
    spawner: &LocalSpawner,
    task: F,
) -> Result<(), SpawnError>
{
    spawner.spawn_local(task)
}

/// `SpawnExt::spawn` on a `ThreadPool`: boxes the task and sends it to the
/// workers. The pool takes every task: its `spawn_obj` ends in `Ok(())` on
/// every path.
#[verifier::external_body]
pub(crate) fn spawn_on_thread_pool<F: Future<Output = ()> + Send + 'static>(
    pool: &ThreadPool,
    task: F,
) -> (accepted: Result<(), SpawnError>)
    ensures
        accepted is Ok,
{
    pool.spawn(task)
}

/// `Builder::build` of tokio: makes the runtime that the builder describes, or
/// fails where the system refuses what the runtime needs.
#[verifier::external_body]
pub(crate) fn build_runtime(builder: &mut tokio::runtime::Builder) -> Result<
    tokio::runtime::Runtime,
    std::io::Error,
>
{
    builder.build()
}

/// The handle of a runtime: what `Runtime::handle` of tokio returns for it. The
/// handle is a field of the runtime, set when the runtime is built and never
/// changed.
pub uninterp spec fn handle_in(runtime: tokio::runtime::Runtime) -> tokio::runtime::Handle;

/// `Runtime::handle` of tokio: the runtime's own handle for submitting tasks.
#[verifier::external_body]
pub(crate) fn handle_of(runtime: &tokio::runtime::Runtime) -> (handle: &tokio::runtime::Handle)
    ensures
        *handle == handle_in(*runtime),
{
    runtime.handle()
}

/// `Clone::clone` of a tokio `Handle`. The impl is derived, and a `Handle`
/// holds nothing but a counted pointer to the scheduler of its runtime: the
/// clone points to the same scheduler, so that as a value it is the handle it
/// was cloned from.
pub assume_specification[ <tokio::runtime::Handle as Clone>::clone ](
    this: &tokio::runtime::Handle,
) -> (same: tokio::runtime::Handle)
    ensures
        same == *this,
;

/// `LocalSet::new`: an empty set of tasks that stay on the thread that drives
/// them.
#[verifier::external_body]
pub(crate) fn new_local_set() -> tokio::task::LocalSet
{
    tokio::task::LocalSet::new()
}

/// `Handle::spawn` of tokio: hands the task to the runtime, which polls it
/// while it is driven.
#[verifier::external_body]
pub(crate) fn spawn_on_tokio<F>(
    handle: &tokio::runtime::Handle,
    task: F,
) -> tokio::task::JoinHandle<F::Output> where F: Future + Send + 'static, F::Output: Send + 'static
{
    handle.spawn(task)
}

/// `LocalSet::spawn_local` of tokio: queues the task on the set, which polls it
/// on the thread that drives the set.
#[verifier::external_body]
pub(crate) fn spawn_on_local_set<F>(
    local: &tokio::task::LocalSet,
    task: F,
) -> tokio::task::JoinHandle<F::Output> where F: Future + 'static, F::Output: 'static
{
    local.spawn_local(task)
}

/// `LocalSet::block_on` of tokio: drives the runtime and the set on this thread
/// until the future is done, and returns what it resolved to. It panics where
/// the future does. It also panics on a thread that is inside a runtime; the
/// executor calls it only after `current_runtime` found that this thread is
/// not.
#[verifier::external_body]
pub(crate) fn block_on_local_set<F: Future>(
    local: &tokio::task::LocalSet,
    runtime: &tokio::runtime::Runtime,
    future: F,
) -> (output: F::Output)
    ensures
        output == future@,
{
    local.block_on(runtime, future)
}

/// `Runtime::block_on` of tokio: drives the runtime on this thread until the
/// future is done, and returns what it resolved to. It panics where the future
/// does. It also panics on a thread that is inside a runtime; the executor
/// calls it only after `current_runtime` found that this thread is not.
#[verifier::external_body]
pub(crate) fn block_on_runtime<F: Future>(runtime: &tokio::runtime::Runtime, future: F) -> (output:
    F::Output)
    ensures
        output == future@,
{
    runtime.block_on(future)
}

/// `async_std::task::spawn`: hands the task to the process-wide pool.
#[verifier::external_body]
pub(crate) fn spawn_on_async_std<F>(task: F) -> async_std::task::JoinHandle<F::Output> where
    F: Future + Send + 'static,
    F::Output: Send + 'static,
{
    async_std::task::spawn(task)
}

/// `async_std::task::spawn_local`: queues the task on the executor of this
/// thread, which polls it while this thread blocks on a future.
#[verifier::external_body]
pub(crate) fn spawn_local_on_async_std<F>(task: F) -> async_std::task::JoinHandle<F::Output> where
    F: Future + 'static,
    F::Output: 'static,
{
    async_std::task::spawn_local(task)
}

/// `async_std::task::block_on`: blocks this thread until the future is done,
/// and returns what it resolved to. Meanwhile it polls the tasks that were
/// queued on this thread. It panics where the future does.
#[verifier::external_body]
pub(crate) fn block_on_async_std<F: Future>(future: F) -> (output: F::Output)
    ensures
        output == future@,
{
    async_std::task::block_on(future)
}

} // verus!
