//! Bridging a task to its handle: the task is wrapped so that it sends its
//! output to the handle, and, where it is asked to, gives up once the handle
//! is gone.

use vstd::prelude::*;
use std::future::Future;
use std::pin::Pin;
use std::task::Context;
use std::task::Poll;
use futures_channel::oneshot::Receiver;
use futures_channel::oneshot::Sender;
use futures_task::FutureObj;
use futures_task::LocalFutureObj;
use futures_util::future::Aborted;
use crate::lifecycle::Backing;
use crate::lifecycle::Lifecycle;
use crate::outside::abortable;
use crate::outside::channel;
use crate::outside::erase;
use crate::outside::erase_local;
use crate::outside::poll_canceled;
use crate::outside::poll_unpinned;
use crate::outside::send;
use crate::outside::try_recv;
use crate::outside::unpinned;
use crate::task_handle::TaskHandle;

verus! {

/// What a wrapped task does when its engine schedules it.
#[derive(Clone, Copy, Debug, PartialEq, Eq, Structural)]
pub enum Step {
    /// Give up: finish without polling the task, so that the engine drops it.
    Stop,
    /// Poll the task.
    Advance,
}

impl Step {
    /// A wrapped task gives up exactly if it watches its companion, the
    /// companion is gone, and the handle was not detached before it went.
    pub open spec fn decided(watching: bool, companion_gone: bool, released: bool) -> Step {
        if watching && companion_gone && !released {
            Step::Stop
        } else {
            Step::Advance
        }
    }

    /// Decides what a wrapped task does when it is scheduled.
    pub fn decide(watching: bool, companion_gone: bool, released: bool) -> (step: Step)
        ensures
            step == Step::decided(watching, companion_gone, released),
    {
        if watching && companion_gone && !released {
            Step::Stop
        } else {
            Step::Advance
        }
    }
}

/// A task wrapped to send its output to a handle.
///
/// It is the wrapped task that is submitted to the engine. Every time the
/// engine schedules it, it first decides whether to go on: a task that watches
/// its companion gives up once the companion is gone, unless the handle was
/// detached. A task that does not watch runs to its end whatever becomes of
/// the handle. When the task is done its output is sent, and dropped where
/// nobody is left to receive it.
///
/// A panic of the task is not caught here. It unwinds into the engine, which
/// deals with it as with the panic of any task; the sending end goes with the
/// wrapped task, and the handle learns from that that the task is lost.
#[verifier::reject_recursive_types(Fut)]
pub struct Remote<Fut: Future + Unpin> {
    future: Fut,
    output: Option<Sender<Fut::Output>>,
    release: Option<Receiver<()>>,
}

impl<Fut: Future + Unpin> Remote<Fut> {
    /// Whether the wrapped task is over: it ran to its end or gave up.
    pub closed spec fn finished(&self) -> bool {
        self.output is None
    }

    /// Whether the wrapped task gives up once its companion is gone.
    pub closed spec fn watching(&self) -> bool {
        self.release is Some
    }

    /// Wraps a task that watches its companion.
    pub(crate) fn watch(
        future: Fut,
        output: Sender<Fut::Output>,
        release: Receiver<()>,
    ) -> (task: Self)
        ensures
            !task.finished(),
            task.watching(),
    {
        Remote { future, output: Some(output), release: Some(release) }
    }

    /// Wraps a task that runs to its end whatever becomes of the handle.
    pub(crate) fn free(future: Fut, output: Sender<Fut::Output>) -> (task: Self)
        ensures
            !task.finished(),
            !task.watching(),
    {
        Remote { future, output: Some(output), release: None }
    }

    /// Finds out whether the companion is gone and, if so, whether the handle
    /// was detached before it went. A task that does not watch does not ask.
    fn look(&mut self, cx: &mut Context<'_>) -> (seen: (bool, bool))
        ensures
            final(self).finished() == old(self).finished(),
            final(self).watching() == old(self).watching(),
            !old(self).watching() ==> seen == (false, false),
            seen.1 ==> seen.0,
    {
        if self.release.is_none() {
            return (false, false);
        }
        let gone = match &mut self.output {
            Some(output) => match poll_canceled(output, cx) {
                Poll::Ready(_) => true,
                Poll::Pending => false,
            },
            None => false,
        };
        if !gone {
            return (false, false);
        }
        let released = match &mut self.release {
            Some(release) => match try_recv(release) {
                Ok(Some(_)) => true,
                _ => false,
            },
            None => false,
        };
        (gone, released)
    }

    /// Takes the step that follows from what was found: a task that is to stop
    /// is over from here on, and a task that learns that its handle was
    /// detached stops watching.
    fn follow(&mut self, gone: bool, released: bool) -> (step: Step)
        ensures
            step == Step::decided(old(self).watching(), gone, released),
            final(self).finished() == (old(self).finished() || step == Step::Stop),
            final(self).watching() == (old(self).watching() && !released),
    {
        let step = Step::decide(self.release.is_some(), gone, released);
        match step {
            Step::Stop => {
                self.output = None;
            },
            Step::Advance => {},
        }
        if released {
            self.release = None;
        }
        step
    }

    /// Takes in what one poll of the task gave: a task that was ready is over,
    /// and its output is sent; a pending task stays as it is.
    fn conclude(&mut self, polled: Poll<Fut::Output>) -> (r: Poll<()>)
        ensures
            r is Ready <==> polled is Ready,
            final(self).finished() == (old(self).finished() || polled is Ready),
            final(self).watching() == old(self).watching(),
    {
        match polled {
            Poll::Ready(out) => {
                match self.output.take() {
                    Some(output) => {
                        let _ = send(output, out);
                    },
                    None => {},
                }
                Poll::Ready(())
            },
            Poll::Pending => Poll::Pending,
        }
    }

    /// One scheduling of the wrapped task.
    ///
    /// A task that is over stays over and is not polled again. A task that
    /// watches and finds its companion gone, without having been detached,
    /// gives up at once: it is over without having been polled. Any other task
    /// is polled once, and is over if it was ready.
    pub fn advance(&mut self, cx: &mut Context<'_>) -> (r: Poll<()>)
        ensures
            r is Ready <==> final(self).finished(),
            old(self).finished() ==> r is Ready,
            !old(self).watching() ==> !final(self).watching(),
    {
        if self.output.is_none() {
            return Poll::Ready(());
        }
        let (gone, released) = self.look(cx);
        match self.follow(gone, released) {
            Step::Stop => Poll::Ready(()),
            Step::Advance => {
                let polled = poll_unpinned(&mut self.future, cx);
                self.conclude(polled)
            },
        }
    }
}

impl<Fut: Future + Unpin> Unpin for Remote<Fut> {
}

impl<Fut: Future + Unpin> Future for Remote<Fut> {
    type Output = ();

    /// The engine schedules the wrapped task by polling it.
    fn poll(self: Pin<&mut Self>, cx: &mut Context<'_>) -> Poll<()> {
        let this = unpinned(self);
        this.advance(cx)
    }
}

/// Wraps a task for an engine whose tasks can be wrapped: what comes back is
/// the wrapped task, to be submitted, and the handle that holds its companion.
/// Once the handle is dropped, the wrapped task gives up the next time it is
/// scheduled.
pub fn remote_handle<Fut: Future + Unpin + 'static>(future: Fut) -> (pair: (
    Remote<Fut>,
    TaskHandle<Fut::Output>,
))
    ensures
        !pair.0.finished(),
        pair.0.watching(),
        pair.1.lifecycle() == Lifecycle::submitted(Backing::RemoteHandle),
        pair.1.well_formed(),
        pair.1.engine_handle() is None,
{
    let (output, companion) = channel();
    let (releaser, release) = channel();
    (Remote::watch(future, output, release), TaskHandle::companion(companion, releaser))
}

/// Wraps a task for an engine that can neither cancel a task nor have one give
/// up by itself: what comes back is the wrapped task, to be submitted, and a
/// plain handle. The wrapped task runs to its end even if the handle is
/// dropped.
pub fn plain_handle<Fut: Future + Unpin + 'static>(future: Fut) -> (pair: (
    Remote<Fut>,
    TaskHandle<Fut::Output>,
))
    ensures
        !pair.0.finished(),
        !pair.0.watching(),
        pair.1.lifecycle() == Lifecycle::submitted(Backing::Plain),
        pair.1.well_formed(),
        pair.1.engine_handle() is None,
{
    let (output, receiver) = channel();
    (Remote::free(future, output), TaskHandle::plain(receiver))
}

/// Wraps a task to be abortable: what comes back is the wrapped task, to be
/// submitted, and the handle that holds the cancel token.
pub(crate) fn abortable_handle<Out: 'static + Send>(future: FutureObj<'static, Out>) -> (pair: (
    Remote<FutureObj<'static, Result<Out, Aborted>>>,
    TaskHandle<Out>,
))
    ensures
        !pair.0.finished(),
        !pair.0.watching(),
        pair.1.lifecycle() == Lifecycle::submitted(Backing::NativeCancellable),
        pair.1.well_formed(),
        pair.1.engine_handle() is None,
{
    let (fut, a_handle) = abortable(future);
    let (output, receiver) = channel();
    (Remote::free(erase(fut), output), TaskHandle::reported(receiver, a_handle))
}

/// Wraps a task that is bound to its thread to be abortable: what comes back is
/// the wrapped task, to be submitted, and the handle that holds the cancel
/// token.
pub(crate) fn abortable_handle_local<Out: 'static>(future: LocalFutureObj<'static, Out>) -> (pair: (
    Remote<LocalFutureObj<'static, Result<Out, Aborted>>>,
    TaskHandle<Out>,
))
    ensures
        !pair.0.finished(),
        !pair.0.watching(),
        pair.1.lifecycle() == Lifecycle::submitted(Backing::NativeCancellable),
        pair.1.well_formed(),
        pair.1.engine_handle() is None,
{
    let (fut, a_handle) = abortable(future);
    let (output, receiver) = channel();
    (Remote::free(erase_local(fut), output), TaskHandle::reported(receiver, a_handle))
}

/// A wrapped task that watches gives up the first time it is scheduled after
/// its companion went, unless the handle was detached; a task that does not
/// watch never gives up.
pub proof fn lemma_step(companion_gone: bool, released: bool)
    ensures
        Step::decided(true, true, false) == Step::Stop,
        Step::decided(true, companion_gone, true) == Step::Advance,
        Step::decided(true, false, released) == Step::Advance,
        Step::decided(false, companion_gone, released) == Step::Advance,
{
}

} // verus!
