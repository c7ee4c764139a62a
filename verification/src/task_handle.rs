//! The task handle: what a caller gets back for a submitted task.

use vstd::prelude::*;
use std::future::Future;
use std::pin::Pin;
use std::task::Context;
use std::task::Poll;
use futures_channel::oneshot::Canceled;
use futures_channel::oneshot::Receiver;
use futures_channel::oneshot::Sender;
use futures_task::SpawnError;
use futures_util::future::AbortHandle;
use futures_util::future::Aborted;
use crate::lifecycle::Backing;
use crate::lifecycle::Cancellation;
use crate::lifecycle::Lifecycle;
use crate::lifecycle::Phase;
use crate::outside::abort;
use crate::outside::poll_receiver;
use crate::outside::poll_tokio;
use crate::outside::send;
use crate::outside::unpinned;

verus! {

/// What one look at a task brought back.
#[derive(Debug)]
pub enum Outcome<Out> {
    /// The task is still running.
    Pending,
    /// The task ran to its end and produced this.
    Yielded(Out),
    /// The task is over and left no output: it ended early, it panicked, or
    /// its engine gave it up.
    Lost,
}

impl<Out> Outcome<Out> {
    /// Reads what the receiving end of a wrapped task gave.
    pub fn of_received(polled: Poll<Result<Out, Canceled>>) -> (outcome: Outcome<Out>)
        ensures
            outcome == (match polled {
                Poll::Ready(Ok(out)) => Outcome::Yielded(out),
                Poll::Ready(Err(_)) => Outcome::Lost,
                Poll::Pending => Outcome::Pending,
            }),
    {
        match polled {
            Poll::Ready(Ok(out)) => Outcome::Yielded(out),
            Poll::Ready(Err(_)) => Outcome::Lost,
            Poll::Pending => Outcome::Pending,
        }
    }

    /// Reads what a handle to an abortable task gave: the engine's own handle,
    /// which reports a task that it lost as an error, or the receiving end of
    /// a wrapped task.
    pub fn of_abortable<E>(polled: Poll<Result<Result<Out, Aborted>, E>>) -> (outcome: Outcome<
        Out,
    >)
        ensures
            outcome == (match polled {
                Poll::Ready(Ok(Ok(out))) => Outcome::Yielded(out),
                Poll::Ready(_) => Outcome::Lost,
                Poll::Pending => Outcome::Pending,
            }),
    {
        match polled {
            Poll::Ready(Ok(Ok(out))) => Outcome::Yielded(out),
            Poll::Ready(_) => Outcome::Lost,
            Poll::Pending => Outcome::Pending,
        }
    }
}

/// What the handle holds of its task, by backing.
#[verifier::reject_recursive_types(Out)]
#[allow(inconsistent_fields)]
#[derive(Debug)]
enum Inner<Out: 'static> {
    /// An abortable task on a tokio runtime: the runtime's own handle and the
    /// cancel token.
    Tokio { handle: tokio::task::JoinHandle<Result<Out, Aborted>>, a_handle: AbortHandle },
    /// An abortable task that sends its output: the receiving end and the
    /// cancel token.
    Reported { output: Receiver<Result<Out, Aborted>>, a_handle: AbortHandle },
    /// A task that watches its companion: the companion, which receives the
    /// output, and the means to tell the task that it was detached. Both are
    /// held as long as the handle is attached.
    Companion { output: Option<Receiver<Out>>, release: Option<Sender<()>> },
    /// A task that sends its output and cannot be stopped: the receiving end.
    Plain { output: Receiver<Out> },
}

impl<Out: 'static> Inner<Out> {
    /// Whether a cancel token is held.
    spec fn has_token(&self) -> bool {
        self is Tokio || self is Reported
    }

    /// Whether the task was wrapped to watch a companion.
    spec fn is_wrapped(&self) -> bool {
        self is Companion
    }

    /// The backing follows from what is held.
    spec fn backing(&self) -> Backing {
        Backing::selected(self.has_token(), self.is_wrapped())
    }

    /// Tells whether a cancel token is held, and whether the task was wrapped
    /// to watch a companion.
    fn holds(&self) -> (held: (bool, bool))
        ensures
            held == (self.has_token(), self.is_wrapped()),
        opens_invariants none
        no_unwind
    {
        match self {
            Inner::Tokio { .. } => (true, false),
            Inner::Reported { .. } => (true, false),
            Inner::Companion { .. } => (false, true),
            Inner::Plain { .. } => (false, false),
        }
    }

    /// Whether a companion is held.
    spec fn has_companion(&self) -> bool {
        self matches Inner::Companion { output: Some(_), .. }
    }

    /// Hands out the means to tell the task that it was detached, where they
    /// are held. The companion stays.
    fn take_release(&mut self) -> (release: Option<Sender<()>>)
        ensures
            final(self).backing() == old(self).backing(),
            final(self).has_companion() == old(self).has_companion(),
            release is Some ==> old(self).is_wrapped(),
            !old(self).is_wrapped() ==> *final(self) == *old(self),
    {
        match self {
            Inner::Companion { release, .. } => release.take(),
            _ => None,
        }
    }

    /// Lets go of the companion, where one is held.
    fn let_go(&mut self)
        ensures
            final(self).backing() == old(self).backing(),
            !final(self).has_companion(),
            !old(self).is_wrapped() ==> *final(self) == *old(self),
    {
        match self {
            Inner::Companion { output, release } => {
                *output = None;
                *release = None;
            },
            _ => {},
        }
    }

    /// Polls what is held of the task, once. Where the task was wrapped and
    /// its companion is gone there is nothing to poll, and the task counts as
    /// pending.
    fn look(&mut self, cx: &mut Context<'_>) -> (outcome: Outcome<Out>)
        ensures
            final(self).backing() == old(self).backing(),
            final(self).has_companion() == old(self).has_companion(),
            old(self).is_wrapped() && !old(self).has_companion() ==> outcome is Pending
                && *final(self) == *old(self),
    {
        match self {
            Inner::Tokio { handle, .. } => Outcome::of_abortable(poll_tokio(handle, cx)),
            Inner::Reported { output, .. } => Outcome::of_abortable(poll_receiver(output, cx)),
            Inner::Companion { output: Some(companion), .. } => Outcome::of_received(
                poll_receiver(companion, cx),
            ),
            Inner::Companion { output: None, .. } => Outcome::Pending,
            Inner::Plain { output } => Outcome::of_received(poll_receiver(output, cx)),
        }
    }
}

/// A handle to a submitted task.
///
/// Await it for the task's output, `detach` it to let the task run unattended,
/// or drop it to cancel the task as far as the backing allows: at once with a
/// native cancel token, the next time the task is scheduled with a companion,
/// and not at all with a plain handle. The last is meant so: an engine that
/// gives neither a token nor a way to have its tasks give up cannot be told to
/// stop.
///
/// A task that ends without an output, because it panicked or its engine gave
/// it up, leaves the handle completed; awaiting it then stays pending.
///
/// An adapter gets the handle for a task from `remote_handle` or
/// `plain_handle`, together with the wrapped task that it submits.
#[verifier::reject_recursive_types(Out)]
#[derive(Debug)]
pub struct TaskHandle<Out: 'static> {
    phase: Phase,
    inner: Inner<Out>,
}

impl<Out: 'static> TaskHandle<Out> {
    /// The state of the handle: how it is backed and where it stands.
    pub closed spec fn lifecycle(&self) -> Lifecycle {
        Lifecycle { backing: self.inner.backing(), phase: self.phase }
    }

    /// The engine's own handle to the task, where the handle holds one: the
    /// join handle that a tokio runtime gave when it took the task. A handle
    /// that gets the output sent holds none.
    pub closed spec fn engine_handle(&self) -> Option<
        tokio::task::JoinHandle<Result<Out, Aborted>>,
    > {
        match self.inner {
            Inner::Tokio { handle, .. } => Some(handle),
            _ => None,
        }
    }

    /// A handle with a remote-handle backing holds its companion exactly as
    /// long as it is attached. Every handle is made so and stays so.
    pub closed spec fn well_formed(&self) -> bool {
        self.inner.backing() == Backing::RemoteHandle ==> (self.inner.has_companion()
            <==> self.phase == Phase::Attached)
    }

    /// A handle for an abortable task on a tokio runtime: the handle that the
    /// runtime just gave for it, and the token that ends the task early.
    pub(crate) fn native_tokio(
        handle: tokio::task::JoinHandle<Result<Out, Aborted>>,
        a_handle: AbortHandle,
    ) -> (this: Self)
        ensures
            this.lifecycle() == Lifecycle::submitted(Backing::NativeCancellable),
            this.well_formed(),
            this.engine_handle() == Some(handle),
    {
        TaskHandle { phase: Phase::Attached, inner: Inner::Tokio { handle, a_handle } }
    }

    /// A handle for an abortable task that sends its output: the receiving end
    /// and the token that ends the task early.
    pub(crate) fn reported(
        output: Receiver<Result<Out, Aborted>>,
        a_handle: AbortHandle,
    ) -> (this: Self)
        ensures
            this.lifecycle() == Lifecycle::submitted(Backing::NativeCancellable),
            this.well_formed(),
            this.engine_handle() is None,
    {
        TaskHandle { phase: Phase::Attached, inner: Inner::Reported { output, a_handle } }
    }

    /// A handle for a task that watches its companion: the companion and the
    /// means to tell the task that the handle was detached.
    pub(crate) fn companion(output: Receiver<Out>, release: Sender<()>) -> (this: Self)
        ensures
            this.lifecycle() == Lifecycle::submitted(Backing::RemoteHandle),
            this.well_formed(),
            this.engine_handle() is None,
    {
        TaskHandle {
            phase: Phase::Attached,
            inner: Inner::Companion { output: Some(output), release: Some(release) },
        }
    }

    /// A handle for a task that sends its output and cannot be stopped: the
    /// receiving end.
    pub(crate) fn plain(output: Receiver<Out>) -> (this: Self)
        ensures
            this.lifecycle() == Lifecycle::submitted(Backing::Plain),
            this.well_formed(),
            this.engine_handle() is None,
    {
        TaskHandle { phase: Phase::Attached, inner: Inner::Plain { output } }
    }

    /// What a submission comes to, once the engine took or refused the wrapped
    /// task: the handle where it took the task, the engine's refusal where it
    /// did not. With the refusal the handle is given up.
    pub fn for_submitted(accepted: Result<(), SpawnError>, handle: Self) -> (r: Result<
        Self,
        SpawnError,
    >)
        ensures
            r == (match accepted {
                Ok(_) => Ok::<Self, SpawnError>(handle),
                Err(refusal) => Err::<Self, SpawnError>(refusal),
            }),
    {
        match accepted {
            Ok(_) => Ok(handle),
            Err(refusal) => Err(refusal),
        }
    }

    /// The state of the handle.
    pub fn state(&self) -> (state: Lifecycle)
        ensures
            state == self.lifecycle(),
        opens_invariants none
        no_unwind
    {
        let (cancel_token, companion) = self.inner.holds();
        Lifecycle { backing: Backing::select(cancel_token, companion), phase: self.phase }
    }

    /// Lets the task run unattended. The handle is disarmed and given up: the
    /// task's output can no longer be had, and giving the handle up does not
    /// cancel the task. What comes back is the state in which the handle went:
    /// detached if it was attached, and as it was if it had completed.
    pub fn detach(self) -> (state: Lifecycle)
        ensures
            state == self.lifecycle().detached(),
            state.dropped() == Cancellation::Nothing,
    {
        let mut this = self;
        this.disarm();
        this.state()
    }

    /// Brings the handle to its detached state, in which dropping it leaves the
    /// task alone. A task that watches its companion is told to go on without
    /// it, and only then does the companion go: a task that finds the companion
    /// gone has been told before. A handle that is already final stays as it
    /// is.
    pub fn disarm(&mut self)
        ensures
            final(self).lifecycle() == old(self).lifecycle().detached(),
            final(self).lifecycle().dropped() == Cancellation::Nothing,
            final(self).engine_handle() == old(self).engine_handle(),
            old(self).well_formed() ==> final(self).well_formed(),
    {
        match self.inner.take_release() {
            Some(release) => {
                let _ = send(release, ());
            },
            None => {},
        }
        self.inner.let_go();
        self.phase = self.state().detach().phase;
    }

    /// Carries out what dropping the handle means for the task, and says what
    /// that was. The handle is completed afterwards.
    fn cancel(&mut self) -> (what: Cancellation)
        ensures
            what == old(self).lifecycle().dropped(),
            final(self).lifecycle() == old(self).lifecycle().resolved(),
            old(self).well_formed() ==> final(self).well_formed(),
        opens_invariants none
        no_unwind
    {
        let what = self.state().on_drop();
        match what {
            Cancellation::Abort => match &self.inner {
                Inner::Tokio { a_handle, .. } => abort(a_handle),
                Inner::Reported { a_handle, .. } => abort(a_handle),
                _ => {},
            },
            Cancellation::ReleaseCompanion => {
                self.inner = Inner::Companion { output: None, release: None };
            },
            Cancellation::Nothing => {},
        }
        self.phase = self.state().resolve().phase;
        what
    }

    /// Takes in what a look at the task brought back.
    ///
    /// While the handle is attached, an output is handed on and completes the
    /// handle, a lost task completes it without an output, and a pending task
    /// leaves it as it is. A handle that is no longer attached hands on nothing.
    pub fn settle(&mut self, outcome: Outcome<Out>) -> (r: Poll<Out>)
        ensures
            r == (match outcome {
                Outcome::Yielded(out) if old(self).lifecycle().phase == Phase::Attached =>
                    Poll::Ready(out),
                _ => Poll::Pending,
            }),
            final(self).lifecycle() == (match outcome {
                Outcome::Pending => old(self).lifecycle(),
                _ => old(self).lifecycle().resolved(),
            }),
            old(self).well_formed() ==> final(self).well_formed(),
    {
        let attached = self.state().is_attached();
        match outcome {
            Outcome::Pending => Poll::Pending,
            Outcome::Yielded(out) => {
                self.complete();
                if attached {
                    Poll::Ready(out)
                } else {
                    Poll::Pending
                }
            },
            Outcome::Lost => {
                self.complete();
                Poll::Pending
            },
        }
    }

    /// Brings the handle to its completed state and lets go of the companion.
    fn complete(&mut self)
        ensures
            final(self).lifecycle() == old(self).lifecycle().resolved(),
            old(self).well_formed() ==> final(self).well_formed(),
    {
        self.inner.let_go();
        self.phase = self.state().resolve().phase;
    }

    /// Looks at the task once. While the handle is attached this polls what the
    /// handle holds of the task and takes the result in as `settle` says; a
    /// handle that is no longer attached is not polled and stays pending.
    pub fn poll_output(&mut self, cx: &mut Context<'_>) -> (r: Poll<Out>)
        ensures
            old(self).lifecycle().phase != Phase::Attached ==> {
                &&& r is Pending
                &&& final(self).lifecycle() == old(self).lifecycle()
            },
            r is Ready ==> {
                &&& old(self).lifecycle().phase == Phase::Attached
                &&& final(self).lifecycle() == old(self).lifecycle().resolved()
            },
            r is Pending ==> {
                ||| final(self).lifecycle() == old(self).lifecycle()
                ||| final(self).lifecycle() == old(self).lifecycle().resolved()
            },
            old(self).well_formed() ==> final(self).well_formed(),
    {
        if !self.state().is_attached() {
            return Poll::Pending;
        }
        let outcome = self.inner.look(cx);
        self.settle(outcome)
    }
}

impl<Out: 'static> Unpin for TaskHandle<Out> {
}

impl<Out: 'static> Future for TaskHandle<Out> {
    type Output = Out;

    /// Awaiting the handle is looking at the task until it yields.
    fn poll(self: Pin<&mut Self>, cx: &mut Context<'_>) -> Poll<Out> {
        let this = unpinned(self);
        this.poll_output(cx)
    }
}

impl<Out: 'static> Drop for TaskHandle<Out> {
    /// Dropping an attached handle cancels the task as far as the backing
    /// allows; dropping a detached or completed one leaves the task alone.
    fn drop(&mut self)
        opens_invariants none
        no_unwind
    {
        let _ = self.cancel();
    }
}

} // verus!
