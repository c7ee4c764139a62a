//! The life of a task handle as plain data.
//!
//! A handle is created attached to its task. From there exactly one of three
//! things happens to it: it is detached, it is awaited until the task's output
//! arrives, or it is dropped. Only the last one may cancel the task, and how it
//! does so depends on what the engine gave the handle to hold on to.
//!
//! Nothing in this module touches an engine. The handle and the adapters take
//! every decision here and carry it out elsewhere. The functions that a handle
//! calls while it is dropped promise not to unwind.

use vstd::prelude::*;

verus! {

/// What a handle holds on to its task with. It is chosen when the task is
/// submitted and stays the same for as long as the handle lives.
#[derive(Clone, Copy, Debug, PartialEq, Eq, Structural)]
pub enum Backing {
    /// The engine's own handle together with a cancel token.
    NativeCancellable,
    /// A companion receiver; the task is wrapped so that it stops advancing once
    /// the companion is gone.
    RemoteHandle,
    /// The engine's own handle and nothing else: the task cannot be cancelled.
    Plain,
}

/// Where a handle stands. `Attached` is where every handle starts; the other two
/// are final.
#[derive(Clone, Copy, Debug, PartialEq, Eq, Structural)]
pub enum Phase {
    /// Dropping the handle cancels the task as far as the backing allows.
    Attached,
    /// The task runs unattended; its output can no longer be had.
    Detached,
    /// The task is over and the handle has nothing more to give.
    Completed,
}

/// What dropping a handle does to its task.
#[derive(Clone, Copy, Debug, PartialEq, Eq, Structural)]
pub enum Cancellation {
    /// Fire the cancel token: the engine does not poll the task again.
    Abort,
    /// Let go of the companion: the wrapped task notices the next time it is
    /// scheduled and gives up instead of advancing.
    ReleaseCompanion,
    /// Leave the task alone.
    Nothing,
}

/// Something that happens to a handle while it is still around.
#[derive(Clone, Copy, Debug, PartialEq, Eq, Structural)]
pub enum Event {
    /// The owner detached the handle.
    Detach,
    /// Awaiting the handle came to an end.
    Resolve,
}

/// The state of one handle: how it is backed and where it stands.
#[derive(Clone, Copy, Debug, PartialEq, Eq, Structural)]
pub struct Lifecycle {
    pub backing: Backing,
    pub phase: Phase,
}

impl Backing {
    /// The backing an adapter picks for an engine: the cancel token where the
    /// engine has one, else the companion where its tasks can be wrapped, else
    /// the plain handle.
    pub open spec fn selected(cancel_token: bool, companion: bool) -> Backing {
        if cancel_token {
            Backing::NativeCancellable
        } else if companion {
            Backing::RemoteHandle
        } else {
            Backing::Plain
        }
    }

    /// Picks the backing for an engine from what the engine offers.
    pub fn select(cancel_token: bool, companion: bool) -> (backing: Backing)
        ensures
            backing == Backing::selected(cancel_token, companion),
        opens_invariants none
        no_unwind
    {
        if cancel_token {
            Backing::NativeCancellable
        } else if companion {
            Backing::RemoteHandle
        } else {
            Backing::Plain
        }
    }

    /// What dropping an attached handle of this backing does.
    pub open spec fn cancellation(self) -> Cancellation {
        match self {
            Backing::NativeCancellable => Cancellation::Abort,
            Backing::RemoteHandle => Cancellation::ReleaseCompanion,
            Backing::Plain => Cancellation::Nothing,
        }
    }
}

impl Phase {
    /// Whether the handle has reached one of its two final phases.
    pub open spec fn is_final(self) -> bool {
        self != Phase::Attached
    }
}

impl Lifecycle {
    /// The state of a handle right after its task was submitted.
    pub open spec fn submitted(backing: Backing) -> Lifecycle {
        Lifecycle { backing, phase: Phase::Attached }
    }

    /// The state after `detach`. A handle that is already final stays as it is.
    pub open spec fn detached(self) -> Lifecycle {
        match self.phase {
            Phase::Attached => Lifecycle { backing: self.backing, phase: Phase::Detached },
            _ => self,
        }
    }

    /// The state after awaiting came to an end. A handle that is already final
    /// stays as it is.
    pub open spec fn resolved(self) -> Lifecycle {
        match self.phase {
            Phase::Attached => Lifecycle { backing: self.backing, phase: Phase::Completed },
            _ => self,
        }
    }

    /// What dropping a handle in this state does to its task.
    pub open spec fn dropped(self) -> Cancellation {
        match self.phase {
            Phase::Attached => self.backing.cancellation(),
            _ => Cancellation::Nothing,
        }
    }

    /// The state after one event.
    pub open spec fn after(self, event: Event) -> Lifecycle {
        match event {
            Event::Detach => self.detached(),
            Event::Resolve => self.resolved(),
        }
    }

    /// The state after a run of events, first to last.
    pub open spec fn after_all(self, events: Seq<Event>) -> Lifecycle
        decreases events.len(),
    {
        if events.len() == 0 {
            self
        } else {
            self.after(events[0]).after_all(events.skip(1))
        }
    }

    /// Starts the life of a handle with the given backing.
    pub fn submit(backing: Backing) -> (state: Lifecycle)
        ensures
            state == Lifecycle::submitted(backing),
    {
        Lifecycle { backing, phase: Phase::Attached }
    }

    /// Detaches: an attached handle becomes detached, a final one is left alone.
    pub fn detach(self) -> (state: Lifecycle)
        ensures
            state == self.detached(),
    {
        match self.phase {
            Phase::Attached => Lifecycle { backing: self.backing, phase: Phase::Detached },
            _ => self,
        }
    }

    /// Ends awaiting: an attached handle becomes completed, a final one is left
    /// alone.
    pub fn resolve(self) -> (state: Lifecycle)
        ensures
            state == self.resolved(),
        opens_invariants none
        no_unwind
    {
        match self.phase {
            Phase::Attached => Lifecycle { backing: self.backing, phase: Phase::Completed },
            _ => self,
        }
    }

    /// Decides what dropping the handle does to its task.
    pub fn on_drop(self) -> (what: Cancellation)
        ensures
            what == self.dropped(),
        opens_invariants none
        no_unwind
    {
        match self.phase {
            Phase::Attached => match self.backing {
                Backing::NativeCancellable => Cancellation::Abort,
                Backing::RemoteHandle => Cancellation::ReleaseCompanion,
                Backing::Plain => Cancellation::Nothing,
            },
            _ => Cancellation::Nothing,
        }
    }

    /// Whether the handle is still attached to its task.
    pub fn is_attached(self) -> (attached: bool)
        ensures
            attached == (self.phase == Phase::Attached),
    {
        match self.phase {
            Phase::Attached => true,
            _ => false,
        }
    }
}

/// Dropping an attached handle fires the cancel token of a native-cancellable
/// backing, lets go of the companion of a remote-handle backing, and leaves the
/// task of a plain backing alone.
pub proof fn lemma_drop_while_attached(backing: Backing)
    ensures
        Lifecycle::submitted(backing).dropped() == backing.cancellation(),
        backing == Backing::NativeCancellable ==> Lifecycle::submitted(backing).dropped()
            == Cancellation::Abort,
        backing == Backing::RemoteHandle ==> Lifecycle::submitted(backing).dropped()
            == Cancellation::ReleaseCompanion,
        backing == Backing::Plain ==> Lifecycle::submitted(backing).dropped()
            == Cancellation::Nothing,
{
}

/// Once a handle was detached, dropping it leaves the task alone, whatever the
/// backing and whatever happens to the handle in between.
pub proof fn lemma_detached_never_cancels(state: Lifecycle, events: Seq<Event>)
    ensures
        state.detached().after_all(events).dropped() == Cancellation::Nothing,
{
    lemma_final_stays(state.detached(), events);
}

/// Once awaiting came to an end, dropping the handle leaves the task alone.
pub proof fn lemma_completed_never_cancels(state: Lifecycle, events: Seq<Event>)
    ensures
        state.resolved().after_all(events).dropped() == Cancellation::Nothing,
{
    lemma_final_stays(state.resolved(), events);
}

/// A handle in a final phase stays exactly as it is: no run of events brings it
/// back to attached, or from one final phase to the other.
pub proof fn lemma_final_stays(state: Lifecycle, events: Seq<Event>)
    requires
        state.phase.is_final(),
    ensures
        state.after_all(events) == state,
    decreases events.len(),
{
    if events.len() > 0 {
        lemma_final_stays(state.after(events[0]), events.skip(1));
    }
}

/// The backing is fixed at submission: no run of events changes it.
pub proof fn lemma_backing_is_fixed(state: Lifecycle, events: Seq<Event>)
    ensures
        state.after_all(events).backing == state.backing,
    decreases events.len(),
{
    if events.len() > 0 {
        lemma_backing_is_fixed(state.after(events[0]), events.skip(1));
    }
}

/// A handle is attached after a run of events only if it was attached before
/// and nothing happened to it.
pub proof fn lemma_attached_means_untouched(state: Lifecycle, events: Seq<Event>)
    requires
        state.after_all(events).phase == Phase::Attached,
    ensures
        state.phase == Phase::Attached,
        events.len() == 0,
{
    if events.len() > 0 {
        lemma_final_stays(state.after(events[0]), events.skip(1));
    }
}

/// Detaching and ending the await exclude each other: whichever comes first
/// decides the final phase.
pub proof fn lemma_first_event_decides(backing: Backing, first: Event, events: Seq<Event>)
    ensures
        Lifecycle::submitted(backing).after(first).after_all(events) == (Lifecycle {
            backing,
            phase: match first {
                Event::Detach => Phase::Detached,
                Event::Resolve => Phase::Completed,
            },
        }),
{
    lemma_final_stays(Lifecycle::submitted(backing).after(first), events);
}

} // verus!
