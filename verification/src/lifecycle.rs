//! The life cycle of the listener worker, as a function from state and event
//! to next state and action. Whoever runs the worker performs the action and
//! reports the next event; the decisions are all here.

use vstd::prelude::*;

verus! {

/// Where the worker stands.
#[derive(Clone, Copy, Debug, PartialEq, Eq, Structural)]
pub enum WorkerState {
    /// The socket is not bound yet.
    Starting,
    /// Connections are accepted and served.
    Accepting,
    /// No new connection is accepted; exchanges in flight may finish.
    Stopping,
    /// The worker has left its loop for good.
    Stopped,
}

/// What can happen to the worker.
#[derive(Clone, Copy, Debug, PartialEq, Eq, Structural)]
pub enum WorkerEvent {
    /// The socket was bound.
    Bound,
    /// The socket could not be bound.
    BindFailed,
    /// The cancellation signal fired.
    Cancelled,
    /// The last exchange in flight has finished.
    Drained,
}

/// What the worker is to do next.
#[derive(Clone, Copy, Debug, PartialEq, Eq, Structural)]
pub enum WorkerAction {
    /// Report the bound address to the creator and start serving.
    Announce,
    /// Report the failure to the creator and leave.
    Abort,
    /// Stop accepting connections and let exchanges in flight finish.
    StopAccepting,
    /// Leave the loop.
    Exit,
    /// Nothing.
    Ignore,
}

impl WorkerState {
    /// How far along its life cycle the worker is.
    pub open spec fn rank(self) -> nat {
        match self {
            WorkerState::Starting => 0,
            WorkerState::Accepting => 1,
            WorkerState::Stopping => 2,
            WorkerState::Stopped => 3,
        }
    }

    /// The state after `event`.
    pub open spec fn after(self, event: WorkerEvent) -> WorkerState {
        match (self, event) {
            (WorkerState::Starting, WorkerEvent::Bound) => WorkerState::Accepting,
            (WorkerState::Starting, WorkerEvent::BindFailed) => WorkerState::Stopped,
            (WorkerState::Starting, WorkerEvent::Cancelled) => WorkerState::Stopped,
            (WorkerState::Accepting, WorkerEvent::Cancelled) => WorkerState::Stopping,
            (WorkerState::Stopping, WorkerEvent::Drained) => WorkerState::Stopped,
            _ => self,
        }
    }

    /// What `event` asks of a worker in this state.
    pub open spec fn action_on(self, event: WorkerEvent) -> WorkerAction {
        match (self, event) {
            (WorkerState::Starting, WorkerEvent::Bound) => WorkerAction::Announce,
            (WorkerState::Starting, WorkerEvent::BindFailed) => WorkerAction::Abort,
            (WorkerState::Starting, WorkerEvent::Cancelled) => WorkerAction::Exit,
            (WorkerState::Accepting, WorkerEvent::Cancelled) => WorkerAction::StopAccepting,
            (WorkerState::Stopping, WorkerEvent::Drained) => WorkerAction::Exit,
            _ => WorkerAction::Ignore,
        }
    }

    /// The state after each of `events` in turn.
    pub open spec fn after_all(self, events: Seq<WorkerEvent>) -> WorkerState
        decreases events.len(),
    {
        if events.len() == 0 {
            self
        } else {
            self.after_all(events.drop_last()).after(events.last())
        }
    }

    /// The state in which a worker begins.
    pub fn initial() -> (s: WorkerState)
        ensures
            s == WorkerState::Starting,
    {
        WorkerState::Starting
    }

    /// Whether the worker has left its loop for good.
    pub fn is_stopped(&self) -> (b: bool)
        ensures
            b == (*self == WorkerState::Stopped),
    {
        match self {
            WorkerState::Stopped => true,
            _ => false,
        }
    }

    /// Takes one event: the next state, and what the worker is to do.
    pub fn step(self, event: WorkerEvent) -> (next: (WorkerState, WorkerAction))
        ensures
            next.0 == self.after(event),
            next.1 == self.action_on(event),
    {
        match self {
            WorkerState::Starting => match event {
                WorkerEvent::Bound => (WorkerState::Accepting, WorkerAction::Announce),
                WorkerEvent::BindFailed => (WorkerState::Stopped, WorkerAction::Abort),
                WorkerEvent::Cancelled => (WorkerState::Stopped, WorkerAction::Exit),
                WorkerEvent::Drained => (self, WorkerAction::Ignore),
            },
            WorkerState::Accepting => match event {
                WorkerEvent::Cancelled => (WorkerState::Stopping, WorkerAction::StopAccepting),
                _ => (self, WorkerAction::Ignore),
            },
            WorkerState::Stopping => match event {
                WorkerEvent::Drained => (WorkerState::Stopped, WorkerAction::Exit),
                _ => (self, WorkerAction::Ignore),
            },
            WorkerState::Stopped => (self, WorkerAction::Ignore),
        }
    }
}

/// The worker never goes back, and it acts exactly when it moves on.
pub proof fn law_worker_moves_forward(state: WorkerState, event: WorkerEvent)
    ensures
        state.after(event).rank() >= state.rank(),
        state.action_on(event) != WorkerAction::Ignore <==> state.after(event).rank()
            > state.rank(),
{
}

/// A stopped worker stays stopped and ignores every event; in particular a
/// cancellation that arrives late does nothing.
pub proof fn law_stopped_is_final(events: Seq<WorkerEvent>)
    ensures
        WorkerState::Stopped.after_all(events) == WorkerState::Stopped,
        forall|event: WorkerEvent|
            WorkerState::Stopped.action_on(event) == WorkerAction::Ignore,
    decreases events.len(),
{
    if events.len() > 0 {
        law_stopped_is_final(events.drop_last());
    }
}

/// Whatever happens, the worker is never earlier in its life cycle than where
/// it began.
pub proof fn law_worker_never_returns(state: WorkerState, events: Seq<WorkerEvent>)
    ensures
        state.after_all(events).rank() >= state.rank(),
    decreases events.len(),
{
    if events.len() > 0 {
        law_worker_never_returns(state, events.drop_last());
        law_worker_moves_forward(state.after_all(events.drop_last()), events.last());
    }
}

/// A second cancellation asks nothing of the worker: the signal acts once.
pub proof fn law_cancellation_acts_once(state: WorkerState)
    ensures
        state.after(WorkerEvent::Cancelled).action_on(WorkerEvent::Cancelled)
            == WorkerAction::Ignore,
        state.after(WorkerEvent::Cancelled).after(WorkerEvent::Cancelled) == state.after(
            WorkerEvent::Cancelled,
        ),
{
}

} // verus!
