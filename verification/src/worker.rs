//! The decisions of the loop that serves an actor: it takes inputs from the
//! handle's channel, hands them to the actor and sends the outputs back, until the
//! channel closes or a reply can no longer be delivered.
use vstd::prelude::*;

verus! {

/// How a worker serves its actor.
#[derive(Clone, Copy, Debug, PartialEq, Eq, Structural)]
pub enum WorkerKind {
    /// On a thread of its own, one input after the other: the worker of `spawn`
    /// and `spawn_n`.
    Blocking,
    /// On the tokio runtime, each input in a task of its own: the worker of
    /// `spawn_tokio`.
    Tokio,
}

/// What the worker learns from the outside.
#[derive(Clone, Copy, Debug, PartialEq, Eq, Structural)]
pub enum WorkerEvent {
    /// An input arrived from the channel.
    Received,
    /// The channel is closed and empty.
    Closed,
    /// A reply was delivered to its caller.
    Delivered,
    /// A reply could not be delivered: its caller is gone.
    Lost,
}

/// What the worker does next.
#[derive(Clone, Copy, Debug, PartialEq, Eq, Structural)]
pub enum WorkerAction {
    /// Hand the input that arrived to the actor.
    Serve,
    /// Wait for the next event.
    Continue,
    /// Leave the loop for good.
    Stop,
}

/// The state of a worker loop.
pub struct Worker {
    kind: WorkerKind,
    lost: bool,
    stopped: bool,
}

/// One step of a worker of kind `kind` that has (`lost`) or has not seen a reply
/// lost and has (`stopped`) or has not left its loop: the new `lost` and `stopped`,
/// and the action.
pub open spec fn worker_next(kind: WorkerKind, lost: bool, stopped: bool, event: WorkerEvent) -> (
    bool,
    bool,
    WorkerAction,
) {
    if stopped {
        (lost, true, WorkerAction::Stop)
    } else {
        match event {
            WorkerEvent::Received => if kind == WorkerKind::Tokio && lost {
                (lost, true, WorkerAction::Stop)
            } else {
                (lost, false, WorkerAction::Serve)
            },
            WorkerEvent::Closed => (lost, true, WorkerAction::Stop),
            WorkerEvent::Delivered => (lost, false, WorkerAction::Continue),
            WorkerEvent::Lost => if kind == WorkerKind::Blocking {
                (true, true, WorkerAction::Stop)
            } else {
                (true, false, WorkerAction::Continue)
            },
        }
    }
}

impl Worker {
    /// How the worker serves its actor.
    pub closed spec fn kind(&self) -> WorkerKind {
        self.kind
    }

    /// A reply of this worker could not be delivered.
    pub closed spec fn lost(&self) -> bool {
        self.lost
    }

    /// The worker has left its loop.
    pub closed spec fn stopped(&self) -> bool {
        self.stopped
    }

    /// A worker of kind `kind` that has not served anything yet.
    pub fn new(kind: WorkerKind) -> (w: Self)
        ensures
            w.kind() == kind,
            !w.lost(),
            !w.stopped(),
    {
        Worker { kind, lost: false, stopped: false }
    }

    /// Whether the worker has left its loop.
    pub fn is_stopped(&self) -> (r: bool)
        ensures
            r == self.stopped(),
    {
        self.stopped
    }

    /// Takes `event` into account and says what to do next.
    pub fn step(&mut self, event: WorkerEvent) -> (a: WorkerAction)
        ensures
            final(self).kind() == old(self).kind(),
            (final(self).lost(), final(self).stopped(), a) == worker_next(
                old(self).kind(),
                old(self).lost(),
                old(self).stopped(),
                event,
            ),
    {
        if self.stopped {
            return WorkerAction::Stop;
        }
        match event {
            WorkerEvent::Received => {
                match self.kind {
                    WorkerKind::Tokio => {
                        if self.lost {
                            self.stopped = true;
                            WorkerAction::Stop
                        } else {
                            WorkerAction::Serve
                        }
                    },
                    WorkerKind::Blocking => WorkerAction::Serve,
                }
            },
            WorkerEvent::Closed => {
                self.stopped = true;
                WorkerAction::Stop
            },
            WorkerEvent::Delivered => WorkerAction::Continue,
            WorkerEvent::Lost => {
                self.lost = true;
                match self.kind {
                    WorkerKind::Blocking => {
                        self.stopped = true;
                        WorkerAction::Stop
                    },
                    WorkerKind::Tokio => WorkerAction::Continue,
                }
            },
        }
    }
}

/// A worker that has left its loop stays out of it, whatever happens.
pub proof fn law_stopped_stays_stopped(kind: WorkerKind, lost: bool, event: WorkerEvent)
    ensures
        worker_next(kind, lost, true, event) == (lost, true, WorkerAction::Stop),
{
}

/// A worker leaves its loop when its channel is closed.
pub proof fn law_closed_channel_stops(kind: WorkerKind, lost: bool, stopped: bool)
    ensures
        worker_next(kind, lost, stopped, WorkerEvent::Closed).1,
        worker_next(kind, lost, stopped, WorkerEvent::Closed).2 == WorkerAction::Stop,
{
}

/// A worker serves every input that arrives, until it stops; only a tokio worker
/// that has lost a reply stops at an input.
pub proof fn law_serves_until_stopped(kind: WorkerKind, lost: bool)
    ensures
        !(kind == WorkerKind::Tokio && lost) ==> worker_next(kind, lost, false, WorkerEvent::Received).2
            == WorkerAction::Serve,
        kind == WorkerKind::Tokio && lost ==> worker_next(kind, lost, false, WorkerEvent::Received).2
            == WorkerAction::Stop,
{
}

/// A blocking worker stops at the first reply it cannot deliver.
pub proof fn law_blocking_stops_on_lost_reply(lost: bool)
    ensures
        worker_next(WorkerKind::Blocking, lost, false, WorkerEvent::Lost) == (
            true,
            true,
            WorkerAction::Stop,
        ),
{
}

/// A tokio worker that lost a reply keeps its loop until the next input arrives,
/// and serves no input after that.
pub proof fn law_tokio_stops_after_lost_reply(lost: bool, later: WorkerEvent)
    ensures
        ({
            let (l1, s1, a1) = worker_next(WorkerKind::Tokio, lost, false, WorkerEvent::Lost);
            &&& l1
            &&& !s1
            &&& a1 == WorkerAction::Continue
            &&& worker_next(WorkerKind::Tokio, l1, s1, WorkerEvent::Received).2 == WorkerAction::Stop
            &&& worker_next(WorkerKind::Tokio, l1, s1, later).2 != WorkerAction::Serve
        }),
{
}

} // verus!
