//! What holds of every run of the lifecycle controller.

use crate::event::{LoopKind, StatusEventView};
use crate::lifecycle::{ControllerView, LoopState, Signal};
use vstd::prelude::*;

verus! {

/// One thing that happens to a controller.
pub ghost enum ControllerOp {
    Start(LoopKind),
    /// A request to stop, with how sending the signal goes if it is sent.
    Stop(LoopKind, Signal),
    Finished(LoopKind),
    Publish(StatusEventView),
    Poll,
}

impl ControllerView {
    /// The controller after `op`.
    pub open spec fn apply(self, op: ControllerOp) -> ControllerView {
        match op {
            ControllerOp::Start(kind) => self.start(kind).0,
            ControllerOp::Stop(kind, outcome) => self.stop(kind, outcome).0,
            ControllerOp::Finished(kind) => self.finished(kind),
            ControllerOp::Publish(event) => self.publish(event),
            ControllerOp::Poll => self.poll().0,
        }
    }

    /// The controller after each of `ops` in turn.
    pub open spec fn after(self, ops: Seq<ControllerOp>) -> ControllerView
        decreases ops.len(),
    {
        if ops.len() == 0 {
            self
        } else {
            self.after(ops.drop_last()).apply(ops.last())
        }
    }

    /// How many loops of the given kind were launched in the run `ops`:
    /// the requests to start that were granted.
    pub open spec fn launches(self, ops: Seq<ControllerOp>, kind: LoopKind) -> nat
        decreases ops.len(),
    {
        if ops.len() == 0 {
            0
        } else {
            let before = self.after(ops.drop_last());
            let earlier = self.launches(ops.drop_last(), kind);
            if ops.last() == ControllerOp::Start(kind) && before.start(kind).1 {
                earlier + 1
            } else {
                earlier
            }
        }
    }

    /// How many times the cancellation signal was sent to a loop of the
    /// given kind in the run `ops`, whether it got there or not: the
    /// requests to stop that were granted.
    pub open spec fn signals(self, ops: Seq<ControllerOp>, kind: LoopKind) -> nat
        decreases ops.len(),
    {
        if ops.len() == 0 {
            0
        } else {
            let before = self.after(ops.drop_last());
            let earlier = self.signals(ops.drop_last(), kind);
            if ops.last() matches ControllerOp::Stop(k, outcome) && k == kind && before.stop(
                kind,
                outcome,
            ).1 {
                earlier + 1
            } else {
                earlier
            }
        }
    }

    /// How many loops of the given kind came to their end in the run `ops`:
    /// the times that a loop which was not idle became idle.
    pub open spec fn endings(self, ops: Seq<ControllerOp>, kind: LoopKind) -> nat
        decreases ops.len(),
    {
        if ops.len() == 0 {
            0
        } else {
            let before = self.after(ops.drop_last());
            let earlier = self.endings(ops.drop_last(), kind);
            if before.state(kind) != LoopState::Idle && before.apply(ops.last()).state(kind)
                == LoopState::Idle {
                earlier + 1
            } else {
                earlier
            }
        }
    }

    /// The events that the run `ops` handed out, in the order in which it
    /// did.
    pub open spec fn taken(self, ops: Seq<ControllerOp>) -> Seq<StatusEventView>
        decreases ops.len(),
    {
        if ops.len() == 0 {
            Seq::empty()
        } else {
            let before = self.after(ops.drop_last());
            let earlier = self.taken(ops.drop_last());
            match (ops.last(), before.poll().1) {
                (ControllerOp::Poll, Some(event)) => earlier.push(event),
                _ => earlier,
            }
        }
    }
}

/// The events that the run `ops` took in, in the order in which it did.
pub open spec fn published(ops: Seq<ControllerOp>) -> Seq<StatusEventView>
    decreases ops.len(),
{
    if ops.len() == 0 {
        Seq::empty()
    } else {
        match ops.last() {
            ControllerOp::Publish(event) => published(ops.drop_last()).push(event),
            _ => published(ops.drop_last()),
        }
    }
}

/// The controller drops no event and keeps their order: what was pending
/// before a run, followed by what the run took in, is what the run handed
/// out, followed by what is pending after it.
pub proof fn lemma_nothing_is_dropped(c: ControllerView, ops: Seq<ControllerOp>)
    ensures
        c.pending + published(ops) == c.taken(ops) + c.after(ops).pending,
    decreases ops.len(),
{
    if ops.len() > 0 {
        lemma_nothing_is_dropped(c, ops.drop_last());
        if let ControllerOp::Publish(event) = ops.last() {
            assert(c.taken(ops) + c.after(ops).pending =~= (c.pending + published(
                ops.drop_last(),
            )).push(event));
        }
    }
}

/// At most one loop of a kind is active at a time, and each gets at most
/// one cancellation signal: in every run from a controller with both loops
/// idle, the launches of a kind are its endings, and one more while a loop
/// of the kind is active; and the signals that were sent are at most the
/// endings, and one more while a loop is being stopped.
pub proof fn lemma_one_signal_per_launch(ops: Seq<ControllerOp>, kind: LoopKind)
    ensures
        ({
            let c = ControllerView::idle();
            let active: nat = if c.after(ops).state(kind) == LoopState::Idle {
                0
            } else {
                1
            };
            let stopping: nat = if c.after(ops).state(kind) == LoopState::Stopping {
                1
            } else {
                0
            };
            &&& c.launches(ops, kind) == c.endings(ops, kind) + active
            &&& c.signals(ops, kind) <= c.endings(ops, kind) + stopping
            &&& c.signals(ops, kind) <= c.launches(ops, kind)
        }),
    decreases ops.len(),
{
    if ops.len() > 0 {
        lemma_one_signal_per_launch(ops.drop_last(), kind);
    }
}

/// A second request to stop sends no second signal, however sending goes.
pub proof fn lemma_stop_twice_signals_once(
    c: ControllerView,
    kind: LoopKind,
    first: Signal,
    second: Signal,
)
    ensures
        !c.stop(kind, first).0.stop(kind, second).1,
        c.stop(kind, first).0.stop(kind, second).0 == c.stop(kind, first).0,
{
}

/// The end of a loop makes it idle, whether it was asked to stop or not:
/// after its last event, stopped or failed, and after its return, the loop
/// can be started again.
pub proof fn lemma_ending_makes_idle(c: ControllerView, event: StatusEventView)
    ensures
        event.kind.spec_is_terminal() ==> c.publish(event).state(event.source) == LoopState::Idle
            && c.publish(event).start(event.source).1,
        !event.kind.spec_is_terminal() ==> c.publish(event).state(event.source) == c.state(
            event.source,
        ),
        c.finished(event.source).start(event.source).1,
{
}

} // verus!
