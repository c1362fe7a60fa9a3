//! The lifecycle controller: which loop runs, which is being stopped, and
//! the one stream through which both loops reach the front-end.

use crate::event::{
    emitted, lemma_emitted_first, EventSink, LoopKind, StatusEvent, StatusEventView,
};
use std::collections::VecDeque;
use vstd::prelude::*;

verus! {

/// Where one loop stands, as its front-end sees it.
#[derive(Clone, Copy, Debug, PartialEq, Eq, Structural)]
pub enum LoopState {
    /// Not running; it can be started.
    Idle,
    /// Running; it can be stopped.
    Running,
    /// Asked to stop; the one cancellation signal is on its way or was
    /// taken, and the loop has not ended yet.
    Stopping,
}

/// What pressing the button of a loop asks for.
#[derive(Clone, Copy, Debug, PartialEq, Eq, Structural)]
pub enum Toggle {
    /// Start the loop.
    Launch,
    /// Stop the loop.
    Cancel,
    /// Nothing: the loop is already being stopped.
    Ignore,
}

/// The sending half of a channel of `crossbeam_channel`, as an opaque
/// value.
#[verifier::external_type_specification]
#[verifier::external_body]
#[verifier::reject_recursive_types(T)]
pub struct ExSender<T>(crossbeam_channel::Sender<T>);

/// The receiving half of a channel of `crossbeam_channel`, as an opaque
/// value.
#[verifier::external_type_specification]
#[verifier::external_body]
#[verifier::reject_recursive_types(T)]
pub struct ExReceiver<T>(crossbeam_channel::Receiver<T>);

/// How many cancellation signals a channel holds: at most one stop request
/// means anything, and the one who stops must never be kept waiting.
pub const CANCEL_CAPACITY: usize = 1;

/// How an attempt to send the cancellation signal went.
#[derive(Clone, Copy, Debug, PartialEq, Eq, Structural)]
pub enum Signal {
    /// The signal is in the channel.
    Sent,
    /// The channel was full: a signal is waiting there already.
    Full,
    /// The loop has dropped its end of the channel.
    Disconnected,
}

/// Calls `crossbeam_channel::bounded` for a channel of unit values. The
/// capacity is fixed by the `requires`, because `bounded` panics on a
/// capacity that cannot be allocated. Nothing is claimed of the two halves.
#[verifier::external_body]
fn bounded(capacity: usize) -> (r: (
    crossbeam_channel::Sender<()>,
    crossbeam_channel::Receiver<()>,
))
    requires
        capacity == CANCEL_CAPACITY,
{
    crossbeam_channel::bounded(capacity)
}

/// Calls `crossbeam_channel::Sender::try_send` with the unit value, which
/// does not block, and tells its three outcomes apart. Nothing is claimed of
/// the outcome: it depends on what the other side has done.
#[verifier::external_body]
fn try_send(cancel: &crossbeam_channel::Sender<()>) -> (r: Signal) {
    match cancel.try_send(()) {
        Ok(()) => Signal::Sent,
        Err(crossbeam_channel::TrySendError::Full(_)) => Signal::Full,
        Err(crossbeam_channel::TrySendError::Disconnected(_)) => Signal::Disconnected,
    }
}

/// One running loop, as its front-end holds it: which loop it is, the
/// sender of its cancellation signal, and whether the signal was asked for.
#[derive(Debug)]
pub struct LifecycleHandle {
    kind: LoopKind,
    cancel: crossbeam_channel::Sender<()>,
    requested: bool,
}

/// `LifecycleHandle` without its channel.
pub ghost struct LifecycleHandleView {
    pub kind: LoopKind,
    /// A stop was requested.
    pub requested: bool,
}

impl View for LifecycleHandle {
    type V = LifecycleHandleView;

    closed spec fn view(&self) -> LifecycleHandleView {
        LifecycleHandleView { kind: self.kind, requested: self.requested }
    }
}

impl LifecycleHandle {
    /// Makes the handle of a loop that is about to be launched, and the
    /// receiving half of its cancellation channel, which is for the loop.
    pub fn new(kind: LoopKind) -> (r: (LifecycleHandle, crossbeam_channel::Receiver<()>))
        ensures
            r.0@ == (LifecycleHandleView { kind, requested: false }),
    {
        let (cancel, signal) = bounded(CANCEL_CAPACITY);
        (LifecycleHandle { kind, cancel, requested: false }, signal)
    }

    /// Which loop this is.
    pub fn kind(&self) -> (r: LoopKind)
        ensures
            r == self@.kind,
    {
        self.kind
    }

    /// Whether a stop was requested.
    pub fn requested(&self) -> (r: bool)
        ensures
            r == self@.requested,
    {
        self.requested
    }

    /// Requests the loop to stop. The first request tries to send the
    /// cancellation signal, without blocking, and says how that went. Every
    /// later request sends nothing and says nothing.
    pub fn stop(&mut self) -> (r: Option<Signal>)
        ensures
            final(self)@ == (LifecycleHandleView { requested: true, ..old(self)@ }),
            r is Some <==> !old(self)@.requested,
    {
        if self.requested {
            None
        } else {
            self.requested = true;
            Some(try_send(&self.cancel))
        }
    }
}

/// Where a loop stands, by the handle that is held for it.
pub open spec fn held_state(handle: Option<LifecycleHandleView>) -> LoopState {
    match handle {
        None => LoopState::Idle,
        Some(h) => if h.requested {
            LoopState::Stopping
        } else {
            LoopState::Running
        },
    }
}

/// The view of a handle that may not be there.
pub open spec fn optional_handle(handle: Option<LifecycleHandle>) -> Option<LifecycleHandleView> {
    match handle {
        Some(h) => Some(h@),
        None => None,
    }
}

/// The handles of the loops that are active, at most one of each kind, and
/// the events that the front-end has not taken yet, oldest first.
#[derive(Debug)]
pub struct Controller {
    observer: Option<LifecycleHandle>,
    server: Option<LifecycleHandle>,
    pending: VecDeque<StatusEvent>,
}

/// `Controller` with the state of each loop in place of its handle, and
/// with its events as a sequence of views.
pub ghost struct ControllerView {
    pub observer: LoopState,
    pub server: LoopState,
    /// The events that were published and not yet taken, oldest first.
    pub pending: Seq<StatusEventView>,
}

impl View for Controller {
    type V = ControllerView;

    closed spec fn view(&self) -> ControllerView {
        ControllerView {
            observer: held_state(optional_handle(self.observer)),
            server: held_state(optional_handle(self.server)),
            pending: Seq::new(self.pending@.len(), |i: int| self.pending@[i]@),
        }
    }
}

impl ControllerView {
    /// Both loops idle and no event pending.
    pub open spec fn idle() -> ControllerView {
        ControllerView {
            observer: LoopState::Idle,
            server: LoopState::Idle,
            pending: Seq::empty(),
        }
    }

    /// Where the loop of the given kind stands.
    pub open spec fn state(self, kind: LoopKind) -> LoopState {
        match kind {
            LoopKind::Observer => self.observer,
            LoopKind::Server => self.server,
        }
    }

    /// The same controller with the loop of the given kind in another state.
    pub open spec fn with_state(self, kind: LoopKind, state: LoopState) -> ControllerView {
        match kind {
            LoopKind::Observer => ControllerView { observer: state, ..self },
            LoopKind::Server => ControllerView { server: state, ..self },
        }
    }

    /// What pressing the button of a loop asks for.
    pub open spec fn toggle(self, kind: LoopKind) -> Toggle {
        match self.state(kind) {
            LoopState::Idle => Toggle::Launch,
            LoopState::Running => Toggle::Cancel,
            LoopState::Stopping => Toggle::Ignore,
        }
    }

    /// A request to start a loop: granted if the loop is idle, which makes
    /// it running; refused otherwise, which changes nothing.
    pub open spec fn start(self, kind: LoopKind) -> (ControllerView, bool) {
        if self.state(kind) == LoopState::Idle {
            (self.with_state(kind, LoopState::Running), true)
        } else {
            (self, false)
        }
    }

    /// A request to stop a loop, given how sending the cancellation signal
    /// goes. If the loop is running, the signal is sent and the loop is now
    /// being stopped; but if sending finds that the loop has dropped its end
    /// of the channel, the loop is gone and counts as idle at once.
    /// Otherwise nothing changes and nothing is sent.
    pub open spec fn stop(self, kind: LoopKind, outcome: Signal) -> (ControllerView, bool) {
        if self.state(kind) == LoopState::Running {
            if outcome == Signal::Disconnected {
                (self.with_state(kind, LoopState::Idle), true)
            } else {
                (self.with_state(kind, LoopState::Stopping), true)
            }
        } else {
            (self, false)
        }
    }

    /// The loop of the given kind has returned: it is idle.
    pub open spec fn finished(self, kind: LoopKind) -> ControllerView {
        self.with_state(kind, LoopState::Idle)
    }

    /// An event of a loop has arrived: it is put behind the events that are
    /// pending, and if it is the last of its loop, the loop is idle.
    pub open spec fn publish(self, event: StatusEventView) -> ControllerView {
        let queued = ControllerView { pending: self.pending.push(event), ..self };
        if event.kind.spec_is_terminal() {
            queued.with_state(event.source, LoopState::Idle)
        } else {
            queued
        }
    }

    /// The front-end takes the oldest pending event, if there is one.
    pub open spec fn poll(self) -> (ControllerView, Option<StatusEventView>) {
        if self.pending.len() == 0 {
            (self, None)
        } else {
            (
                ControllerView { pending: self.pending.drop_first(), ..self },
                Some(self.pending.first()),
            )
        }
    }
}

/// The view of an event that may not be there.
pub open spec fn optional_event(event: Option<StatusEvent>) -> Option<StatusEventView> {
    match event {
        Some(e) => Some(e@),
        None => None,
    }
}

impl Controller {
    /// A controller with both loops idle and no event pending.
    pub fn new() -> (r: Controller)
        ensures
            r@ == ControllerView::idle(),
    {
        let r = Controller { observer: None, server: None, pending: VecDeque::new() };
        assert(r@.pending =~= Seq::empty());
        r
    }

    /// Where the loop of the given kind stands.
    pub fn state(&self, kind: LoopKind) -> (r: LoopState)
        ensures
            r == self@.state(kind),
    {
        let held = match kind {
            LoopKind::Observer => &self.observer,
            LoopKind::Server => &self.server,
        };
        match held {
            None => LoopState::Idle,
            Some(h) => if h.requested() {
                LoopState::Stopping
            } else {
                LoopState::Running
            },
        }
    }

    /// What pressing the button of a loop asks for.
    pub fn toggle(&self, kind: LoopKind) -> (r: Toggle)
        ensures
            r == self@.toggle(kind),
    {
        match self.state(kind) {
            LoopState::Idle => Toggle::Launch,
            LoopState::Running => Toggle::Cancel,
            LoopState::Stopping => Toggle::Ignore,
        }
    }

    /// Asks to start a loop. If the loop is idle, a handle is made for it,
    /// the loop counts as running from now on, and the caller gets the
    /// receiving half of the cancellation channel, with which it is to
    /// launch the loop. If the loop is running or being stopped, a second
    /// instance is refused: nothing changes and there is nothing to launch.
    pub fn start(&mut self, kind: LoopKind) -> (r: Option<crossbeam_channel::Receiver<()>>)
        ensures
            (final(self)@, r is Some) == old(self)@.start(kind),
    {
        match self.state(kind) {
            LoopState::Idle => {
                let (handle, signal) = LifecycleHandle::new(kind);
                match kind {
                    LoopKind::Observer => {
                        self.observer = Some(handle);
                    },
                    LoopKind::Server => {
                        self.server = Some(handle);
                    },
                }
                Some(signal)
            },
            _ => None,
        }
    }

    /// Asks to stop a loop. If the loop is running, the one cancellation
    /// signal is sent, without blocking, and the result says how sending
    /// went: the loop counts as being stopped from now on, or as idle if it
    /// turns out to be gone. Otherwise there is nothing to stop, or the
    /// signal was already sent: nothing changes and nothing is sent.
    pub fn stop(&mut self, kind: LoopKind) -> (r: Option<Signal>)
        ensures
            match r {
                Some(outcome) => (final(self)@, true) == old(self)@.stop(kind, outcome),
                None => old(self)@.state(kind) != LoopState::Running && final(self)@ == old(
                    self,
                )@,
            },
    {
        let held = match kind {
            LoopKind::Observer => self.observer.take(),
            LoopKind::Server => self.server.take(),
        };
        let (left, r) = match held {
            Some(mut handle) => {
                let r = handle.stop();
                match r {
                    Some(Signal::Disconnected) => (None, r),
                    _ => (Some(handle), r),
                }
            },
            None => (None, None),
        };
        match kind {
            LoopKind::Observer => {
                self.observer = left;
            },
            LoopKind::Server => {
                self.server = left;
            },
        }
        r
    }

    /// Records that the loop of the given kind has returned: its handle is
    /// dropped.
    pub fn finished(&mut self, kind: LoopKind)
        ensures
            final(self)@ == old(self)@.finished(kind),
    {
        match kind {
            LoopKind::Observer => {
                self.observer = None;
            },
            LoopKind::Server => {
                self.server = None;
            },
        }
    }

    /// Takes in an event of a loop.
    pub fn publish(&mut self, event: StatusEvent)
        ensures
            final(self)@ == old(self)@.publish(event@),
    {
        let terminal = event.is_terminal();
        let source = event.source;
        self.pending.push_back(event);
        assert(self@.pending =~= old(self)@.pending.push(event@));
        if terminal {
            self.finished(source);
        }
    }

    /// Hands out the oldest pending event, if there is one.
    pub fn poll(&mut self) -> (r: Option<StatusEvent>)
        ensures
            (final(self)@, optional_event(r)) == old(self)@.poll(),
    {
        let r = self.pending.pop_front();
        proof {
            if r is Some {
                assert(self@.pending =~= old(self)@.pending.drop_first());
            }
        }
        r
    }

    /// Hands every pending event to the sink, oldest first.
    pub fn drain_into<S: EventSink>(&mut self, sink: &mut S)
        ensures
            final(self)@ == (ControllerView { pending: Seq::empty(), ..old(self)@ }),
            final(sink)@ == emitted::<S>(old(sink)@, old(self)@.pending),
    {
        loop
            invariant
                self@.observer == old(self)@.observer,
                self@.server == old(self)@.server,
                emitted::<S>(sink@, self@.pending) == emitted::<S>(
                    old(sink)@,
                    old(self)@.pending,
                ),
            ensures
                self@.observer == old(self)@.observer,
                self@.server == old(self)@.server,
                self@.pending.len() == 0,
                sink@ == emitted::<S>(old(sink)@, old(self)@.pending),
            decreases self@.pending.len(),
        {
            let ghost before = self@.pending;
            let ghost held = sink@;
            match self.poll() {
                Some(event) => {
                    sink.emit(&event);
                    proof {
                        lemma_emitted_first::<S>(held, before);
                    }
                },
                None => {
                    break ;
                },
            }
        }
        assert(self@.pending =~= Seq::empty());
    }

    /// How many events are pending.
    pub fn pending(&self) -> (r: usize)
        ensures
            r == self@.pending.len(),
    {
        self.pending.len()
    }
}

} // verus!
