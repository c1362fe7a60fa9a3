use observer::event::{EventKind, LoopKind, StatusEvent};
use observer::gui::StatusLog;
use observer::lifecycle::{Controller, LifecycleHandle, LoopState, Signal, Toggle};

fn text(s: &str) -> String {
    s.to_string()
}

fn event(kind: EventKind, source: LoopKind, message: &str) -> StatusEvent {
    StatusEvent { kind, source, text: text(message), timestamp: text("now") }
}

#[test]
fn new_controller_is_idle_and_empty() {
    let mut c = Controller::new();
    assert_eq!(c.state(LoopKind::Observer), LoopState::Idle);
    assert_eq!(c.state(LoopKind::Server), LoopState::Idle);
    assert_eq!(c.pending(), 0);
    assert_eq!(c.poll(), None);
}

#[test]
fn start_is_granted_when_idle_only() {
    let mut c = Controller::new();
    let signal = c.start(LoopKind::Observer);
    assert!(signal.is_some());
    assert_eq!(c.state(LoopKind::Observer), LoopState::Running);
    assert!(c.start(LoopKind::Observer).is_none());
    assert_eq!(c.state(LoopKind::Observer), LoopState::Running);
    assert_eq!(c.stop(LoopKind::Observer), Some(Signal::Sent));
    assert!(c.start(LoopKind::Observer).is_none());
    assert_eq!(c.state(LoopKind::Observer), LoopState::Stopping);
}

#[test]
fn loops_are_independent() {
    let mut c = Controller::new();
    let observer = c.start(LoopKind::Observer).unwrap();
    assert_eq!(c.state(LoopKind::Server), LoopState::Idle);
    assert_eq!(c.stop(LoopKind::Server), None);
    let server = c.start(LoopKind::Server).unwrap();
    assert_eq!(c.stop(LoopKind::Observer), Some(Signal::Sent));
    assert_eq!(c.state(LoopKind::Server), LoopState::Running);
    assert_eq!(observer.try_recv(), Ok(()));
    assert!(server.try_recv().is_err());
    c.finished(LoopKind::Server);
    assert_eq!(c.state(LoopKind::Observer), LoopState::Stopping);
    assert_eq!(c.state(LoopKind::Server), LoopState::Idle);
}

#[test]
fn stop_signals_once() {
    let mut c = Controller::new();
    assert_eq!(c.stop(LoopKind::Server), None);
    assert_eq!(c.state(LoopKind::Server), LoopState::Idle);
    let signal = c.start(LoopKind::Server).unwrap();
    assert!(signal.try_recv().is_err());
    assert_eq!(c.stop(LoopKind::Server), Some(Signal::Sent));
    assert_eq!(c.stop(LoopKind::Server), None);
    assert_eq!(c.stop(LoopKind::Server), None);
    assert_eq!(c.state(LoopKind::Server), LoopState::Stopping);
    assert_eq!(signal.try_recv(), Ok(()));
    assert!(signal.try_recv().is_err());
}

#[test]
fn stop_of_a_loop_that_is_gone_makes_it_idle() {
    let mut c = Controller::new();
    let signal = c.start(LoopKind::Observer).unwrap();
    drop(signal);
    assert_eq!(c.stop(LoopKind::Observer), Some(Signal::Disconnected));
    assert_eq!(c.state(LoopKind::Observer), LoopState::Idle);
    assert_eq!(c.stop(LoopKind::Observer), None);
    assert!(c.start(LoopKind::Observer).is_some());
}

#[test]
fn finished_loop_drops_its_handle() {
    let mut c = Controller::new();
    let signal = c.start(LoopKind::Observer).unwrap();
    c.finished(LoopKind::Observer);
    assert_eq!(signal.recv(), Err(crossbeam_channel::RecvError));
    let again = c.start(LoopKind::Observer).unwrap();
    assert!(again.try_recv().is_err());
    assert_eq!(c.stop(LoopKind::Observer), Some(Signal::Sent));
    assert_eq!(again.recv(), Ok(()));
}

#[test]
fn handle_sends_one_signal() {
    let (mut handle, signal) = LifecycleHandle::new(LoopKind::Server);
    assert_eq!(handle.kind(), LoopKind::Server);
    assert!(!handle.requested());
    assert_eq!(signal.capacity(), Some(1));
    assert!(signal.is_empty());
    assert_eq!(handle.stop(), Some(Signal::Sent));
    assert!(handle.requested());
    assert_eq!(signal.len(), 1);
    assert_eq!(handle.stop(), None);
    assert_eq!(signal.len(), 1);
    assert_eq!(signal.try_recv(), Ok(()));
    assert_eq!(handle.stop(), None);
    assert!(signal.is_empty());
}

#[test]
fn button_follows_the_state() {
    let mut c = Controller::new();
    assert_eq!(c.toggle(LoopKind::Observer), Toggle::Launch);
    let _signal = c.start(LoopKind::Observer);
    assert_eq!(c.toggle(LoopKind::Observer), Toggle::Cancel);
    assert_eq!(c.toggle(LoopKind::Server), Toggle::Launch);
    c.stop(LoopKind::Observer);
    assert_eq!(c.toggle(LoopKind::Observer), Toggle::Ignore);
    c.finished(LoopKind::Observer);
    assert_eq!(c.toggle(LoopKind::Observer), Toggle::Launch);
}

#[test]
fn stopped_event_makes_the_loop_idle() {
    let mut c = Controller::new();
    let _signal = c.start(LoopKind::Observer);
    c.stop(LoopKind::Observer);
    c.publish(event(EventKind::Stopped, LoopKind::Observer, "Observer stopped"));
    assert_eq!(c.state(LoopKind::Observer), LoopState::Idle);
    assert!(c.start(LoopKind::Observer).is_some());
}

#[test]
fn error_event_makes_the_loop_idle_without_a_stop() {
    let mut c = Controller::new();
    c.start(LoopKind::Server);
    c.start(LoopKind::Observer);
    c.publish(event(EventKind::Error, LoopKind::Server, "bind failed"));
    assert_eq!(c.state(LoopKind::Server), LoopState::Idle);
    assert_eq!(c.state(LoopKind::Observer), LoopState::Running);
}

#[test]
fn other_events_leave_the_state() {
    let mut c = Controller::new();
    c.start(LoopKind::Observer);
    c.publish(event(EventKind::Started, LoopKind::Observer, "Observer started"));
    c.publish(event(EventKind::CaptureSaved, LoopKind::Observer, "./observed.png"));
    c.publish(event(EventKind::ServerListening, LoopKind::Server, "Server address: a:1"));
    assert_eq!(c.state(LoopKind::Observer), LoopState::Running);
    assert_eq!(c.state(LoopKind::Server), LoopState::Idle);
    assert_eq!(c.pending(), 3);
}

#[test]
fn events_come_out_in_the_order_they_went_in() {
    let mut c = Controller::new();
    let sent = [
        (EventKind::Started, LoopKind::Observer, "a"),
        (EventKind::Started, LoopKind::Server, "b"),
        (EventKind::CaptureSaved, LoopKind::Observer, "c"),
        (EventKind::Error, LoopKind::Server, "d"),
        (EventKind::Stopped, LoopKind::Observer, "e"),
    ];
    for (kind, source, message) in sent {
        c.publish(event(kind, source, message));
    }
    assert_eq!(c.pending(), 5);
    for (kind, source, message) in sent {
        assert_eq!(c.poll(), Some(event(kind, source, message)));
    }
    assert_eq!(c.poll(), None);
    assert_eq!(c.pending(), 0);
}

#[test]
fn polling_between_publishing_keeps_the_order() {
    let mut c = Controller::new();
    c.publish(event(EventKind::Started, LoopKind::Observer, "1"));
    c.publish(event(EventKind::CaptureSaved, LoopKind::Observer, "2"));
    assert_eq!(c.poll().unwrap().text, "1");
    c.publish(event(EventKind::CaptureSaved, LoopKind::Observer, "3"));
    assert_eq!(c.poll().unwrap().text, "2");
    assert_eq!(c.poll().unwrap().text, "3");
    assert_eq!(c.poll(), None);
}

#[test]
fn terminal_event_stays_pending_until_polled() {
    let mut c = Controller::new();
    c.start(LoopKind::Observer);
    c.publish(event(EventKind::Error, LoopKind::Observer, "boom"));
    assert!(c.start(LoopKind::Observer).is_some());
    assert_eq!(c.poll(), Some(event(EventKind::Error, LoopKind::Observer, "boom")));
}

#[test]
fn draining_hands_every_event_to_the_sink_in_order() {
    let mut c = Controller::new();
    let _signal = c.start(LoopKind::Server);
    c.publish(event(EventKind::Started, LoopKind::Server, "Server started"));
    c.publish(event(EventKind::ServerListening, LoopKind::Server, "Server address: a:1"));
    c.publish(event(EventKind::Error, LoopKind::Observer, "boom"));
    let mut log = StatusLog::new();
    c.drain_into(&mut log);
    assert_eq!(log.text(), "Server started | now\n---\nServer address: a:1\n---\nboom\n---\n");
    assert_eq!(c.pending(), 0);
    assert_eq!(c.poll(), None);
    assert_eq!(c.state(LoopKind::Server), LoopState::Running);
    c.drain_into(&mut log);
    assert_eq!(log.text(), "Server started | now\n---\nServer address: a:1\n---\nboom\n---\n");
}
