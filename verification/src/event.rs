//! Status events: what a loop tells its front-end.

use crate::text::join;
use vstd::prelude::*;

verus! {

/// The two loops.
#[derive(Clone, Copy, Debug, PartialEq, Eq, Structural)]
pub enum LoopKind {
    /// The capture loop.
    Observer,
    /// The serving loop.
    Server,
}

/// What a status event reports.
#[derive(Clone, Copy, Debug, PartialEq, Eq, Structural)]
pub enum EventKind {
    /// The loop has begun.
    Started,
    /// The loop has ended because it was asked to.
    Stopped,
    /// A capture was written to disk.
    CaptureSaved,
    /// The server is bound and about to accept connections.
    ServerListening,
    /// The loop has ended on an error.
    Error,
}

impl EventKind {
    /// Whether an event of this kind is the last of its loop.
    pub open spec fn spec_is_terminal(self) -> bool {
        self == EventKind::Stopped || self == EventKind::Error
    }

    /// Whether an event of this kind is the last of its loop.
    #[verifier::when_used_as_spec(spec_is_terminal)]
    pub fn is_terminal(self) -> (r: bool)
        ensures
            r == self.spec_is_terminal(),
    {
        match self {
            EventKind::Stopped => true,
            EventKind::Error => true,
            _ => false,
        }
    }

    /// Whether the line of an event of this kind ends with its timestamp.
    pub open spec fn spec_is_stamped(self) -> bool {
        self == EventKind::Started || self == EventKind::Stopped || self
            == EventKind::CaptureSaved
    }

    /// Whether the line of an event of this kind ends with its timestamp.
    #[verifier::when_used_as_spec(spec_is_stamped)]
    pub fn is_stamped(self) -> (r: bool)
        ensures
            r == self.spec_is_stamped(),
    {
        match self {
            EventKind::Started => true,
            EventKind::Stopped => true,
            EventKind::CaptureSaved => true,
            _ => false,
        }
    }
}

/// Text of the event that the capture loop begins with.
pub const OBSERVER_STARTED: &'static str = "Observer started";

/// Text of the event that the capture loop ends with when it was cancelled.
pub const OBSERVER_STOPPED: &'static str = "Observer stopped";

/// Text of the event that the serving loop begins with.
pub const SERVER_STARTED: &'static str = "Server started";

/// Text of the event that the serving loop ends with when it was cancelled.
pub const SERVER_STOPPED: &'static str = "Server stopped";

/// What stands between text and timestamp in a line.
pub const STAMP_SEPARATOR: &'static str = " | ";

/// One message of a loop to its front-end.
#[derive(Debug, PartialEq, Eq)]
pub struct StatusEvent {
    /// What is reported.
    pub kind: EventKind,
    /// The loop that reports.
    pub source: LoopKind,
    /// The message.
    pub text: String,
    /// Local time at which the event was made.
    pub timestamp: String,
}

/// `StatusEvent` with its strings as sequences.
pub ghost struct StatusEventView {
    pub kind: EventKind,
    pub source: LoopKind,
    pub text: Seq<char>,
    pub timestamp: Seq<char>,
}

impl StatusEventView {
    /// The line that a front-end shows for the event: the text, followed by
    /// the timestamp unless the event is an error or the listening address.
    pub open spec fn line(self) -> Seq<char> {
        if self.kind.spec_is_stamped() {
            self.text + STAMP_SEPARATOR@ + self.timestamp
        } else {
            self.text
        }
    }

    /// The text with which a loop reports that it has begun.
    pub open spec fn started_text(source: LoopKind) -> Seq<char> {
        match source {
            LoopKind::Observer => OBSERVER_STARTED@,
            LoopKind::Server => SERVER_STARTED@,
        }
    }

    /// The text with which a loop reports that it was stopped.
    pub open spec fn stopped_text(source: LoopKind) -> Seq<char> {
        match source {
            LoopKind::Observer => OBSERVER_STOPPED@,
            LoopKind::Server => SERVER_STOPPED@,
        }
    }

    /// The event with which a loop reports that it has begun.
    pub open spec fn started(source: LoopKind, timestamp: Seq<char>) -> StatusEventView {
        StatusEventView {
            kind: EventKind::Started,
            source,
            text: Self::started_text(source),
            timestamp,
        }
    }

    /// The event with which a loop reports that it was stopped.
    pub open spec fn stopped(source: LoopKind, timestamp: Seq<char>) -> StatusEventView {
        StatusEventView {
            kind: EventKind::Stopped,
            source,
            text: Self::stopped_text(source),
            timestamp,
        }
    }

    /// The event with which a loop reports the error that ends it.
    pub open spec fn failed(source: LoopKind, message: Seq<char>, timestamp: Seq<char>)
        -> StatusEventView {
        StatusEventView { kind: EventKind::Error, source, text: message, timestamp }
    }
}

impl View for StatusEvent {
    type V = StatusEventView;

    open spec fn view(&self) -> StatusEventView {
        StatusEventView {
            kind: self.kind,
            source: self.source,
            text: self.text@,
            timestamp: self.timestamp@,
        }
    }
}

impl StatusEvent {
    /// The event with which a loop reports that it has begun.
    pub fn started(source: LoopKind, timestamp: &str) -> (r: StatusEvent)
        ensures
            r@ == StatusEventView::started(source, timestamp@),
    {
        let text = match source {
            LoopKind::Observer => OBSERVER_STARTED,
            LoopKind::Server => SERVER_STARTED,
        };
        StatusEvent {
            kind: EventKind::Started,
            source,
            text: text.to_owned(),
            timestamp: timestamp.to_owned(),
        }
    }

    /// The event with which a loop reports that it was stopped.
    pub fn stopped(source: LoopKind, timestamp: &str) -> (r: StatusEvent)
        ensures
            r@ == StatusEventView::stopped(source, timestamp@),
    {
        let text = match source {
            LoopKind::Observer => OBSERVER_STOPPED,
            LoopKind::Server => SERVER_STOPPED,
        };
        StatusEvent {
            kind: EventKind::Stopped,
            source,
            text: text.to_owned(),
            timestamp: timestamp.to_owned(),
        }
    }

    /// The event with which a loop reports the error that ends it.
    pub fn failed(source: LoopKind, message: String, timestamp: &str) -> (r: StatusEvent)
        ensures
            r@ == StatusEventView::failed(source, message@, timestamp@),
    {
        StatusEvent {
            kind: EventKind::Error,
            source,
            text: message,
            timestamp: timestamp.to_owned(),
        }
    }

    /// Whether this event is the last of its loop.
    pub fn is_terminal(&self) -> (r: bool)
        ensures
            r == self@.kind.spec_is_terminal(),
    {
        self.kind.is_terminal()
    }

    /// The line that a front-end shows for the event.
    pub fn line(&self) -> (r: String)
        ensures
            r@ == self@.line(),
    {
        if self.kind.is_stamped() {
            let head = join(self.text.as_str(), STAMP_SEPARATOR);
            join(head.as_str(), self.timestamp.as_str())
        } else {
            self.text.clone()
        }
    }
}

/// What a loop hands to its front-end in one go: an event for the sink of an
/// interactive front-end, or a line for standard output where there is no
/// sink.
#[derive(Debug, PartialEq, Eq)]
pub enum Report {
    /// For the sink.
    Event(StatusEvent),
    /// For standard output.
    Print(String),
}

/// `Report` with its strings as sequences.
pub ghost enum ReportView {
    Event(StatusEventView),
    Print(Seq<char>),
}

impl View for Report {
    type V = ReportView;

    open spec fn view(&self) -> ReportView {
        match self {
            Report::Event(e) => ReportView::Event(e@),
            Report::Print(l) => ReportView::Print(l@),
        }
    }
}

impl ReportView {
    /// Whether this is an event of the given kind.
    pub open spec fn is_event_of(self, kind: EventKind) -> bool {
        self matches ReportView::Event(e) && e.kind == kind
    }
}

/// Whether one of the reports is an event of the given kind.
pub open spec fn reports_kind(reports: Seq<ReportView>, kind: EventKind) -> bool {
    exists|k: int| 0 <= k < reports.len() && (#[trigger] reports[k]).is_event_of(kind)
}

/// The views of a list of reports.
pub open spec fn report_views(reports: Seq<Report>) -> Seq<ReportView> {
    Seq::new(reports.len(), |i: int| reports[i]@)
}

/// What receives the events of the loops on behalf of a front-end.
pub trait EventSink: View {
    /// What a sink that stands at `sink` is after it has taken `event`.
    spec fn taken(sink: Self::V, event: StatusEventView) -> Self::V;

    /// Takes one event.
    fn emit(&mut self, event: &StatusEvent)
        ensures
            final(self)@ == Self::taken(old(self)@, event@),
    ;
}

/// What a sink is after it has taken each of `events` in turn.
pub open spec fn emitted<S: EventSink>(sink: S::V, events: Seq<StatusEventView>) -> S::V
    decreases events.len(),
{
    if events.len() == 0 {
        sink
    } else {
        S::taken(emitted::<S>(sink, events.drop_last()), events.last())
    }
}

/// Taking a run of events is taking the first and then the others.
pub proof fn lemma_emitted_first<S: EventSink>(sink: S::V, events: Seq<StatusEventView>)
    requires
        events.len() > 0,
    ensures
        emitted::<S>(sink, events) == emitted::<S>(
            S::taken(sink, events.first()),
            events.drop_first(),
        ),
    decreases events.len(),
{
    if events.len() == 1 {
        assert(emitted::<S>(sink, events.drop_last()) == sink);
    } else {
        lemma_emitted_first::<S>(sink, events.drop_last());
        assert(events.drop_last().drop_first() =~= events.drop_first().drop_last());
    }
}

} // verus!
