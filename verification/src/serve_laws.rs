//! What holds of the serving side: of its configuration, of its replies and
//! of every step of the serving loop.

use crate::event::{reports_kind, EventKind, LoopKind, ReportView};
use crate::lifecycle::{ControllerView, LoopState};
use crate::observer::FileFormat;
use crate::server::{
    listening_event, listening_text, page_of, route_of, serve_config_checked, FileReadView,
    HttpReplyView, Route, ServeCommandView, ServeConfigView, ServeErrorView, ServeEventView,
    ServeLoopView, ServeState, ServeStepView, OBSERVED_NAME_STEM, PREVIEW_PATH, PREVIEW_TEMPLATE, STATUS_NOT_FOUND,
    STATUS_OK, STATUS_TEMPORARY_REDIRECT,
};
use crate::settings::{
    fields_checked, file_format_checked, host_checked, ip_v4_is_valid, is_file_format, is_host,
    server_ip_checked,
};
use crate::text::normalized;
use vstd::prelude::*;

verus! {

/// What `serve_config_checked` comes to, field by field. A configuration is
/// made exactly when the advertised address parses as IPv4, the bind host
/// is one of the two addresses and the image format is one of the two
/// names, each in normal form; it then holds address and host in normal
/// form, the format of that name, and port and interval as given. Otherwise
/// the message is that of the first of the three fields that is rejected.
pub proof fn lemma_serve_config_checked(
    server_ip: Seq<char>,
    host: Seq<char>,
    port: u16,
    file_format: Seq<char>,
    interval: u16,
)
    ensures
        ({
            let address = server_ip_checked(
                normalized(server_ip),
                ip_v4_is_valid(normalized(server_ip)),
            );
            let bind = host_checked(normalized(host));
            let format = file_format_checked(normalized(file_format));
            match serve_config_checked(server_ip, host, port, file_format, interval) {
                Ok(config) => {
                    &&& ip_v4_is_valid(normalized(server_ip))
                    &&& is_host(normalized(host))
                    &&& is_file_format(normalized(file_format))
                    &&& config.server_ip == normalized(server_ip)
                    &&& config.host == normalized(host)
                    &&& config.port == port
                    &&& Some(config.file_format) == FileFormat::named(normalized(file_format))
                    &&& config.interval == interval
                },
                Err(e) => {
                    ||| address == Err::<Seq<char>, Seq<char>>(e)
                    ||| address is Ok && bind == Err::<Seq<char>, Seq<char>>(e)
                    ||| address is Ok && bind is Ok && format == Err::<Seq<char>, Seq<char>>(e)
                },
            }
        }),
{
    reveal_with_fuel(fields_checked, 4);
}

/// The root leads to the preview page: the redirect that answers a request
/// for the root names a path whose route is the preview page.
pub proof fn lemma_root_leads_to_preview()
    ensures
        HttpReplyView::root().status == STATUS_TEMPORARY_REDIRECT,
        HttpReplyView::root().location matches Some(target) && route_of(target) == Route::Preview,
{
    reveal_strlit("/");
    reveal_strlit("/preview");
    assert(PREVIEW_PATH@.len() == 8);
}

/// What the file of the latest capture holds after a run of writes: what
/// was written last, and nothing before the first write.
pub open spec fn latest_capture(writes: Seq<Seq<u8>>) -> FileReadView {
    if writes.len() == 0 {
        FileReadView::Missing
    } else {
        FileReadView::Found(writes.last())
    }
}

/// A request for the latest capture is answered with exactly the bytes
/// that were written last, and with not found, never a failure of the
/// server, before the first capture.
pub proof fn lemma_update_serves_latest(format: FileFormat, writes: Seq<Seq<u8>>)
    ensures
        writes.len() > 0 ==> HttpReplyView::update(format, latest_capture(writes)).status
            == STATUS_OK && HttpReplyView::update(format, latest_capture(writes)).body
            == writes.last(),
        writes.len() == 0 ==> HttpReplyView::update(format, latest_capture(writes))
            == HttpReplyView::bare(STATUS_NOT_FOUND),
{
}

/// The port that the listener really has is the one that counts: what a
/// loop reports and serves once it is bound depends on that port and not
/// on the port that was asked for. Two loops that differ in nothing but the
/// port of their configuration report the same and serve the same page, and
/// the address that is reported names the port of the listener.
pub proof fn lemma_bound_port_counts(
    m: ServeLoopView,
    asked: u16,
    port: u16,
    timestamp: Seq<char>,
)
    requires
        m.state == ServeState::Binding,
    ensures
        ({
            let other = ServeLoopView { config: ServeConfigView { port: asked, ..m.config }, ..m };
            let (next, step) = m.step(ServeEventView::Bound(port), timestamp);
            let (other_next, other_step) = other.step(ServeEventView::Bound(port), timestamp);
            &&& step == other_step
            &&& next.bound_port == Some(port)
            &&& other_next.bound_port == Some(port)
            &&& next.state == ServeState::Serving
            &&& step.command == (ServeCommandView::Serve {
                page: page_of(
                    PREVIEW_TEMPLATE@,
                    m.config.server_ip,
                    port,
                    m.config.file_format.spec_extension(),
                    m.config.interval,
                ),
                observed: OBSERVED_NAME_STEM@ + m.config.file_format.spec_extension(),
            })
            &&& m.has_sink ==> step.reports.len() == 2 && step.reports[1] == ReportView::Event(
                listening_event(m.config.server_ip, port, timestamp),
            )
            &&& !m.has_sink ==> step.reports == seq![
                ReportView::Print(listening_text(m.config.server_ip, port)),
            ]
        }),
{
}

/// Reports come in order: only the step that binds reports that the loop
/// has begun and that it listens, in this order; a step that reports the
/// end of the loop, stopped or failed, finishes it; a finished loop reports
/// nothing; and nothing but a launch makes a loop bind, nothing but a bound
/// listener makes it serve.
pub proof fn lemma_serve_reports_in_order(
    m: ServeLoopView,
    event: ServeEventView,
    timestamp: Seq<char>,
)
    ensures
        ({
            let (next, step) = m.step(event, timestamp);
            &&& reports_kind(step.reports, EventKind::Started) || reports_kind(
                step.reports,
                EventKind::ServerListening,
            ) ==> m.state == ServeState::Binding && next.state == ServeState::Serving
                && step.reports[0].is_event_of(EventKind::Started) && step.reports[1].is_event_of(
                EventKind::ServerListening,
            )
            &&& reports_kind(step.reports, EventKind::Stopped) || reports_kind(
                step.reports,
                EventKind::Error,
            ) ==> next.state == ServeState::Finished
            &&& m.state == ServeState::Finished ==> step.reports.len() == 0 && next == m
            &&& step.command is Bind <==> m.state == ServeState::Created && event is Launched
            &&& step.command is Serve <==> m.state == ServeState::Binding && event is Bound
            &&& step.command is Shutdown <==> m.state == ServeState::Serving && event is Cancelled
            &&& step.command is Return <==> next.state == ServeState::Finished
        }),
{
}

/// One event handed to the loop, with the time stamped on its reports.
pub ghost struct ServeInput {
    pub event: ServeEventView,
    pub timestamp: Seq<char>,
}

/// The loop after it has taken a step on each input in turn.
pub open spec fn serve_state_after(m: ServeLoopView, inputs: Seq<ServeInput>) -> ServeLoopView
    decreases inputs.len(),
{
    if inputs.len() == 0 {
        m
    } else {
        serve_state_after(m, inputs.drop_last()).step(
            inputs.last().event,
            inputs.last().timestamp,
        ).0
    }
}

/// The step that the loop takes on input `i` of a run.
pub open spec fn serve_step_at(m: ServeLoopView, inputs: Seq<ServeInput>, i: int) -> ServeStepView
    recommends
        0 <= i < inputs.len(),
{
    serve_state_after(m, inputs.take(i)).step(inputs[i].event, inputs[i].timestamp).1
}

/// A loop is stopped by a cancellation and by nothing else. It reports
/// that it was stopped, and returns success, exactly when the server ends
/// after the loop has asked it to shut down; and it asks that exactly when
/// the cancellation signal arrives while it serves. A server that ends by
/// itself ends the loop with an error.
pub proof fn lemma_stopped_only_on_request(
    m: ServeLoopView,
    event: ServeEventView,
    timestamp: Seq<char>,
)
    ensures
        ({
            let (next, step) = m.step(event, timestamp);
            &&& reports_kind(step.reports, EventKind::Stopped) ==> m.state == ServeState::Stopping
                && event is ServerExited
            &&& step.command == ServeCommandView::Return(Ok(())) <==> m.state
                == ServeState::Stopping && event is ServerExited
            &&& next.state == ServeState::Stopping <==> m.state == ServeState::Serving
                && event is Cancelled
            &&& m.state == ServeState::Serving && event is ServerExited ==> step.command
                == ServeCommandView::Return(Err(ServeErrorView::Ended))
        }),
{
}

/// In every run of a loop that starts as it was made, a step that reports
/// that the loop was stopped, or returns success, comes directly after the
/// step that took the cancellation signal.
pub proof fn lemma_stopped_follows_cancellation(
    m: ServeLoopView,
    inputs: Seq<ServeInput>,
    i: int,
)
    requires
        m.state == ServeState::Created,
        0 <= i < inputs.len(),
        reports_kind(serve_step_at(m, inputs, i).reports, EventKind::Stopped) || serve_step_at(
            m,
            inputs,
            i,
        ).command == ServeCommandView::Return(Ok(())),
    ensures
        i > 0,
        inputs[i - 1].event is Cancelled,
        inputs[i].event is ServerExited,
{
    let before = serve_state_after(m, inputs.take(i));
    lemma_stopped_only_on_request(before, inputs[i].event, inputs[i].timestamp);
    if i > 0 {
        assert(inputs.take(i).drop_last() =~= inputs.take(i - 1));
        lemma_stopped_only_on_request(
            serve_state_after(m, inputs.take(i - 1)),
            inputs[i - 1].event,
            inputs[i - 1].timestamp,
        );
    }
}

/// The end of a loop always reaches the sink. The step that ends a loop
/// with a sink reports, as the last thing, an event that is the last of the
/// serving loop: that the loop was stopped if it returns success, and else
/// the error that it returns, in words. The controller that takes this
/// event in has the serving loop idle. The one exception is a loop that ends
/// because the sink is closed.
pub proof fn lemma_serve_end_is_reported(
    m: ServeLoopView,
    event: ServeEventView,
    timestamp: Seq<char>,
    controller: ControllerView,
)
    requires
        m.has_sink,
        m.state != ServeState::Finished,
        !(event is SinkClosed),
        m.step(event, timestamp).1.command is Return,
    ensures
        ({
            let step = m.step(event, timestamp).1;
            &&& step.reports.len() > 0
            &&& step.reports.last() matches ReportView::Event(last)
            &&& last.source == LoopKind::Server
            &&& last.timestamp == timestamp
            &&& match step.command->Return_0 {
                Ok(_) => last.kind == EventKind::Stopped,
                Err(e) => last.kind == EventKind::Error && last.text == e.message(),
            }
            &&& controller.publish(last).state(LoopKind::Server) == LoopState::Idle
        }),
{
}

/// Reports go one way: a loop with a sink reports events only, and a loop
/// without one reports lines for standard output only.
pub proof fn lemma_serve_reports_go_one_way(
    m: ServeLoopView,
    event: ServeEventView,
    timestamp: Seq<char>,
)
    ensures
        forall|k: int|
            0 <= k < m.step(event, timestamp).1.reports.len() ==> (#[trigger] m.step(
                event,
                timestamp,
            ).1.reports[k] is Event <==> m.has_sink),
{
}

} // verus!
