//! What holds of the capture side: of its configuration and of every run
//! of the capture loop.

use crate::event::{reports_kind, EventKind, LoopKind, ReportView};
use crate::lifecycle::{ControllerView, LoopState};
use crate::observer::{
    capture_config_checked, observing_started, CaptureCommandView, CaptureEventView,
    CaptureLoopView, CaptureState, CaptureStepView, FileFormat, TargetBrowser,
};
use crate::settings::{
    fields_checked, file_format_checked, has_web_scheme, is_file_format, is_target_browser,
    target_browser_checked, url_checked, url_is_valid,
};
use crate::text::normalized;
use vstd::prelude::*;

verus! {

/// One event handed to the loop, with the time stamped on its reports.
pub ghost struct CaptureInput {
    pub event: CaptureEventView,
    pub timestamp: Seq<char>,
}

/// The loop after it has taken a step on each input in turn.
pub open spec fn state_after(m: CaptureLoopView, inputs: Seq<CaptureInput>) -> CaptureLoopView
    decreases inputs.len(),
{
    if inputs.len() == 0 {
        m
    } else {
        state_after(m, inputs.drop_last()).step(inputs.last().event, inputs.last().timestamp).0
    }
}

/// The step that the loop takes on input `i` of a run.
pub open spec fn step_at(m: CaptureLoopView, inputs: Seq<CaptureInput>, i: int) -> CaptureStepView
    recommends
        0 <= i < inputs.len(),
{
    state_after(m, inputs.take(i)).step(inputs[i].event, inputs[i].timestamp).1
}

/// A step changes the state of the loop and nothing else of it.
pub proof fn lemma_step_keeps_configuration(
    m: CaptureLoopView,
    event: CaptureEventView,
    timestamp: Seq<char>,
)
    ensures
        m.step(event, timestamp).0 == m.at(m.step(event, timestamp).0.state),
{
}

/// A run changes the state of the loop and nothing else of it.
pub proof fn lemma_run_keeps_configuration(m: CaptureLoopView, inputs: Seq<CaptureInput>)
    ensures
        state_after(m, inputs) == m.at(state_after(m, inputs).state),
    decreases inputs.len(),
{
    if inputs.len() > 0 {
        lemma_run_keeps_configuration(m, inputs.drop_last());
        lemma_step_keeps_configuration(
            state_after(m, inputs.drop_last()),
            inputs.last().event,
            inputs.last().timestamp,
        );
    }
}

/// A capture is asked for at the launch and when a pause has elapsed, and
/// at no other time; it always goes to the one path of the loop's format.
/// The loop is pausing exactly when its last command was to wait for the
/// configured interval.
pub proof fn lemma_capture_follows_pause(
    m: CaptureLoopView,
    event: CaptureEventView,
    timestamp: Seq<char>,
)
    ensures
        ({
            let (next, step) = m.step(event, timestamp);
            &&& step.command is Capture ==> {
                ||| m.state == CaptureState::Created && event is Launched
                ||| m.state == CaptureState::Waiting && event is WaitElapsed
            }
            &&& step.command matches CaptureCommandView::Capture(plan) ==> plan.path() == m.path()
                && plan.url() == m.config.url
            &&& step.command is Capture <==> next.state == CaptureState::Capturing
            &&& step.command is Wait <==> next.state == CaptureState::Waiting
            &&& step.command is Wait ==> step.command == (CaptureCommandView::Wait {
                seconds: m.pause(),
            })
            &&& step.command is Return <==> next.state == CaptureState::Finished
            &&& next.state != CaptureState::Created
        }),
{
}

/// After its first step a loop is never again as it was made.
pub proof fn lemma_run_leaves_created(m: CaptureLoopView, inputs: Seq<CaptureInput>)
    requires
        inputs.len() > 0,
    ensures
        state_after(m, inputs).state != CaptureState::Created,
{
    lemma_capture_follows_pause(
        state_after(m, inputs.drop_last()),
        inputs.last().event,
        inputs.last().timestamp,
    );
}

/// Every capture of a run is written to the same path, the one of the
/// configured format.
pub proof fn lemma_one_output_path(m: CaptureLoopView, inputs: Seq<CaptureInput>, i: int)
    requires
        0 <= i < inputs.len(),
    ensures
        step_at(m, inputs, i).command matches CaptureCommandView::Capture(plan) ==> plan.path()
            == m.path(),
        forall|k: int|
            0 <= k < step_at(m, inputs, i).reports.len() && (#[trigger] step_at(
                m,
                inputs,
                i,
            ).reports[k]).is_event_of(EventKind::CaptureSaved) ==> step_at(
                m,
                inputs,
                i,
            ).reports[k]->Event_0.text == m.path(),
{
    let before = state_after(m, inputs.take(i));
    lemma_run_keeps_configuration(m, inputs.take(i));
    lemma_capture_follows_pause(before, inputs[i].event, inputs[i].timestamp);
}

/// When each input of a run is handled, in seconds on some clock, such that
/// the waits are kept: time does not go back, and a pause that is reported
/// as elapsed has taken at least the seconds that the loop asked for.
pub open spec fn waits_are_kept(m: CaptureLoopView, inputs: Seq<CaptureInput>, times: Seq<int>)
    -> bool {
    &&& times.len() == inputs.len()
    &&& forall|i: int, j: int| 0 <= i <= j < times.len() ==> times[i] <= times[j]
    &&& forall|j: int|
        0 < j < inputs.len() && inputs[j].event is WaitElapsed && (#[trigger] step_at(
            m,
            inputs,
            j - 1,
        )).command is Wait ==> times[j] >= times[j - 1] + step_at(
            m,
            inputs,
            j - 1,
        ).command->seconds
}

/// Two captures of a run are at least the configured interval apart, if the
/// waits are kept.
pub proof fn lemma_captures_are_spaced(
    m: CaptureLoopView,
    inputs: Seq<CaptureInput>,
    times: Seq<int>,
    i: int,
    j: int,
)
    requires
        waits_are_kept(m, inputs, times),
        0 <= i < j < inputs.len(),
        step_at(m, inputs, i).command is Capture,
        step_at(m, inputs, j).command is Capture,
    ensures
        times[j] - times[i] >= 60 * m.config.interval,
{
    // the later capture was asked for when a pause had elapsed
    let before = state_after(m, inputs.take(j));
    lemma_capture_follows_pause(before, inputs[j].event, inputs[j].timestamp);
    lemma_run_leaves_created(m, inputs.take(j));
    // the step before it asked for that pause, of the configured interval
    assert(inputs.take(j).drop_last() =~= inputs.take(j - 1));
    let earlier = state_after(m, inputs.take(j - 1));
    lemma_capture_follows_pause(earlier, inputs[j - 1].event, inputs[j - 1].timestamp);
    lemma_run_keeps_configuration(m, inputs.take(j - 1));
    assert(step_at(m, inputs, j - 1).command == (CaptureCommandView::Wait {
        seconds: m.pause(),
    }));
}

/// A finished loop stays as it is, whatever it is handed.
pub proof fn lemma_finished_stays(m: CaptureLoopView, inputs: Seq<CaptureInput>)
    requires
        m.state == CaptureState::Finished,
    ensures
        state_after(m, inputs) == m,
    decreases inputs.len(),
{
    if inputs.len() > 0 {
        lemma_finished_stays(m, inputs.drop_last());
    }
}

/// A cancellation during the pause ends the loop at once: the step reports
/// that the loop was stopped and returns success, and no later step asks
/// for a capture or reports anything.
pub proof fn lemma_cancel_ends_captures(
    m: CaptureLoopView,
    timestamp: Seq<char>,
    later: Seq<CaptureInput>,
    i: int,
)
    requires
        m.state == CaptureState::Waiting,
        0 <= i < later.len(),
    ensures
        ({
            let (stopped, step) = m.step(CaptureEventView::Cancelled, timestamp);
            &&& stopped.state == CaptureState::Finished
            &&& step.reports == seq![m.stopped_report(timestamp)]
            &&& step.command == CaptureCommandView::Return(Ok(()))
            &&& !(step_at(stopped, later, i).command is Capture)
            &&& step_at(stopped, later, i).reports.len() == 0
        }),
{
    let stopped = m.step(CaptureEventView::Cancelled, timestamp).0;
    lemma_finished_stays(stopped, later.take(i));
}

/// Reports come in order: only the launch reports that the loop has begun;
/// a step that reports the end of the loop, stopped or failed, finishes it;
/// a finished loop reports nothing; and nothing but a cancellation during
/// the pause makes a loop report that it was stopped, or return success.
pub proof fn lemma_reports_in_order(
    m: CaptureLoopView,
    event: CaptureEventView,
    timestamp: Seq<char>,
)
    ensures
        ({
            let (next, step) = m.step(event, timestamp);
            &&& reports_kind(step.reports, EventKind::Started) ==> m.state == CaptureState::Created
            &&& reports_kind(step.reports, EventKind::CaptureSaved) ==> m.state
                == CaptureState::Capturing && next.state == CaptureState::Waiting
            &&& reports_kind(step.reports, EventKind::Stopped) || reports_kind(
                step.reports,
                EventKind::Error,
            ) ==> next.state == CaptureState::Finished
            &&& m.state == CaptureState::Finished ==> step.reports.len() == 0
            &&& reports_kind(step.reports, EventKind::Stopped) ==> m.state
                == CaptureState::Waiting && event is Cancelled
            &&& step.command == CaptureCommandView::Return(Ok(())) <==> m.state
                == CaptureState::Waiting && event is Cancelled
        }),
{
}

/// The end of a loop always reaches the sink. The step that ends a loop
/// with a sink reports, as the last thing, an event that is the last of the
/// capture loop: that the loop was stopped if it returns success, and else
/// the error that it returns, in words. The controller that takes this
/// event in has the capture loop idle. The one exception is a loop that
/// ends because the sink is closed.
pub proof fn lemma_end_is_reported(
    m: CaptureLoopView,
    event: CaptureEventView,
    timestamp: Seq<char>,
    controller: ControllerView,
)
    requires
        m.has_sink,
        m.state != CaptureState::Finished,
        !(event is SinkClosed),
        m.step(event, timestamp).1.command is Return,
    ensures
        ({
            let step = m.step(event, timestamp).1;
            &&& step.reports.len() > 0
            &&& step.reports.last() matches ReportView::Event(last)
            &&& last.source == LoopKind::Observer
            &&& last.timestamp == timestamp
            &&& match step.command->Return_0 {
                Ok(_) => last.kind == EventKind::Stopped,
                Err(e) => last.kind == EventKind::Error && last.text == e.message(),
            }
            &&& controller.publish(last).state(LoopKind::Observer) == LoopState::Idle
        }),
{
}

/// Reports go one way: a loop with a sink reports events only, and a loop
/// without one reports lines for standard output only.
pub proof fn lemma_reports_go_one_way(
    m: CaptureLoopView,
    event: CaptureEventView,
    timestamp: Seq<char>,
)
    ensures
        forall|k: int|
            0 <= k < m.step(event, timestamp).1.reports.len() ==> (#[trigger] m.step(
                event,
                timestamp,
            ).1.reports[k] is Event <==> m.has_sink),
{
}

/// The quiet flag keeps saved captures from being reported and changes
/// nothing else: the quiet loop moves as the other does, gives the same
/// command, and reports the same but for the saved capture.
pub proof fn lemma_quiet_hides_saves_only(
    m: CaptureLoopView,
    event: CaptureEventView,
    timestamp: Seq<char>,
)
    requires
        !m.quiet,
    ensures
        ({
            let hushed = CaptureLoopView { quiet: true, ..m };
            let (next, step) = m.step(event, timestamp);
            let (quiet_next, quiet_step) = hushed.step(event, timestamp);
            &&& quiet_next.state == next.state
            &&& quiet_step.command == step.command
            &&& if m.state == CaptureState::Capturing && event is Captured {
                quiet_step.reports.len() == 0 && step.reports == seq![m.saved_report(timestamp)]
            } else {
                quiet_step.reports == step.reports
            }
        }),
{
}

/// What `capture_config_checked` comes to, field by field. A configuration
/// is made exactly when the capture target is one of the three names, the
/// URL has a web scheme and parses, and the image format is one of the two
/// names, each in normal form; it then holds the browser and the
/// format of those names, the URL in normal form, and the interval as given.
/// Otherwise the message is that of the first of the three fields that is
/// rejected.
pub proof fn lemma_capture_config_checked(
    target_browser: Seq<char>,
    url: Seq<char>,
    file_format: Seq<char>,
    interval: u16,
)
    ensures
        ({
            let browser = target_browser_checked(normalized(target_browser));
            let page = url_checked(normalized(url), url_is_valid(normalized(url)));
            let format = file_format_checked(normalized(file_format));
            match capture_config_checked(target_browser, url, file_format, interval) {
                Ok(config) => {
                    &&& is_target_browser(normalized(target_browser))
                    &&& has_web_scheme(normalized(url))
                    &&& url_is_valid(normalized(url))
                    &&& is_file_format(normalized(file_format))
                    &&& Some(config.target_browser) == TargetBrowser::named(
                        normalized(target_browser),
                    )
                    &&& config.url == normalized(url)
                    &&& Some(config.file_format) == FileFormat::named(normalized(file_format))
                    &&& config.interval == interval
                },
                Err(e) => {
                    ||| browser == Err::<Seq<char>, Seq<char>>(e)
                    ||| browser is Ok && page == Err::<Seq<char>, Seq<char>>(e)
                    ||| browser is Ok && page is Ok && format == Err::<Seq<char>, Seq<char>>(e)
                },
            }
        }),
{
    reveal_with_fuel(fields_checked, 4);
}

/// A URL that is not accepted starts nothing: whatever the other fields,
/// starting the capture loop on a URL without a web scheme, or one that does
/// not parse, gives a message and no loop.
pub proof fn lemma_bad_url_starts_nothing(
    target_browser: Seq<char>,
    url: Seq<char>,
    file_format: Seq<char>,
    interval: u16,
    quiet_flag: bool,
    has_sink: bool,
    os: Seq<char>,
    timestamp: Seq<char>,
)
    requires
        !has_web_scheme(normalized(url)) || !url_is_valid(normalized(url)),
    ensures
        observing_started(
            target_browser,
            url,
            file_format,
            interval,
            quiet_flag,
            has_sink,
            os,
            timestamp,
        ) is Err,
{
    lemma_capture_config_checked(target_browser, url, file_format, interval);
}

} // verus!
