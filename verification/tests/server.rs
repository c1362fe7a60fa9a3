use observer::event::{EventKind, LoopKind, Report, StatusEvent};
use observer::observer::FileFormat;
use observer::server::{
    not_found, preview, render_preview, root, route, start_server, update, FileRead, HttpReply,
    ObservedFileName, PreviewHtmlContents, Route, ServeCommand, ServeConfig, ServeError,
    ServeEvent, ServeLoop, ServeState, ServeStep, PREVIEW_TEMPLATE,
};

const STAMP: &str = "08:30:00-24/12/2023";

fn text(s: &str) -> String {
    s.to_string()
}

fn config(port: u16) -> ServeConfig {
    ServeConfig::new("192.168.13.37", "0.0.0.0", port, "jpeg", 5).unwrap()
}

fn event(kind: EventKind, message: &str) -> Report {
    Report::Event(StatusEvent {
        kind,
        source: LoopKind::Server,
        text: text(message),
        timestamp: text(STAMP),
    })
}

fn serving_loop(has_sink: bool) -> ServeLoop {
    let mut m = ServeLoop::new(config(0), has_sink);
    m.step(ServeEvent::Launched, STAMP);
    m.step(ServeEvent::Bound(40123), STAMP);
    assert_eq!(m.state(), ServeState::Serving);
    m
}

fn page(ip: &str, port: &str, format: &str, refresh: &str) -> String {
    format!(
        "<!DOCTYPE html>
<html lang=\"en\">
<head>
<meta charset=\"utf-8\">
<title>Observer</title>
</head>
<body>
<img id=\"observed\" src=\"/update\" alt=\"latest capture\">
<script>
const origin = \"http://{ip}:{port}\";
const image = document.getElementById(\"observed\");
function reload() {{
    image.src = origin + \"/update?{format}=\" + Date.now();
    image.title = \"observed.{format}\";
}}
reload();
setInterval(reload, {refresh});
</script>
</body>
</html>
"
    )
}

#[test]
fn template_has_five_placeholders() {
    assert_eq!(PREVIEW_TEMPLATE.matches('#').count(), 5);
}

#[test]
fn template_is_filled_in_order() {
    assert_eq!(render_preview("#|#|#|#|#", "1.2.3.4", 8080, "png", 2), "1.2.3.4|8080|png|png|120000");
}

#[test]
fn template_with_fewer_placeholders_is_filled_as_far_as_it_goes() {
    assert_eq!(render_preview("a#b#c", "1.2.3.4", 80, "png", 1), "a1.2.3.4b80c");
    assert_eq!(render_preview("plain", "1.2.3.4", 80, "png", 1), "plain");
}

#[test]
fn template_with_more_placeholders_keeps_the_rest() {
    assert_eq!(render_preview("######", "x", 0, "f", 0), "x0ff0#");
}

#[test]
fn refresh_is_the_interval_in_milliseconds() {
    assert_eq!(render_preview("####=#", "", 0, "", 0), "0=0");
    assert_eq!(render_preview("####=#", "", 0, "", 1), "0=60000");
    assert_eq!(render_preview("####=#", "", 0, "", 5), "0=300000");
    assert_eq!(render_preview("####=#", "", 65535, "", 65535), "65535=3932100000");
}

#[test]
fn preview_page_is_the_filled_template() {
    let html = PreviewHtmlContents::new("192.168.13.37", 8080, "jpeg", 5);
    assert_eq!(html.0, page("192.168.13.37", "8080", "jpeg", "300000"));
}

#[test]
fn observed_file_name_has_the_format_as_suffix() {
    assert_eq!(ObservedFileName::new("png").0, "observed.png");
    assert_eq!(ObservedFileName::new("jpeg").0, "observed.jpeg");
}

#[test]
fn serve_config_holds_the_normal_forms() {
    let c = ServeConfig::new(" 10.0.0.7 ", " 127.0.0.1", 9000, "PNG", 4).unwrap();
    assert_eq!(c.server_ip(), "10.0.0.7");
    assert_eq!(c.host(), "127.0.0.1");
    assert_eq!(c.port(), 9000);
    assert_eq!(c.file_format(), FileFormat::Png);
    assert_eq!(c.interval(), 4);
}

#[test]
fn serve_config_reports_the_first_bad_field() {
    assert_eq!(
        ServeConfig::new("nowhere", "nowhere", 1, "bmp", 1),
        Err(text("server IP must be an IPv4 address"))
    );
    assert_eq!(
        ServeConfig::new("1.2.3.4", "nowhere", 1, "bmp", 1),
        Err(text(
            "host can either be 127.0.0.1 to serve locally on the host computer\nor 0.0.0.0 to serve on the computer network"
        ))
    );
    assert_eq!(
        ServeConfig::new("1.2.3.4", "0.0.0.0", 1, "bmp", 1),
        Err(text("file format must either be JPEG or PNG"))
    );
}

#[test]
fn serve_config_from_a_form() {
    let form = [text("1.2.3.4"), text("0.0.0.0"), text("Jpeg")];
    let c = ServeConfig::from_form(form, 81, 6, false).unwrap();
    assert_eq!(c.server_ip(), "1.2.3.4");
    assert_eq!(c.host(), "0.0.0.0");
    assert_eq!(c.port(), 81);
    assert_eq!(c.file_format(), FileFormat::Jpeg);
    assert_eq!(c.interval(), 6);
}

#[test]
fn serve_config_from_a_rejected_form() {
    let form = [text("1.2.3.4"), text(""), text("Jpeg")];
    assert_eq!(
        ServeConfig::from_form(form, 81, 6, false),
        Err(text(
            "Error: these fields must be filled before\nstarting the server\n[File Format, Saving Interval, Server IP, Host Address, Port Number]"
        ))
    );
    let form = [text("1.2.3"), text("0.0.0.0"), text("Jpeg")];
    assert_eq!(
        ServeConfig::from_form(form, 81, 6, false),
        Err(text("Error: server IP must be an IPv4 address"))
    );
}

#[test]
fn serve_error_messages() {
    assert_eq!(ServeError::Bind(text("address in use")).message(), "address in use");
    assert_eq!(ServeError::Server(text("worker died")).message(), "worker died");
    assert_eq!(
        ServeError::Ended.message(),
        "Error: Server ended without being asked to stop"
    );
    assert_eq!(
        ServeError::SinkClosed.message(),
        "Error: Sending Server message through mpsc channel"
    );
    assert_eq!(
        ServeError::SignalLost.message(),
        "Error: Receiving shutdown message through crossbeam channel"
    );
    assert_eq!(ServeError::OutOfTurn.message(), "Error: Server event out of turn");
}

#[test]
fn paths_and_their_routes() {
    assert_eq!(route("/"), Route::Root);
    assert_eq!(route("/preview"), Route::Preview);
    assert_eq!(route("/update"), Route::Update);
    assert_eq!(route(""), Route::Unknown);
    assert_eq!(route("/preview/"), Route::Unknown);
    assert_eq!(route("/Update"), Route::Unknown);
    assert_eq!(route("/favicon.ico"), Route::Unknown);
}

#[test]
fn root_redirects_to_the_preview_page() {
    let reply = root();
    assert_eq!(
        reply,
        HttpReply { status: 307, content_type: None, location: Some(text("/preview")), body: vec![] }
    );
    assert_eq!(route(reply.location.as_deref().unwrap()), Route::Preview);
}

#[test]
fn preview_serves_the_page_as_html() {
    let html = PreviewHtmlContents(text("<p>caf\u{e9}</p>"));
    assert_eq!(
        preview(&html),
        HttpReply {
            status: 200,
            content_type: Some(text("text/html; charset=utf-8")),
            location: None,
            body: "<p>caf\u{e9}</p>".as_bytes().to_vec(),
        }
    );
}

#[test]
fn update_serves_the_bytes_that_were_read() {
    let bytes = vec![0xff, 0xd8, 0xff, 0xe0, 0x00];
    assert_eq!(
        update(FileFormat::Jpeg, FileRead::Found(bytes.clone())),
        HttpReply {
            status: 200,
            content_type: Some(text("image/jpeg")),
            location: None,
            body: bytes.clone(),
        }
    );
    assert_eq!(
        update(FileFormat::Png, FileRead::Found(vec![])),
        HttpReply {
            status: 200,
            content_type: Some(text("image/png")),
            location: None,
            body: vec![],
        }
    );
}

#[test]
fn update_before_any_capture_is_not_found() {
    assert_eq!(
        update(FileFormat::Jpeg, FileRead::Missing),
        HttpReply { status: 404, content_type: None, location: None, body: vec![] }
    );
}

#[test]
fn update_of_an_unreadable_file_is_a_server_error() {
    assert_eq!(
        update(FileFormat::Png, FileRead::Unreadable),
        HttpReply { status: 500, content_type: None, location: None, body: vec![] }
    );
}

#[test]
fn unknown_path_is_not_found() {
    assert_eq!(not_found(), HttpReply::bare(404));
    assert_eq!(
        HttpReply::bare(204),
        HttpReply { status: 204, content_type: None, location: None, body: vec![] }
    );
}

#[test]
fn launch_asks_for_the_configured_address() {
    let mut m = ServeLoop::new(config(8080), true);
    assert_eq!(m.state(), ServeState::Created);
    assert_eq!(m.bound_port(), None);
    let step = m.step(ServeEvent::Launched, STAMP);
    assert_eq!(
        step,
        ServeStep { reports: vec![], command: ServeCommand::Bind { address: text("0.0.0.0:8080") } }
    );
    assert_eq!(m.state(), ServeState::Binding);
}

#[test]
fn port_zero_is_asked_for_as_zero() {
    let mut m = ServeLoop::new(config(0), true);
    let step = m.step(ServeEvent::Launched, STAMP);
    assert_eq!(step.command, ServeCommand::Bind { address: text("0.0.0.0:0") });
}

#[test]
fn bound_loop_goes_by_the_port_of_the_listener() {
    let mut m = ServeLoop::new(config(0), true);
    m.step(ServeEvent::Launched, STAMP);
    let step = m.step(ServeEvent::Bound(40123), STAMP);
    assert_eq!(
        step,
        ServeStep {
            reports: vec![
                event(EventKind::Started, "Server started"),
                event(EventKind::ServerListening, "Server address: 192.168.13.37:40123"),
            ],
            command: ServeCommand::Serve {
                page: PreviewHtmlContents(page("192.168.13.37", "40123", "jpeg", "300000")),
                observed: ObservedFileName(text("observed.jpeg")),
            },
        }
    );
    assert_eq!(m.state(), ServeState::Serving);
    assert_eq!(m.bound_port(), Some(40123));
    assert_eq!(m.config().port(), 0);
}

#[test]
fn bound_loop_without_sink_prints_the_address() {
    let mut m = ServeLoop::new(config(8080), false);
    m.step(ServeEvent::Launched, STAMP);
    let step = m.step(ServeEvent::Bound(8080), STAMP);
    assert_eq!(
        step.reports,
        vec![Report::Print(text("Server address: 192.168.13.37:8080"))]
    );
}

#[test]
fn failed_bind_is_fatal() {
    let mut m = ServeLoop::new(config(80), true);
    m.step(ServeEvent::Launched, STAMP);
    let step = m.step(ServeEvent::BindFailed(text("Address already in use")), STAMP);
    assert_eq!(
        step,
        ServeStep {
            reports: vec![event(EventKind::Error, "Address already in use")],
            command: ServeCommand::Return(Err(ServeError::Bind(text("Address already in use")))),
        }
    );
    assert_eq!(m.state(), ServeState::Finished);
    assert_eq!(m.bound_port(), None);
}

#[test]
fn failed_bind_without_sink_is_returned_only() {
    let mut m = ServeLoop::new(config(80), false);
    m.step(ServeEvent::Launched, STAMP);
    let step = m.step(ServeEvent::BindFailed(text("denied")), STAMP);
    assert_eq!(
        step,
        ServeStep {
            reports: vec![],
            command: ServeCommand::Return(Err(ServeError::Bind(text("denied")))),
        }
    );
}

#[test]
fn cancellation_shuts_the_server_down_gracefully() {
    let mut m = serving_loop(true);
    let step = m.step(ServeEvent::Cancelled, STAMP);
    assert_eq!(
        step,
        ServeStep { reports: vec![], command: ServeCommand::Shutdown { graceful: true } }
    );
    assert_eq!(m.state(), ServeState::Stopping);
    let step = m.step(ServeEvent::ServerExited, STAMP);
    assert_eq!(
        step,
        ServeStep {
            reports: vec![event(EventKind::Stopped, "Server stopped")],
            command: ServeCommand::Return(Ok(())),
        }
    );
    assert_eq!(m.state(), ServeState::Finished);
}

#[test]
fn stop_without_sink_is_printed() {
    let mut m = serving_loop(false);
    m.step(ServeEvent::Cancelled, STAMP);
    let step = m.step(ServeEvent::ServerExited, STAMP);
    assert_eq!(
        step.reports,
        vec![Report::Print(text("Server stopped | 08:30:00-24/12/2023"))]
    );
}

#[test]
fn server_that_ends_by_itself_is_not_reported_as_stopped() {
    let mut m = serving_loop(true);
    let step = m.step(ServeEvent::ServerExited, STAMP);
    assert_eq!(
        step,
        ServeStep {
            reports: vec![event(
                EventKind::Error,
                "Error: Server ended without being asked to stop"
            )],
            command: ServeCommand::Return(Err(ServeError::Ended)),
        }
    );
    assert_eq!(m.state(), ServeState::Finished);

    let mut m = serving_loop(false);
    let step = m.step(ServeEvent::ServerExited, STAMP);
    assert_eq!(
        step,
        ServeStep { reports: vec![], command: ServeCommand::Return(Err(ServeError::Ended)) }
    );
}

#[test]
fn failed_server_is_fatal() {
    let mut m = serving_loop(true);
    let step = m.step(ServeEvent::ServerFailed(text("worker died")), STAMP);
    assert_eq!(
        step,
        ServeStep {
            reports: vec![event(EventKind::Error, "worker died")],
            command: ServeCommand::Return(Err(ServeError::Server(text("worker died")))),
        }
    );
    let mut m = serving_loop(true);
    m.step(ServeEvent::Cancelled, STAMP);
    let step = m.step(ServeEvent::ServerFailed(text("worker died")), STAMP);
    assert_eq!(
        step.command,
        ServeCommand::Return(Err(ServeError::Server(text("worker died"))))
    );
}

#[test]
fn lost_signal_ends_the_serving_loop() {
    let mut m = serving_loop(true);
    let step = m.step(ServeEvent::SignalLost, STAMP);
    assert_eq!(
        step,
        ServeStep {
            reports: vec![event(
                EventKind::Error,
                "Error: Receiving shutdown message through crossbeam channel"
            )],
            command: ServeCommand::Return(Err(ServeError::SignalLost)),
        }
    );
}

#[test]
fn closed_sink_ends_the_serving_loop_without_a_report() {
    let mut m = serving_loop(true);
    let step = m.step(ServeEvent::SinkClosed, STAMP);
    assert_eq!(
        step,
        ServeStep { reports: vec![], command: ServeCommand::Return(Err(ServeError::SinkClosed)) }
    );
    assert_eq!(m.state(), ServeState::Finished);
}

#[test]
fn serving_event_out_of_turn_is_fatal() {
    let mut m = ServeLoop::new(config(80), true);
    let step = m.step(ServeEvent::Bound(80), STAMP);
    assert_eq!(
        step,
        ServeStep {
            reports: vec![event(EventKind::Error, "Error: Server event out of turn")],
            command: ServeCommand::Return(Err(ServeError::OutOfTurn)),
        }
    );
    let mut m = serving_loop(true);
    m.step(ServeEvent::Cancelled, STAMP);
    let step = m.step(ServeEvent::Cancelled, STAMP);
    assert_eq!(step.command, ServeCommand::Return(Err(ServeError::OutOfTurn)));
}

#[test]
fn finished_serving_loop_stays_finished_and_silent() {
    let mut m = serving_loop(true);
    m.step(ServeEvent::Cancelled, STAMP);
    m.step(ServeEvent::ServerExited, STAMP);
    for next in [ServeEvent::Launched, ServeEvent::Bound(1), ServeEvent::Cancelled, ServeEvent::SinkClosed] {
        let step = m.step(next, STAMP);
        assert_eq!(
            step,
            ServeStep { reports: vec![], command: ServeCommand::Return(Err(ServeError::OutOfTurn)) }
        );
        assert_eq!(m.state(), ServeState::Finished);
    }
}

#[test]
fn serving_step_now_stamps_with_the_time_of_the_call() {
    let mut m = ServeLoop::new(config(0), true);
    m.step_now(ServeEvent::Launched);
    let step = m.step_now(ServeEvent::Bound(5000));
    assert_eq!(step.reports.len(), 2);
    match &step.reports[1] {
        Report::Event(e) => {
            assert_eq!(e.kind, EventKind::ServerListening);
            assert_eq!(e.text, "Server address: 192.168.13.37:5000");
            assert_eq!(e.timestamp.len(), 19);
        }
        other => panic!("no event: {:?}", other),
    }
}

#[test]
fn start_server_launches_the_loop() {
    let (m, step) =
        start_server(" 10.0.0.7", "127.0.0.1 ", 0, "PNG", 5, true, STAMP).unwrap();
    assert_eq!(m.state(), ServeState::Binding);
    assert_eq!(m.config().server_ip(), "10.0.0.7");
    assert_eq!(
        step,
        ServeStep { reports: vec![], command: ServeCommand::Bind { address: text("127.0.0.1:0") } }
    );
}

#[test]
fn start_server_rejects_a_bad_field() {
    let r = start_server("10.0.0.7", "10.0.0.7", 0, "png", 5, true, STAMP);
    assert_eq!(
        r.unwrap_err(),
        "host can either be 127.0.0.1 to serve locally on the host computer\nor 0.0.0.0 to serve on the computer network"
    );
}

#[test]
fn template_may_hold_any_text() {
    assert_eq!(
        render_preview("caf\u{e9} # \u{2603}#\u{1f600}", "\u{fc}", 7, "png", 1),
        "caf\u{e9} \u{fc} \u{2603}7\u{1f600}"
    );
    assert_eq!(render_preview("", "a", 1, "b", 1), "");
    assert_eq!(render_preview("#", "", 1, "b", 1), "");
}
