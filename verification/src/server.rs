//! The serving side: the preview page, the routes and what each answers.

use crate::clock::{is_timestamp, timestamp};
use crate::event::{
    report_views, EventKind, LoopKind, Report, ReportView, StatusEvent, StatusEventView,
};
use crate::observer::FileFormat;
use crate::settings::{
    fields_checked, gui_mode_checked, ip_v4_is_valid, is_file_format, is_host,
    lemma_fields_checked, parse_config_gui_mode, parse_file_format, parse_host, parse_server_ip,
    texts, Field,
};
use crate::text::{decimal, join, replace_first, replacen, same_text, u64_to_string};
use vstd::prelude::*;
use vstd::string::{StrSliceExecFns, StringExecFns};

verus! {

/// What marks a place of the preview page that is filled in.
pub const PLACEHOLDER: char = '#';

/// The preview page before it is filled in. Its placeholders stand, in this
/// order, for the advertised address, the port, the image format as the
/// name of the query parameter that defeats caching, the image format as
/// the suffix of the file that is expected, and the milliseconds between
/// two reloads of the image.
pub const PREVIEW_TEMPLATE: &'static str = "<!DOCTYPE html>
<html lang=\"en\">
<head>
<meta charset=\"utf-8\">
<title>Observer</title>
</head>
<body>
<img id=\"observed\" src=\"/update\" alt=\"latest capture\">
<script>
const origin = \"http://#:#\";
const image = document.getElementById(\"observed\");
function reload() {
    image.src = origin + \"/update?#=\" + Date.now();
    image.title = \"observed.#\";
}
reload();
setInterval(reload, #);
</script>
</body>
</html>
";

/// Milliseconds in a minute.
pub const MILLISECONDS_PER_MINUTE: u64 = 60000;

/// A template with its placeholders filled in: the first with the
/// advertised address, the second with the port, the next two with the
/// image format and the fifth with the interval in milliseconds.
pub open spec fn page_of(
    template: Seq<char>,
    server_ip: Seq<char>,
    port: u16,
    file_format: Seq<char>,
    interval: u16,
) -> Seq<char> {
    let with_ip = replace_first(template, PLACEHOLDER, server_ip, 1);
    let with_port = replace_first(with_ip, PLACEHOLDER, decimal(port as nat), 1);
    let with_format = replace_first(with_port, PLACEHOLDER, file_format, 2);
    replace_first(
        with_format,
        PLACEHOLDER,
        decimal((interval * MILLISECONDS_PER_MINUTE) as nat),
        1,
    )
}

/// Fills in a template of the preview page. `interval` is in minutes.
pub fn render_preview(
    template: &str,
    server_ip: &str,
    port: u16,
    file_format: &str,
    interval: u16,
) -> (r: String)
    ensures
        r@ == page_of(template@, server_ip@, port, file_format@, interval),
{
    let with_ip = replacen(template, PLACEHOLDER, server_ip, 1);
    let port_text = u64_to_string(port as u64);
    let with_port = replacen(with_ip.as_str(), PLACEHOLDER, port_text.as_str(), 1);
    let with_format = replacen(with_port.as_str(), PLACEHOLDER, file_format, 2);
    let refresh = u64_to_string(interval as u64 * MILLISECONDS_PER_MINUTE);
    replacen(with_format.as_str(), PLACEHOLDER, refresh.as_str(), 1)
}

/// The preview page as it is served.
#[derive(Debug, PartialEq, Eq)]
pub struct PreviewHtmlContents(pub String);

impl PreviewHtmlContents {
    /// The built-in preview page, filled in.
    pub fn new(server_ip: &str, port: u16, file_format: &str, interval: u16) -> (r: Self)
        ensures
            r.0@ == page_of(PREVIEW_TEMPLATE@, server_ip@, port, file_format@, interval),
    {
        PreviewHtmlContents(
            render_preview(PREVIEW_TEMPLATE, server_ip, port, file_format, interval),
        )
    }
}

/// What comes before the suffix in the name of the file that is served.
pub const OBSERVED_NAME_STEM: &'static str = "observed.";

/// The name of the file that holds the latest capture, relative to the
/// working directory.
#[derive(Debug, PartialEq, Eq)]
pub struct ObservedFileName(pub String);

impl ObservedFileName {
    /// The name of the file that holds the latest capture in `file_format`.
    pub fn new(file_format: &str) -> (r: Self)
        ensures
            r.0@ == OBSERVED_NAME_STEM@ + file_format@,
    {
        ObservedFileName(join(OBSERVED_NAME_STEM, file_format))
    }
}

/// Where to serve and what. Made once, before the loop starts, and never
/// changed.
#[derive(Debug, PartialEq, Eq)]
pub struct ServeConfig {
    server_ip: String,
    host: String,
    port: u16,
    file_format: FileFormat,
    interval: u16,
}

/// `ServeConfig` with its strings as sequences.
pub ghost struct ServeConfigView {
    /// Address under which clients reach the server.
    pub server_ip: Seq<char>,
    /// Address the server binds to.
    pub host: Seq<char>,
    /// Port that is asked for; 0 lets the system choose.
    pub port: u16,
    pub file_format: FileFormat,
    /// Minutes between two reloads of the image in the preview page.
    pub interval: u16,
}

impl View for ServeConfig {
    type V = ServeConfigView;

    closed spec fn view(&self) -> ServeConfigView {
        ServeConfigView {
            server_ip: self.server_ip@,
            host: self.host@,
            port: self.port,
            file_format: self.file_format,
            interval: self.interval,
        }
    }
}

/// A configuration or the message of the validator that rejected it, with
/// strings as sequences.
pub open spec fn serve_config_view(r: Result<ServeConfig, String>) -> Result<
    ServeConfigView,
    Seq<char>,
> {
    match r {
        Ok(c) => Ok(c@),
        Err(e) => Err(e@),
    }
}

/// The configuration that three validated fields and two numbers make.
pub open spec fn serve_config_of(
    server_ip: Seq<char>,
    host: Seq<char>,
    port: u16,
    file_format: Seq<char>,
    interval: u16,
) -> ServeConfigView
    recommends
        is_file_format(file_format),
{
    ServeConfigView {
        server_ip,
        host,
        port,
        file_format: FileFormat::named(file_format).unwrap(),
        interval,
    }
}

/// The text fields of a serving configuration, in the order in which they
/// are validated.
pub open spec fn serve_fields() -> Seq<Field> {
    seq![Field::ServerIp, Field::Host, Field::FileFormat]
}

/// The configuration that raw fields make: advertised address, bind host
/// and image format are validated in this order, and the first rejected one
/// decides the message.
pub open spec fn serve_config_checked(
    server_ip: Seq<char>,
    host: Seq<char>,
    port: u16,
    file_format: Seq<char>,
    interval: u16,
) -> Result<ServeConfigView, Seq<char>> {
    let (left, rejected) = fields_checked(seq![server_ip, host, file_format], serve_fields(), 0);
    match rejected {
        Some(e) => Err(e),
        None => Ok(serve_config_of(left[0], left[1], port, left[2], interval)),
    }
}

/// The configuration that a form of the interactive front-end makes, or the
/// message that the form is answered with.
pub open spec fn serve_form_checked(
    values: Seq<Seq<char>>,
    port: u16,
    interval: u16,
    config_file_mode: bool,
) -> Result<ServeConfigView, Seq<char>> {
    let (left, rejected) = gui_mode_checked(values, serve_fields(), false, config_file_mode);
    match rejected {
        Some(e) => Err(e),
        None => Ok(serve_config_of(left[0], left[1], port, left[2], interval)),
    }
}

impl ServeConfig {
    /// The addresses of a configuration have passed their validators.
    #[verifier::type_invariant]
    spec fn valid(self) -> bool {
        ip_v4_is_valid(self.server_ip@) && is_host(self.host@)
    }

    /// Puts validated fields together.
    fn assemble(server_ip: String, host: String, port: u16, file_format: &str, interval: u16)
        -> (r: ServeConfig)
        requires
            ip_v4_is_valid(server_ip@),
            is_host(host@),
            is_file_format(file_format@),
        ensures
            r@ == serve_config_of(server_ip@, host@, port, file_format@, interval),
    {
        ServeConfig {
            server_ip,
            host,
            port,
            file_format: FileFormat::from_name(file_format).unwrap(),
            interval,
        }
    }

    /// Validates the fields of a serving configuration, in the order
    /// advertised address, bind host, image format, and makes the
    /// configuration. The first rejected field ends the run with its
    /// validator's message. `interval` is in minutes.
    pub fn new(server_ip: &str, host: &str, port: u16, file_format: &str, interval: u16) -> (r:
        Result<ServeConfig, String>)
        ensures
            serve_config_view(r) == serve_config_checked(
                server_ip@,
                host@,
                port,
                file_format@,
                interval,
            ),
    {
        proof {
            reveal_with_fuel(fields_checked, 4);
        }
        let server_ip = match parse_server_ip(server_ip) {
            Ok(i) => i,
            Err(e) => {
                return Err(e);
            },
        };
        let host = match parse_host(host) {
            Ok(h) => h,
            Err(e) => {
                return Err(e);
            },
        };
        let format = match parse_file_format(file_format) {
            Ok(f) => f,
            Err(e) => {
                return Err(e);
            },
        };
        Ok(Self::assemble(server_ip, host, port, format.as_str(), interval))
    }

    /// Validates a form of the interactive front-end, whose values are
    /// advertised address, bind host and image format, and makes the
    /// configuration. The form is answered as `parse_config_gui_mode` says.
    pub fn from_form(values: [String; 3], port: u16, interval: u16, config_file_mode: bool) -> (r:
        Result<ServeConfig, String>)
        ensures
            serve_config_view(r) == serve_form_checked(
                texts(values@),
                port,
                interval,
                config_file_mode,
            ),
    {
        let ghost raw = texts(values@);
        let mut values = values;
        let fields = [Field::ServerIp, Field::Host, Field::FileFormat];
        match parse_config_gui_mode(&mut values, fields, false, config_file_mode) {
            Ok(()) => {
                proof {
                    lemma_fields_checked(raw, serve_fields(), 0);
                }
                Ok(
                    Self::assemble(
                        values[0].clone(),
                        values[1].clone(),
                        port,
                        values[2].as_str(),
                        interval,
                    ),
                )
            },
            Err(e) => Err(e),
        }
    }

    /// Address under which clients reach the server: one that parses as
    /// IPv4.
    pub fn server_ip(&self) -> (r: &str)
        ensures
            r@ == self@.server_ip,
            ip_v4_is_valid(r@),
    {
        proof {
            use_type_invariant(self);
        }
        self.server_ip.as_str()
    }

    /// Address the server binds to: one of the two bind hosts.
    pub fn host(&self) -> (r: &str)
        ensures
            r@ == self@.host,
            is_host(r@),
    {
        proof {
            use_type_invariant(self);
        }
        self.host.as_str()
    }

    /// Port that is asked for; 0 lets the system choose.
    pub fn port(&self) -> (r: u16)
        ensures
            r == self@.port,
    {
        self.port
    }

    /// Image format of the file that is served.
    pub fn file_format(&self) -> (r: FileFormat)
        ensures
            r == self@.file_format,
    {
        self.file_format
    }

    /// Minutes between two reloads of the image in the preview page.
    pub fn interval(&self) -> (r: u16)
        ensures
            r == self@.interval,
    {
        self.interval
    }
}

/// Why the serving loop has failed.
#[derive(Debug, PartialEq, Eq)]
pub enum ServeError {
    /// The address could not be bound; the text says why.
    Bind(String),
    /// The server ended on an error; the text says which.
    Server(String),
    /// The server ended by itself, though no cancellation had asked it to.
    Ended,
    /// A report could not be delivered: the front-end is gone.
    SinkClosed,
    /// The cancellation signal can no longer arrive: its sender is gone.
    SignalLost,
    /// The loop was handed an event that its state does not expect.
    OutOfTurn,
}

/// `ServeError` with its strings as sequences.
pub ghost enum ServeErrorView {
    Bind(Seq<char>),
    Server(Seq<char>),
    Ended,
    SinkClosed,
    SignalLost,
    OutOfTurn,
}

impl View for ServeError {
    type V = ServeErrorView;

    open spec fn view(&self) -> ServeErrorView {
        match self {
            ServeError::Bind(why) => ServeErrorView::Bind(why@),
            ServeError::Server(why) => ServeErrorView::Server(why@),
            ServeError::Ended => ServeErrorView::Ended,
            ServeError::SinkClosed => ServeErrorView::SinkClosed,
            ServeError::SignalLost => ServeErrorView::SignalLost,
            ServeError::OutOfTurn => ServeErrorView::OutOfTurn,
        }
    }
}

/// Message for a server that ended by itself.
pub const SERVER_ENDED_ERROR: &'static str = "Error: Server ended without being asked to stop";

/// Message for a front-end that is gone.
pub const SERVER_SINK_ERROR: &'static str = "Error: Sending Server message through mpsc channel";

/// Message for a cancellation signal whose sender is gone.
pub const SERVER_SIGNAL_ERROR: &'static str =
    "Error: Receiving shutdown message through crossbeam channel";

/// Message for an event that the loop did not expect.
pub const SERVER_TURN_ERROR: &'static str = "Error: Server event out of turn";

impl ServeErrorView {
    /// The text shown to the user.
    pub open spec fn message(self) -> Seq<char> {
        match self {
            ServeErrorView::Bind(why) => why,
            ServeErrorView::Server(why) => why,
            ServeErrorView::Ended => SERVER_ENDED_ERROR@,
            ServeErrorView::SinkClosed => SERVER_SINK_ERROR@,
            ServeErrorView::SignalLost => SERVER_SIGNAL_ERROR@,
            ServeErrorView::OutOfTurn => SERVER_TURN_ERROR@,
        }
    }
}

impl ServeError {
    /// The text shown to the user.
    pub fn message(&self) -> (r: String)
        ensures
            r@ == self@.message(),
    {
        match self {
            ServeError::Bind(why) => why.clone(),
            ServeError::Server(why) => why.clone(),
            ServeError::Ended => SERVER_ENDED_ERROR.to_owned(),
            ServeError::SinkClosed => SERVER_SINK_ERROR.to_owned(),
            ServeError::SignalLost => SERVER_SIGNAL_ERROR.to_owned(),
            ServeError::OutOfTurn => SERVER_TURN_ERROR.to_owned(),
        }
    }
}

/// Status of a reply that carries what was asked for.
pub const STATUS_OK: u16 = 200;

/// Status of a reply that sends the client elsewhere for this request.
pub const STATUS_TEMPORARY_REDIRECT: u16 = 307;

/// Status of a reply for something that is not there.
pub const STATUS_NOT_FOUND: u16 = 404;

/// Status of a reply for something that could not be read.
pub const STATUS_SERVER_ERROR: u16 = 500;

/// Path of the root, which leads to the preview page.
pub const ROOT_PATH: &'static str = "/";

/// Path of the preview page.
pub const PREVIEW_PATH: &'static str = "/preview";

/// Path of the latest capture.
pub const UPDATE_PATH: &'static str = "/update";

/// Content type of the preview page.
pub const HTML_TYPE: &'static str = "text/html; charset=utf-8";

/// Content type of a PNG image.
pub const PNG_TYPE: &'static str = "image/png";

/// Content type of a JPEG image.
pub const JPEG_TYPE: &'static str = "image/jpeg";

/// What a path of a GET request leads to.
#[derive(Clone, Copy, Debug, PartialEq, Eq, Structural)]
pub enum Route {
    /// The root: a redirect to the preview page.
    Root,
    /// The preview page.
    Preview,
    /// The latest capture.
    Update,
    /// Nothing.
    Unknown,
}

/// What a path leads to.
pub open spec fn route_of(path: Seq<char>) -> Route {
    if path == ROOT_PATH@ {
        Route::Root
    } else if path == PREVIEW_PATH@ {
        Route::Preview
    } else if path == UPDATE_PATH@ {
        Route::Update
    } else {
        Route::Unknown
    }
}

/// Finds what the path of a GET request leads to. The path is taken without
/// its query.
pub fn route(path: &str) -> (r: Route)
    ensures
        r == route_of(path@),
{
    if same_text(path, ROOT_PATH) {
        Route::Root
    } else if same_text(path, PREVIEW_PATH) {
        Route::Preview
    } else if same_text(path, UPDATE_PATH) {
        Route::Update
    } else {
        Route::Unknown
    }
}

/// What reading the file of the latest capture gave.
#[derive(Debug, PartialEq, Eq)]
pub enum FileRead {
    /// The bytes of the file.
    Found(Vec<u8>),
    /// There is no such file.
    Missing,
    /// The file is there and could not be read.
    Unreadable,
}

/// `FileRead` with the bytes as a sequence.
pub ghost enum FileReadView {
    Found(Seq<u8>),
    Missing,
    Unreadable,
}

impl View for FileRead {
    type V = FileReadView;

    open spec fn view(&self) -> FileReadView {
        match self {
            FileRead::Found(bytes) => FileReadView::Found(bytes@),
            FileRead::Missing => FileReadView::Missing,
            FileRead::Unreadable => FileReadView::Unreadable,
        }
    }
}

/// The answer to one request.
#[derive(Debug, PartialEq, Eq)]
pub struct HttpReply {
    pub status: u16,
    pub content_type: Option<String>,
    /// Where a redirect leads.
    pub location: Option<String>,
    pub body: Vec<u8>,
}

/// `HttpReply` with its strings and bytes as sequences.
pub ghost struct HttpReplyView {
    pub status: u16,
    pub content_type: Option<Seq<char>>,
    pub location: Option<Seq<char>>,
    pub body: Seq<u8>,
}

impl View for HttpReply {
    type V = HttpReplyView;

    open spec fn view(&self) -> HttpReplyView {
        HttpReplyView {
            status: self.status,
            content_type: match self.content_type {
                Some(t) => Some(t@),
                None => None,
            },
            location: match self.location {
                Some(l) => Some(l@),
                None => None,
            },
            body: self.body@,
        }
    }
}

/// The content type under which an image in `format` is served.
pub open spec fn image_type(format: FileFormat) -> Seq<char> {
    match format {
        FileFormat::Png => PNG_TYPE@,
        FileFormat::Jpeg => JPEG_TYPE@,
    }
}

impl HttpReplyView {
    /// A reply without content.
    pub open spec fn bare(status: u16) -> HttpReplyView {
        HttpReplyView { status, content_type: None, location: None, body: Seq::empty() }
    }

    /// The answer to a request for the root: a temporary redirect to the
    /// preview page.
    pub open spec fn root() -> HttpReplyView {
        HttpReplyView { location: Some(PREVIEW_PATH@), ..Self::bare(STATUS_TEMPORARY_REDIRECT) }
    }

    /// The answer to a request for the preview page: the page, as HTML.
    pub open spec fn preview(page: Seq<char>) -> HttpReplyView {
        HttpReplyView {
            status: STATUS_OK,
            content_type: Some(HTML_TYPE@),
            location: None,
            body: vstd::utf8::encode_utf8(page),
        }
    }

    /// The answer to a request for the latest capture: the bytes that were
    /// read, as an image in the configured format; not found if there is no
    /// file yet; a server error if the file could not be read.
    pub open spec fn update(format: FileFormat, read: FileReadView) -> HttpReplyView {
        match read {
            FileReadView::Found(bytes) => HttpReplyView {
                status: STATUS_OK,
                content_type: Some(image_type(format)),
                location: None,
                body: bytes,
            },
            FileReadView::Missing => Self::bare(STATUS_NOT_FOUND),
            FileReadView::Unreadable => Self::bare(STATUS_SERVER_ERROR),
        }
    }
}

impl HttpReply {
    /// A reply without content.
    pub fn bare(status: u16) -> (r: HttpReply)
        ensures
            r@ == HttpReplyView::bare(status),
    {
        HttpReply { status, content_type: None, location: None, body: Vec::new() }
    }
}

/// Answers a request for the root.
pub fn root() -> (r: HttpReply)
    ensures
        r@ == HttpReplyView::root(),
{
    HttpReply {
        status: STATUS_TEMPORARY_REDIRECT,
        content_type: None,
        location: Some(PREVIEW_PATH.to_owned()),
        body: Vec::new(),
    }
}

/// Answers a request for the preview page.
pub fn preview(preview_html: &PreviewHtmlContents) -> (r: HttpReply)
    ensures
        r@ == HttpReplyView::preview(preview_html.0@),
{
    HttpReply {
        status: STATUS_OK,
        content_type: Some(HTML_TYPE.to_owned()),
        location: None,
        body: preview_html.0.as_str().as_bytes_vec(),
    }
}

/// Answers a request for the latest capture, given what reading its file
/// gave.
pub fn update(format: FileFormat, observed_file: FileRead) -> (r: HttpReply)
    ensures
        r@ == HttpReplyView::update(format, observed_file@),
{
    match observed_file {
        FileRead::Found(bytes) => {
            let content_type = match format {
                FileFormat::Png => PNG_TYPE,
                FileFormat::Jpeg => JPEG_TYPE,
            };
            HttpReply {
                status: STATUS_OK,
                content_type: Some(content_type.to_owned()),
                location: None,
                body: bytes,
            }
        },
        FileRead::Missing => HttpReply::bare(STATUS_NOT_FOUND),
        FileRead::Unreadable => HttpReply::bare(STATUS_SERVER_ERROR),
    }
}

/// Answers a request for a path that leads nowhere.
pub fn not_found() -> (r: HttpReply)
    ensures
        r@ == HttpReplyView::bare(STATUS_NOT_FOUND),
{
    HttpReply::bare(STATUS_NOT_FOUND)
}

/// Where a serving loop stands.
#[derive(Clone, Copy, Debug, PartialEq, Eq, Structural)]
pub enum ServeState {
    /// Made, not yet launched.
    Created,
    /// The address is being bound.
    Binding,
    /// The server accepts connections; the loop can be cancelled.
    Serving,
    /// The server has been told to shut down.
    Stopping,
    /// The loop has returned.
    Finished,
}

/// What happened outside the loop since its last command.
#[derive(Debug, PartialEq, Eq)]
pub enum ServeEvent {
    /// The loop is to begin.
    Launched,
    /// The address is bound; this is the port that the listener really has.
    Bound(u16),
    /// The address could not be bound; the text says why.
    BindFailed(String),
    /// The cancellation signal arrived.
    Cancelled,
    /// The sender of the cancellation signal is gone.
    SignalLost,
    /// The server has ended without an error.
    ServerExited,
    /// The server has ended on an error; the text says which.
    ServerFailed(String),
    /// A report of the previous step could not be delivered.
    SinkClosed,
}

/// `ServeEvent` with its strings as sequences.
pub ghost enum ServeEventView {
    Launched,
    Bound(u16),
    BindFailed(Seq<char>),
    Cancelled,
    SignalLost,
    ServerExited,
    ServerFailed(Seq<char>),
    SinkClosed,
}

impl View for ServeEvent {
    type V = ServeEventView;

    open spec fn view(&self) -> ServeEventView {
        match self {
            ServeEvent::Launched => ServeEventView::Launched,
            ServeEvent::Bound(port) => ServeEventView::Bound(*port),
            ServeEvent::BindFailed(why) => ServeEventView::BindFailed(why@),
            ServeEvent::Cancelled => ServeEventView::Cancelled,
            ServeEvent::SignalLost => ServeEventView::SignalLost,
            ServeEvent::ServerExited => ServeEventView::ServerExited,
            ServeEvent::ServerFailed(why) => ServeEventView::ServerFailed(why@),
            ServeEvent::SinkClosed => ServeEventView::SinkClosed,
        }
    }
}

/// What the loop asks to be done next.
#[derive(Debug, PartialEq, Eq)]
pub enum ServeCommand {
    /// Bind a listener to the address, then hand back `Bound` with the port
    /// that the listener has, or `BindFailed`.
    Bind { address: String },
    /// Serve the page and the file on the bound listener. Then hand back
    /// what happens first: `Cancelled`, `SignalLost`, `ServerExited` or
    /// `ServerFailed`.
    Serve { page: PreviewHtmlContents, observed: ObservedFileName },
    /// Tell the server to shut down; `graceful` lets requests in flight
    /// complete. Then hand back `ServerExited` or `ServerFailed`.
    Shutdown { graceful: bool },
    /// The loop is over; this is what it returns. A server that still runs
    /// is to be dropped.
    Return(Result<(), ServeError>),
}

/// `ServeCommand` with its strings as sequences.
pub ghost enum ServeCommandView {
    Bind { address: Seq<char> },
    Serve { page: Seq<char>, observed: Seq<char> },
    Shutdown { graceful: bool },
    Return(Result<(), ServeErrorView>),
}

impl View for ServeCommand {
    type V = ServeCommandView;

    open spec fn view(&self) -> ServeCommandView {
        match self {
            ServeCommand::Bind { address } => ServeCommandView::Bind { address: address@ },
            ServeCommand::Serve { page, observed } => ServeCommandView::Serve {
                page: page.0@,
                observed: observed.0@,
            },
            ServeCommand::Shutdown { graceful } => ServeCommandView::Shutdown {
                graceful: *graceful,
            },
            ServeCommand::Return(Ok(_)) => ServeCommandView::Return(Ok(())),
            ServeCommand::Return(Err(e)) => ServeCommandView::Return(Err(e@)),
        }
    }
}

/// One step of the loop: what to tell the front-end, in this order, and
/// what to do next.
#[derive(Debug, PartialEq, Eq)]
pub struct ServeStep {
    pub reports: Vec<Report>,
    pub command: ServeCommand,
}

/// `ServeStep` with its strings as sequences.
pub ghost struct ServeStepView {
    pub reports: Seq<ReportView>,
    pub command: ServeCommandView,
}

impl View for ServeStep {
    type V = ServeStepView;

    open spec fn view(&self) -> ServeStepView {
        ServeStepView { reports: report_views(self.reports@), command: self.command@ }
    }
}

/// The serving loop as a state machine. The caller carries out each command
/// and hands back what happened.
#[derive(Debug)]
pub struct ServeLoop {
    config: ServeConfig,
    has_sink: bool,
    state: ServeState,
    bound_port: Option<u16>,
}

/// `ServeLoop` with its strings as sequences.
pub ghost struct ServeLoopView {
    pub config: ServeConfigView,
    /// Reports are events for a sink, not lines for standard output.
    pub has_sink: bool,
    pub state: ServeState,
    /// The port that the listener has, once it is bound.
    pub bound_port: Option<u16>,
}

impl View for ServeLoop {
    type V = ServeLoopView;

    closed spec fn view(&self) -> ServeLoopView {
        ServeLoopView {
            config: self.config@,
            has_sink: self.has_sink,
            state: self.state,
            bound_port: self.bound_port,
        }
    }
}

/// What stands between host and port in an address.
pub const PORT_SEPARATOR: &'static str = ":";

/// What the line with the address of the server begins with.
pub const SERVER_ADDRESS: &'static str = "Server address: ";

/// A host and a port as one address.
pub open spec fn address_of(host: Seq<char>, port: u16) -> Seq<char> {
    host + PORT_SEPARATOR@ + decimal(port as nat)
}

/// The line that tells under which address clients reach the server.
pub open spec fn listening_text(server_ip: Seq<char>, port: u16) -> Seq<char> {
    SERVER_ADDRESS@ + address_of(server_ip, port)
}

/// The event that the server listens, with the address under which clients
/// reach it.
pub open spec fn listening_event(server_ip: Seq<char>, port: u16, timestamp: Seq<char>)
    -> StatusEventView {
    StatusEventView {
        kind: EventKind::ServerListening,
        source: LoopKind::Server,
        text: listening_text(server_ip, port),
        timestamp,
    }
}

impl ServeLoopView {
    /// The same loop in another state.
    pub open spec fn at(self, state: ServeState) -> ServeLoopView {
        ServeLoopView { state, ..self }
    }

    /// The reports that the server is bound to `port`: for a sink, that the
    /// loop has begun and that it listens; for standard output, the line
    /// with the address.
    pub open spec fn bound_reports(self, port: u16, timestamp: Seq<char>) -> Seq<ReportView> {
        if self.has_sink {
            seq![
                ReportView::Event(StatusEventView::started(LoopKind::Server, timestamp)),
                ReportView::Event(listening_event(self.config.server_ip, port, timestamp)),
            ]
        } else {
            seq![ReportView::Print(listening_text(self.config.server_ip, port))]
        }
    }

    /// The report that the loop was stopped.
    pub open spec fn stopped_report(self, timestamp: Seq<char>) -> ReportView {
        if self.has_sink {
            ReportView::Event(StatusEventView::stopped(LoopKind::Server, timestamp))
        } else {
            ReportView::Print(StatusEventView::stopped(LoopKind::Server, timestamp).line())
        }
    }

    /// The step that ends the loop on `error`: the error is reported to the
    /// sink; without a sink nothing is reported, since the error is what the
    /// loop returns.
    pub open spec fn fail(self, error: ServeErrorView, timestamp: Seq<char>) -> (
        ServeLoopView,
        ServeStepView,
    ) {
        (
            self.at(ServeState::Finished),
            ServeStepView {
                reports: if self.has_sink {
                    seq![
                        ReportView::Event(
                            StatusEventView::failed(LoopKind::Server, error.message(), timestamp),
                        ),
                    ]
                } else {
                    Seq::empty()
                },
                command: ServeCommandView::Return(Err(error)),
            },
        )
    }

    /// The step that ends the loop with success and reports that it was
    /// stopped.
    pub open spec fn stop(self, timestamp: Seq<char>) -> (ServeLoopView, ServeStepView) {
        (
            self.at(ServeState::Finished),
            ServeStepView {
                reports: seq![self.stopped_report(timestamp)],
                command: ServeCommandView::Return(Ok(())),
            },
        )
    }

    /// The step that the loop takes on `event`, and the loop after it.
    ///
    /// A launched loop asks for its address to be bound, with the port of
    /// its configuration. Once bound, it goes by the port that the listener
    /// really has: that port is reported and filled into the preview page,
    /// and the page and the file of the latest capture are served. A
    /// cancellation makes the loop ask for a graceful shutdown; when the
    /// server has ended, the loop reports that it was stopped and returns
    /// success; it is never reported as stopped for any other cause. A
    /// failed bind, a failed server, a server that ends by itself without a
    /// cancellation, a lost cancellation signal and an event out of turn
    /// each end the loop with an error, which is reported to the sink. When
    /// the sink is closed the loop ends with that error and reports nothing.
    /// A finished loop stays finished.
    pub open spec fn step(self, event: ServeEventView, timestamp: Seq<char>) -> (
        ServeLoopView,
        ServeStepView,
    ) {
        match (self.state, event) {
            (ServeState::Finished, _) => (
                self,
                ServeStepView {
                    reports: Seq::empty(),
                    command: ServeCommandView::Return(Err(ServeErrorView::OutOfTurn)),
                },
            ),
            (_, ServeEventView::SinkClosed) => (
                self.at(ServeState::Finished),
                ServeStepView {
                    reports: Seq::empty(),
                    command: ServeCommandView::Return(Err(ServeErrorView::SinkClosed)),
                },
            ),
            (ServeState::Created, ServeEventView::Launched) => (
                self.at(ServeState::Binding),
                ServeStepView {
                    reports: Seq::empty(),
                    command: ServeCommandView::Bind {
                        address: address_of(self.config.host, self.config.port),
                    },
                },
            ),
            (ServeState::Binding, ServeEventView::Bound(port)) => (
                ServeLoopView { state: ServeState::Serving, bound_port: Some(port), ..self },
                ServeStepView {
                    reports: self.bound_reports(port, timestamp),
                    command: ServeCommandView::Serve {
                        page: page_of(
                            PREVIEW_TEMPLATE@,
                            self.config.server_ip,
                            port,
                            self.config.file_format.spec_extension(),
                            self.config.interval,
                        ),
                        observed: OBSERVED_NAME_STEM@ + self.config.file_format.spec_extension(),
                    },
                },
            ),
            (ServeState::Binding, ServeEventView::BindFailed(why)) => self.fail(
                ServeErrorView::Bind(why),
                timestamp,
            ),
            (ServeState::Serving, ServeEventView::Cancelled) => (
                self.at(ServeState::Stopping),
                ServeStepView {
                    reports: Seq::empty(),
                    command: ServeCommandView::Shutdown { graceful: true },
                },
            ),
            (ServeState::Serving, ServeEventView::SignalLost) => self.fail(
                ServeErrorView::SignalLost,
                timestamp,
            ),
            (ServeState::Serving, ServeEventView::ServerExited) => self.fail(
                ServeErrorView::Ended,
                timestamp,
            ),
            (ServeState::Stopping, ServeEventView::ServerExited) => self.stop(timestamp),
            (ServeState::Serving, ServeEventView::ServerFailed(why)) => self.fail(
                ServeErrorView::Server(why),
                timestamp,
            ),
            (ServeState::Stopping, ServeEventView::ServerFailed(why)) => self.fail(
                ServeErrorView::Server(why),
                timestamp,
            ),
            _ => self.fail(ServeErrorView::OutOfTurn, timestamp),
        }
    }
}

impl ServeLoop {
    /// Makes a loop that has not begun. `has_sink` says whether reports go
    /// to a sink as events or to standard output as lines.
    pub fn new(config: ServeConfig, has_sink: bool) -> (r: ServeLoop)
        ensures
            r@ == (ServeLoopView {
                config: config@,
                has_sink,
                state: ServeState::Created,
                bound_port: None,
            }),
    {
        ServeLoop { config, has_sink, state: ServeState::Created, bound_port: None }
    }

    /// Where the loop stands.
    pub fn state(&self) -> (r: ServeState)
        ensures
            r == self@.state,
    {
        self.state
    }

    /// What the loop serves.
    pub fn config(&self) -> (r: &ServeConfig)
        ensures
            r@ == self@.config,
    {
        &self.config
    }

    /// The port that the listener has, once it is bound.
    pub fn bound_port(&self) -> (r: Option<u16>)
        ensures
            r == self@.bound_port,
    {
        self.bound_port
    }

    fn address(host: &str, port: u16) -> (r: String)
        ensures
            r@ == address_of(host@, port),
    {
        let mut r = String::from_str(host);
        r.append(PORT_SEPARATOR);
        let digits = u64_to_string(port as u64);
        r.append(digits.as_str());
        r
    }

    fn bound_reports(&self, port: u16, timestamp: &str) -> (r: Vec<Report>)
        ensures
            report_views(r@) == self@.bound_reports(port, timestamp@),
    {
        let address = Self::address(self.config.server_ip.as_str(), port);
        let text = join(SERVER_ADDRESS, address.as_str());
        let mut r: Vec<Report> = Vec::new();
        if self.has_sink {
            r.push(Report::Event(StatusEvent::started(LoopKind::Server, timestamp)));
            r.push(
                Report::Event(
                    StatusEvent {
                        kind: EventKind::ServerListening,
                        source: LoopKind::Server,
                        text,
                        timestamp: timestamp.to_owned(),
                    },
                ),
            );
        } else {
            r.push(Report::Print(text));
        }
        r
    }

    fn fail(&mut self, error: ServeError, timestamp: &str) -> (r: ServeStep)
        ensures
            (final(self)@, r@) == old(self)@.fail(error@, timestamp@),
    {
        let mut reports: Vec<Report> = Vec::new();
        if self.has_sink {
            reports.push(
                Report::Event(StatusEvent::failed(LoopKind::Server, error.message(), timestamp)),
            );
        }
        self.state = ServeState::Finished;
        let r = ServeStep { reports, command: ServeCommand::Return(Err(error)) };
        assert(r@.reports =~= old(self)@.fail(error@, timestamp@).1.reports);
        r
    }

    fn stop(&mut self, timestamp: &str) -> (r: ServeStep)
        ensures
            (final(self)@, r@) == old(self)@.stop(timestamp@),
    {
        let event = StatusEvent::stopped(LoopKind::Server, timestamp);
        let report = if self.has_sink {
            Report::Event(event)
        } else {
            Report::Print(event.line())
        };
        let mut reports: Vec<Report> = Vec::new();
        reports.push(report);
        self.state = ServeState::Finished;
        let r = ServeStep { reports, command: ServeCommand::Return(Ok(())) };
        assert(r@.reports =~= seq![old(self)@.stopped_report(timestamp@)]);
        r
    }

    /// Takes one step on `event`; `timestamp` is the local time that the
    /// reports of this step carry.
    pub fn step(&mut self, event: ServeEvent, timestamp: &str) -> (r: ServeStep)
        ensures
            (final(self)@, r@) == old(self)@.step(event@, timestamp@),
    {
        match self.state {
            ServeState::Finished => {
                let r = ServeStep {
                    reports: Vec::new(),
                    command: ServeCommand::Return(Err(ServeError::OutOfTurn)),
                };
                assert(r@.reports =~= Seq::empty());
                return r;
            },
            _ => {},
        }
        if let ServeEvent::SinkClosed = event {
            self.state = ServeState::Finished;
            let r = ServeStep {
                reports: Vec::new(),
                command: ServeCommand::Return(Err(ServeError::SinkClosed)),
            };
            assert(r@.reports =~= Seq::empty());
            return r;
        }
        match (self.state, event) {
            (ServeState::Created, ServeEvent::Launched) => {
                self.state = ServeState::Binding;
                let address = Self::address(self.config.host.as_str(), self.config.port);
                let r = ServeStep { reports: Vec::new(), command: ServeCommand::Bind { address } };
                assert(r@.reports =~= Seq::empty());
                r
            },
            (ServeState::Binding, ServeEvent::Bound(port)) => {
                let reports = self.bound_reports(port, timestamp);
                let format = self.config.file_format.extension();
                let page = PreviewHtmlContents::new(
                    self.config.server_ip.as_str(),
                    port,
                    format,
                    self.config.interval,
                );
                let observed = ObservedFileName::new(format);
                self.state = ServeState::Serving;
                self.bound_port = Some(port);
                ServeStep { reports, command: ServeCommand::Serve { page, observed } }
            },
            (ServeState::Binding, ServeEvent::BindFailed(why)) => self.fail(
                ServeError::Bind(why),
                timestamp,
            ),
            (ServeState::Serving, ServeEvent::Cancelled) => {
                self.state = ServeState::Stopping;
                let r = ServeStep {
                    reports: Vec::new(),
                    command: ServeCommand::Shutdown { graceful: true },
                };
                assert(r@.reports =~= Seq::empty());
                r
            },
            (ServeState::Serving, ServeEvent::SignalLost) => self.fail(
                ServeError::SignalLost,
                timestamp,
            ),
            (ServeState::Serving, ServeEvent::ServerExited) => self.fail(
                ServeError::Ended,
                timestamp,
            ),
            (ServeState::Stopping, ServeEvent::ServerExited) => self.stop(timestamp),
            (ServeState::Serving, ServeEvent::ServerFailed(why)) => self.fail(
                ServeError::Server(why),
                timestamp,
            ),
            (ServeState::Stopping, ServeEvent::ServerFailed(why)) => self.fail(
                ServeError::Server(why),
                timestamp,
            ),
            _ => self.fail(ServeError::OutOfTurn, timestamp),
        }
    }

    /// Takes one step on `event` and stamps its reports with the local time
    /// of the call. The step is the one that `step` takes with a timestamp
    /// laid out as `TIMESTAMP_PATTERN` says; which time it tells depends on
    /// the clock.
    pub fn step_now(&mut self, event: ServeEvent) -> (r: ServeStep)
        ensures
            exists|stamp: Seq<char>|
                is_timestamp(stamp) && (final(self)@, r@) == old(self)@.step(event@, stamp),
    {
        let now = timestamp();
        self.step(event, now.as_str())
    }
}

/// A loop with its first step, or the message of the validator that
/// rejected its configuration, with strings as sequences.
pub open spec fn launch_view(r: Result<(ServeLoop, ServeStep), String>) -> Result<
    (ServeLoopView, ServeStepView),
    Seq<char>,
> {
    match r {
        Ok((m, step)) => Ok((m@, step@)),
        Err(e) => Err(e@),
    }
}

/// What starting the serving loop on raw fields comes to: the validator's
/// message if a field is rejected, and else the launched loop with its
/// first step, which asks for the address to be bound.
pub open spec fn server_started(
    server_ip: Seq<char>,
    host: Seq<char>,
    port: u16,
    file_format: Seq<char>,
    interval: u16,
    has_sink: bool,
    timestamp: Seq<char>,
) -> Result<(ServeLoopView, ServeStepView), Seq<char>> {
    match serve_config_checked(server_ip, host, port, file_format, interval) {
        Err(e) => Err(e),
        Ok(config) => Ok(
            (ServeLoopView { config, has_sink, state: ServeState::Created, bound_port: None }).step(
                ServeEventView::Launched,
                timestamp,
            ),
        ),
    }
}

/// Starts the serving loop: validates the fields, makes the loop and takes
/// its first step. A rejected field starts nothing: no loop is made and no
/// command given.
pub fn start_server(
    server_ip: &str,
    host: &str,
    port: u16,
    file_format: &str,
    interval: u16,
    has_sink: bool,
    timestamp: &str,
) -> (r: Result<(ServeLoop, ServeStep), String>)
    ensures
        launch_view(r) == server_started(
            server_ip@,
            host@,
            port,
            file_format@,
            interval,
            has_sink,
            timestamp@,
        ),
{
    let config = match ServeConfig::new(server_ip, host, port, file_format, interval) {
        Ok(c) => c,
        Err(e) => {
            return Err(e);
        },
    };
    let mut machine = ServeLoop::new(config, has_sink);
    let step = machine.step(ServeEvent::Launched, timestamp);
    Ok((machine, step))
}

} // verus!
