//! The capture side: what to capture, how, and where the image goes.

use crate::clock::{is_timestamp, timestamp};
use crate::event::{
    report_views, EventKind, LoopKind, Report, ReportView, StatusEvent, StatusEventView,
    STAMP_SEPARATOR,
};
use crate::settings::{
    fields_checked, gui_mode_checked, has_web_scheme, is_file_format, is_target_browser,
    lemma_fields_checked, parse_config_gui_mode, parse_file_format, parse_target_browser,
    parse_url, texts, url_is_valid, Field,
};
use crate::text::{decimal, join, same_text, u64_to_string};
use vstd::prelude::*;
use vstd::string::StringExecFns;

verus! {

/// The browsers that can take a capture.
#[derive(Clone, Copy, Debug, PartialEq, Eq, Structural)]
pub enum TargetBrowser {
    /// Chromium, driven headless.
    Chromium,
    /// Chrome, driven headless.
    Chrome,
    /// Edge, run as a program; on Windows only.
    Edge,
}

impl TargetBrowser {
    /// The browser that a normalised name stands for.
    pub open spec fn named(s: Seq<char>) -> Option<TargetBrowser> {
        if s == "chromium"@ {
            Some(TargetBrowser::Chromium)
        } else if s == "chrome"@ {
            Some(TargetBrowser::Chrome)
        } else if s == "edge"@ {
            Some(TargetBrowser::Edge)
        } else {
            None
        }
    }

    /// The browser that a normalised name stands for.
    pub fn from_name(s: &str) -> (r: Option<TargetBrowser>)
        ensures
            r == Self::named(s@),
    {
        if same_text(s, "chromium") {
            Some(TargetBrowser::Chromium)
        } else if same_text(s, "chrome") {
            Some(TargetBrowser::Chrome)
        } else if same_text(s, "edge") {
            Some(TargetBrowser::Edge)
        } else {
            None
        }
    }
}

/// The image formats that a capture can be asked in.
#[derive(Clone, Copy, Debug, PartialEq, Eq, Structural)]
pub enum FileFormat {
    /// PNG, with the suffix `png`.
    Png,
    /// JPEG, with the suffix `jpeg`.
    Jpeg,
}

impl FileFormat {
    /// The format that a normalised name stands for.
    pub open spec fn named(s: Seq<char>) -> Option<FileFormat> {
        if s == "png"@ {
            Some(FileFormat::Png)
        } else if s == "jpeg"@ {
            Some(FileFormat::Jpeg)
        } else {
            None
        }
    }

    /// The format that a normalised name stands for.
    pub fn from_name(s: &str) -> (r: Option<FileFormat>)
        ensures
            r == Self::named(s@),
    {
        if same_text(s, "png") {
            Some(FileFormat::Png)
        } else if same_text(s, "jpeg") {
            Some(FileFormat::Jpeg)
        } else {
            None
        }
    }

    /// The suffix of files in this format, which is also its name.
    pub open spec fn spec_extension(self) -> Seq<char> {
        match self {
            FileFormat::Png => "png"@,
            FileFormat::Jpeg => "jpeg"@,
        }
    }

    /// The suffix of files in this format, which is also its name.
    pub fn extension(self) -> (r: &'static str)
        ensures
            r@ == self.spec_extension(),
    {
        match self {
            FileFormat::Png => "png",
            FileFormat::Jpeg => "jpeg",
        }
    }
}

/// What comes before the suffix in the path that captures are written to.
pub const OBSERVED_PATH_STEM: &'static str = "./observed.";

/// The one path that every capture in `format` is written to.
pub open spec fn observed_path(format: FileFormat) -> Seq<char> {
    OBSERVED_PATH_STEM@ + format.spec_extension()
}

/// The one path that every capture in `format` is written to.
pub fn output_path(format: FileFormat) -> (r: String)
    ensures
        r@ == observed_path(format),
{
    join(OBSERVED_PATH_STEM, format.extension())
}

/// What to capture and how often. Made once, before the loop starts, and
/// never changed.
#[derive(Debug, PartialEq, Eq)]
pub struct CaptureConfig {
    target_browser: TargetBrowser,
    url: String,
    file_format: FileFormat,
    interval: u16,
}

/// `CaptureConfig` with its URL as a sequence.
pub ghost struct CaptureConfigView {
    pub target_browser: TargetBrowser,
    pub url: Seq<char>,
    pub file_format: FileFormat,
    /// Minutes between two captures.
    pub interval: u16,
}

impl View for CaptureConfig {
    type V = CaptureConfigView;

    closed spec fn view(&self) -> CaptureConfigView {
        CaptureConfigView {
            target_browser: self.target_browser,
            url: self.url@,
            file_format: self.file_format,
            interval: self.interval,
        }
    }
}

/// A configuration or the message of the validator that rejected it, with
/// strings as sequences.
pub open spec fn capture_config_view(r: Result<CaptureConfig, String>) -> Result<
    CaptureConfigView,
    Seq<char>,
> {
    match r {
        Ok(c) => Ok(c@),
        Err(e) => Err(e@),
    }
}

/// The configuration that three validated fields and an interval make.
pub open spec fn capture_config_of(
    target_browser: Seq<char>,
    url: Seq<char>,
    file_format: Seq<char>,
    interval: u16,
) -> CaptureConfigView
    recommends
        is_target_browser(target_browser),
        is_file_format(file_format),
{
    CaptureConfigView {
        target_browser: TargetBrowser::named(target_browser).unwrap(),
        url,
        file_format: FileFormat::named(file_format).unwrap(),
        interval,
    }
}

/// The fields of a capture configuration, in the order in which they are
/// validated.
pub open spec fn capture_fields() -> Seq<Field> {
    seq![Field::TargetBrowser, Field::Url, Field::FileFormat]
}

/// The configuration that raw fields make: capture target, URL and image
/// format are validated in this order, and the first rejected one decides
/// the message.
pub open spec fn capture_config_checked(
    target_browser: Seq<char>,
    url: Seq<char>,
    file_format: Seq<char>,
    interval: u16,
) -> Result<CaptureConfigView, Seq<char>> {
    let (left, rejected) = fields_checked(
        seq![target_browser, url, file_format],
        capture_fields(),
        0,
    );
    match rejected {
        Some(e) => Err(e),
        None => Ok(capture_config_of(left[0], left[1], left[2], interval)),
    }
}

/// The configuration that a form of the interactive front-end makes, or the
/// message that the form is answered with.
pub open spec fn capture_form_checked(
    values: Seq<Seq<char>>,
    interval: u16,
    config_file_mode: bool,
) -> Result<CaptureConfigView, Seq<char>> {
    let (left, rejected) = gui_mode_checked(values, capture_fields(), true, config_file_mode);
    match rejected {
        Some(e) => Err(e),
        None => Ok(capture_config_of(left[0], left[1], left[2], interval)),
    }
}

impl CaptureConfig {
    /// The URL of a configuration has passed its validator.
    #[verifier::type_invariant]
    spec fn valid(self) -> bool {
        has_web_scheme(self.url@) && url_is_valid(self.url@)
    }

    /// Puts validated fields together.
    fn assemble(target_browser: &str, url: String, file_format: &str, interval: u16) -> (r:
        CaptureConfig)
        requires
            is_target_browser(target_browser@),
            has_web_scheme(url@),
            url_is_valid(url@),
            is_file_format(file_format@),
        ensures
            r@ == capture_config_of(target_browser@, url@, file_format@, interval),
    {
        CaptureConfig {
            target_browser: TargetBrowser::from_name(target_browser).unwrap(),
            url,
            file_format: FileFormat::from_name(file_format).unwrap(),
            interval,
        }
    }

    /// Validates the fields of a capture configuration, in the order capture
    /// target, URL, image format, and makes the configuration. The first
    /// rejected field ends the run with its validator's message. `interval`
    /// is in minutes; 0 asks for captures without a pause.
    pub fn new(target_browser: &str, url: &str, file_format: &str, interval: u16) -> (r: Result<
        CaptureConfig,
        String,
    >)
        ensures
            capture_config_view(r) == capture_config_checked(
                target_browser@,
                url@,
                file_format@,
                interval,
            ),
    {
        proof {
            reveal_with_fuel(fields_checked, 4);
        }
        let browser = match parse_target_browser(target_browser) {
            Ok(b) => b,
            Err(e) => {
                return Err(e);
            },
        };
        let url = match parse_url(url) {
            Ok(u) => u,
            Err(e) => {
                return Err(e);
            },
        };
        let format = match parse_file_format(file_format) {
            Ok(f) => f,
            Err(e) => {
                return Err(e);
            },
        };
        Ok(Self::assemble(browser.as_str(), url, format.as_str(), interval))
    }

    /// Validates a form of the interactive front-end, whose values are
    /// capture target, URL and image format, and makes the configuration.
    /// The form is answered as `parse_config_gui_mode` says.
    pub fn from_form(values: [String; 3], interval: u16, config_file_mode: bool) -> (r: Result<
        CaptureConfig,
        String,
    >)
        ensures
            capture_config_view(r) == capture_form_checked(
                texts(values@),
                interval,
                config_file_mode,
            ),
    {
        let ghost raw = texts(values@);
        let mut values = values;
        let fields = [Field::TargetBrowser, Field::Url, Field::FileFormat];
        match parse_config_gui_mode(&mut values, fields, true, config_file_mode) {
            Ok(()) => {
                proof {
                    lemma_fields_checked(raw, capture_fields(), 0);
                }
                Ok(
                    Self::assemble(
                        values[0].as_str(),
                        values[1].clone(),
                        values[2].as_str(),
                        interval,
                    ),
                )
            },
            Err(e) => Err(e),
        }
    }

    /// The browser that takes the captures.
    pub fn target_browser(&self) -> (r: TargetBrowser)
        ensures
            r == self@.target_browser,
    {
        self.target_browser
    }

    /// The page to capture: a URL with a web scheme that parses.
    pub fn url(&self) -> (r: &str)
        ensures
            r@ == self@.url,
            has_web_scheme(r@),
            url_is_valid(r@),
    {
        proof {
            use_type_invariant(self);
        }
        self.url.as_str()
    }

    /// The image format of the captures.
    pub fn file_format(&self) -> (r: FileFormat)
        ensures
            r == self@.file_format,
    {
        self.file_format
    }

    /// Minutes between two captures.
    pub fn interval(&self) -> (r: u16)
        ensures
            r == self@.interval,
    {
        self.interval
    }
}

/// Why a capture, or the loop around it, has failed.
#[derive(Debug, PartialEq, Eq)]
pub enum CaptureError {
    /// Edge was asked for on a system other than Windows; the text names
    /// the system.
    EdgeUnsupported(String),
    /// The browser ended abnormally while capturing the URL.
    BrowserUnavailable(String),
    /// The browser could not open the URL; the first text says why, the
    /// second is the URL.
    Navigation(String, String),
    /// Any other failure of the browser or of writing the image, in its own
    /// words.
    Operation(String),
    /// The working directory could not be read.
    WorkingDirectory,
    /// Edge ran and reported failure for the URL.
    EdgeFailed(String),
    /// A report could not be delivered: the front-end is gone.
    SinkClosed,
    /// The cancellation signal can no longer arrive: its sender is gone.
    SignalLost,
    /// The loop was handed an event that its state does not expect.
    OutOfTurn,
}

/// `CaptureError` with its strings as sequences.
pub ghost enum CaptureErrorView {
    EdgeUnsupported(Seq<char>),
    BrowserUnavailable(Seq<char>),
    Navigation(Seq<char>, Seq<char>),
    Operation(Seq<char>),
    WorkingDirectory,
    EdgeFailed(Seq<char>),
    SinkClosed,
    SignalLost,
    OutOfTurn,
}

impl View for CaptureError {
    type V = CaptureErrorView;

    open spec fn view(&self) -> CaptureErrorView {
        match self {
            CaptureError::EdgeUnsupported(os) => CaptureErrorView::EdgeUnsupported(os@),
            CaptureError::BrowserUnavailable(url) => CaptureErrorView::BrowserUnavailable(url@),
            CaptureError::Navigation(why, url) => CaptureErrorView::Navigation(why@, url@),
            CaptureError::Operation(why) => CaptureErrorView::Operation(why@),
            CaptureError::WorkingDirectory => CaptureErrorView::WorkingDirectory,
            CaptureError::EdgeFailed(url) => CaptureErrorView::EdgeFailed(url@),
            CaptureError::SinkClosed => CaptureErrorView::SinkClosed,
            CaptureError::SignalLost => CaptureErrorView::SignalLost,
            CaptureError::OutOfTurn => CaptureErrorView::OutOfTurn,
        }
    }
}

/// Message for Edge on another system than Windows, up to the name of the
/// system.
pub const EDGE_UNSUPPORTED_ERROR: &'static str =
    "Error: Edge target only supported on Windows.\nOS detected: ";

/// How the message for a browser that ended abnormally begins, up to the
/// URL.
pub const CAPTURE_OF: &'static str = "Error: Capture of ";

/// How the message for a browser that ended abnormally goes on behind the
/// URL.
pub const BROWSER_UNAVAILABLE_HINT: &'static str =
    " failed.\nMake sure chrome or chromium is installed";

/// What stands between the reason and the URL in the message for a page
/// that could not be opened.
pub const NAVIGATION_CAPTURE_OF: &'static str = "\nCapture of ";

/// How the message for a page that could not be opened ends.
pub const NAVIGATION_FAILED: &'static str = " failed";

/// Message for a working directory that could not be read.
pub const WORKING_DIRECTORY_ERROR: &'static str = "Error: Reading current directory";

/// Message for a capture that Edge reported as failed, up to the URL.
pub const EDGE_FAILED_ERROR: &'static str = "Error: Failed to capture ";

/// Message for a front-end that is gone.
pub const OBSERVER_SINK_ERROR: &'static str =
    "Error: Sending Observer message through mpsc channel";

/// Message for a cancellation signal whose sender is gone.
pub const OBSERVER_SIGNAL_ERROR: &'static str =
    "Error: Receiving shutdown message through crossbeam channel";

/// Message for an event that the loop did not expect.
pub const OBSERVER_TURN_ERROR: &'static str = "Error: Observer event out of turn";

impl CaptureErrorView {
    /// The text shown to the user.
    pub open spec fn message(self) -> Seq<char> {
        match self {
            CaptureErrorView::EdgeUnsupported(os) => EDGE_UNSUPPORTED_ERROR@ + os,
            CaptureErrorView::BrowserUnavailable(url) => CAPTURE_OF@ + url
                + BROWSER_UNAVAILABLE_HINT@,
            CaptureErrorView::Navigation(why, url) => why + NAVIGATION_CAPTURE_OF@ + url
                + NAVIGATION_FAILED@,
            CaptureErrorView::Operation(why) => why,
            CaptureErrorView::WorkingDirectory => WORKING_DIRECTORY_ERROR@,
            CaptureErrorView::EdgeFailed(url) => EDGE_FAILED_ERROR@ + url,
            CaptureErrorView::SinkClosed => OBSERVER_SINK_ERROR@,
            CaptureErrorView::SignalLost => OBSERVER_SIGNAL_ERROR@,
            CaptureErrorView::OutOfTurn => OBSERVER_TURN_ERROR@,
        }
    }
}

impl CaptureError {
    /// The text shown to the user.
    pub fn message(&self) -> (r: String)
        ensures
            r@ == self@.message(),
    {
        match self {
            CaptureError::EdgeUnsupported(os) => join(EDGE_UNSUPPORTED_ERROR, os.as_str()),
            CaptureError::BrowserUnavailable(url) => {
                let head = join(CAPTURE_OF, url.as_str());
                join(head.as_str(), BROWSER_UNAVAILABLE_HINT)
            },
            CaptureError::Navigation(why, url) => {
                let head = join(why.as_str(), NAVIGATION_CAPTURE_OF);
                let body = join(head.as_str(), url.as_str());
                join(body.as_str(), NAVIGATION_FAILED)
            },
            CaptureError::Operation(why) => why.clone(),
            CaptureError::WorkingDirectory => WORKING_DIRECTORY_ERROR.to_owned(),
            CaptureError::EdgeFailed(url) => join(EDGE_FAILED_ERROR, url.as_str()),
            CaptureError::SinkClosed => OBSERVER_SINK_ERROR.to_owned(),
            CaptureError::SignalLost => OBSERVER_SIGNAL_ERROR.to_owned(),
            CaptureError::OutOfTurn => OBSERVER_TURN_ERROR.to_owned(),
        }
    }
}

/// Width of the browser window that is captured, in pixels.
pub const VIEWPORT_WIDTH: u32 = 1920;

/// Height of the browser window that is captured, in pixels.
pub const VIEWPORT_HEIGHT: u32 = 1080;

/// Quality at which a screenshot is encoded, in percent.
pub const SCREENSHOT_QUALITY: u32 = 100;

/// The system on which Edge can take captures, as the standard library
/// names it.
pub const EDGE_SYSTEM: &'static str = "windows";

/// Where Edge is installed.
pub const EDGE_PROGRAM: &'static str =
    "C:\\Program Files (x86)\\Microsoft\\Edge\\Application\\msedge";

/// One capture, ready to be carried out.
#[derive(Debug, PartialEq, Eq)]
pub enum CapturePlan {
    /// Open the URL in a tab of a headless browser of the Chromium family,
    /// wait until it has loaded, take a screenshot and write it to the path.
    Headless {
        url: String,
        width: u32,
        height: u32,
        format: FileFormat,
        quality: u32,
        path: String,
    },
    /// Run Edge with the arguments that `edge_arguments` makes of URL and
    /// path.
    Edge { url: String, path: String },
}

/// `CapturePlan` with its strings as sequences.
pub ghost enum CapturePlanView {
    Headless {
        url: Seq<char>,
        width: u32,
        height: u32,
        format: FileFormat,
        quality: u32,
        path: Seq<char>,
    },
    Edge { url: Seq<char>, path: Seq<char> },
}

impl View for CapturePlan {
    type V = CapturePlanView;

    open spec fn view(&self) -> CapturePlanView {
        match self {
            CapturePlan::Headless { url, width, height, format, quality, path } => {
                CapturePlanView::Headless {
                    url: url@,
                    width: *width,
                    height: *height,
                    format: *format,
                    quality: *quality,
                    path: path@,
                }
            },
            CapturePlan::Edge { url, path } => CapturePlanView::Edge { url: url@, path: path@ },
        }
    }
}

impl CapturePlanView {
    /// Where the capture is written.
    pub open spec fn path(self) -> Seq<char> {
        match self {
            CapturePlanView::Headless { path, .. } => path,
            CapturePlanView::Edge { path, .. } => path,
        }
    }

    /// The page that is captured.
    pub open spec fn url(self) -> Seq<char> {
        match self {
            CapturePlanView::Headless { url, .. } => url,
            CapturePlanView::Edge { url, .. } => url,
        }
    }
}

/// The plan for a headless capture of `config`.
pub open spec fn headless_plan(config: CaptureConfigView) -> CapturePlanView {
    CapturePlanView::Headless {
        url: config.url,
        width: VIEWPORT_WIDTH,
        height: VIEWPORT_HEIGHT,
        format: config.file_format,
        quality: SCREENSHOT_QUALITY,
        path: observed_path(config.file_format),
    }
}

/// How a capture of `config` is carried out on the system `os`, or why it
/// cannot be. Chromium and Chrome are driven headless; Edge is run as a
/// program, on Windows only. Whatever the plan, the image goes to
/// `observed_path(config.file_format)`.
pub open spec fn capture_planned(config: CaptureConfigView, os: Seq<char>) -> Result<
    CapturePlanView,
    CaptureErrorView,
> {
    match config.target_browser {
        TargetBrowser::Edge => {
            if os == EDGE_SYSTEM@ {
                Ok(
                    CapturePlanView::Edge {
                        url: config.url,
                        path: observed_path(config.file_format),
                    },
                )
            } else {
                Err(CaptureErrorView::EdgeUnsupported(os))
            }
        },
        _ => Ok(headless_plan(config)),
    }
}

/// A plan or the reason why there is none, with strings as sequences.
pub open spec fn plan_view(r: Result<CapturePlan, CaptureError>) -> Result<
    CapturePlanView,
    CaptureErrorView,
> {
    match r {
        Ok(p) => Ok(p@),
        Err(e) => Err(e@),
    }
}

/// Decides how a capture of `config` is carried out on the system `os`
/// (the name that the standard library gives the system).
pub fn plan_capture(config: &CaptureConfig, os: &str) -> (r: Result<CapturePlan, CaptureError>)
    ensures
        plan_view(r) == capture_planned(config@, os@),
{
    match config.target_browser {
        TargetBrowser::Edge => {
            if same_text(os, EDGE_SYSTEM) {
                Ok(
                    CapturePlan::Edge {
                        url: config.url.clone(),
                        path: output_path(config.file_format),
                    },
                )
            } else {
                Err(CaptureError::EdgeUnsupported(os.to_owned()))
            }
        },
        _ => Ok(
            CapturePlan::Headless {
                url: config.url.clone(),
                width: VIEWPORT_WIDTH,
                height: VIEWPORT_HEIGHT,
                format: config.file_format,
                quality: SCREENSHOT_QUALITY,
                path: output_path(config.file_format),
            },
        ),
    }
}

/// Tells Edge to run without a window.
pub const EDGE_HEADLESS: &'static str = "--headless";

/// Tells Edge to render without the graphics processor.
pub const EDGE_NO_GPU: &'static str = "--disable-gpu";

/// Tells Edge the size of the page to capture, the same as `VIEWPORT_WIDTH`
/// by `VIEWPORT_HEIGHT`.
pub const EDGE_WINDOW_SIZE: &'static str = "--window-size=1920,1080";

/// Tells Edge where to write the screenshot; the path follows.
pub const EDGE_SCREENSHOT: &'static str = "--screenshot=";

/// The arguments of an Edge capture: headless, without GPU, in a window of
/// the capture size, writing the screenshot to `path` as seen from the
/// working directory `cwd`, and the URL last.
pub open spec fn edge_arguments_of(cwd: Seq<char>, path: Seq<char>, url: Seq<char>) -> Seq<
    Seq<char>,
> {
    seq![
        EDGE_HEADLESS@,
        EDGE_NO_GPU@,
        EDGE_WINDOW_SIZE@,
        EDGE_SCREENSHOT@ + cwd + path,
        url,
    ]
}

/// Makes the arguments with which Edge is run for a capture.
pub fn edge_arguments(cwd: &str, path: &str, url: &str) -> (r: Vec<String>)
    ensures
        texts(r@) == edge_arguments_of(cwd@, path@, url@),
{
    let target = join(EDGE_SCREENSHOT, cwd);
    let screenshot = join(target.as_str(), path);
    let mut r: Vec<String> = Vec::new();
    r.push(EDGE_HEADLESS.to_owned());
    r.push(EDGE_NO_GPU.to_owned());
    r.push(EDGE_WINDOW_SIZE.to_owned());
    r.push(screenshot);
    r.push(url.to_owned());
    r
}

/// Where a capture loop stands.
#[derive(Clone, Copy, Debug, PartialEq, Eq, Structural)]
pub enum CaptureState {
    /// Made, not yet launched.
    Created,
    /// A capture has been asked for and its outcome is awaited.
    Capturing,
    /// The pause between two captures; the one point at which the loop can
    /// be cancelled.
    Waiting,
    /// The loop has returned.
    Finished,
}

/// What happened outside the loop since its last command.
#[derive(Debug, PartialEq, Eq)]
pub enum CaptureEvent {
    /// The loop is to begin.
    Launched,
    /// The capture was taken and written to its path.
    Captured,
    /// The capture failed.
    CaptureFailed(CaptureError),
    /// The pause went by without a cancellation.
    WaitElapsed,
    /// The cancellation signal arrived during the pause.
    Cancelled,
    /// The pause ended because the sender of the cancellation signal is
    /// gone.
    SignalLost,
    /// A report of the previous step could not be delivered.
    SinkClosed,
}

/// `CaptureEvent` with its strings as sequences.
pub ghost enum CaptureEventView {
    Launched,
    Captured,
    CaptureFailed(CaptureErrorView),
    WaitElapsed,
    Cancelled,
    SignalLost,
    SinkClosed,
}

impl View for CaptureEvent {
    type V = CaptureEventView;

    open spec fn view(&self) -> CaptureEventView {
        match self {
            CaptureEvent::Launched => CaptureEventView::Launched,
            CaptureEvent::Captured => CaptureEventView::Captured,
            CaptureEvent::CaptureFailed(e) => CaptureEventView::CaptureFailed(e@),
            CaptureEvent::WaitElapsed => CaptureEventView::WaitElapsed,
            CaptureEvent::Cancelled => CaptureEventView::Cancelled,
            CaptureEvent::SignalLost => CaptureEventView::SignalLost,
            CaptureEvent::SinkClosed => CaptureEventView::SinkClosed,
        }
    }
}

/// What the loop asks to be done next.
#[derive(Debug, PartialEq, Eq)]
pub enum CaptureCommand {
    /// Carry out the plan, then hand back `Captured` or `CaptureFailed`.
    Capture(CapturePlan),
    /// Wait for the cancellation signal for so many seconds, then hand back
    /// `WaitElapsed`, `Cancelled` or `SignalLost`.
    Wait { seconds: u64 },
    /// The loop is over; this is what it returns.
    Return(Result<(), CaptureError>),
}

/// `CaptureCommand` with its strings as sequences.
pub ghost enum CaptureCommandView {
    Capture(CapturePlanView),
    Wait { seconds: u64 },
    Return(Result<(), CaptureErrorView>),
}

impl View for CaptureCommand {
    type V = CaptureCommandView;

    open spec fn view(&self) -> CaptureCommandView {
        match self {
            CaptureCommand::Capture(plan) => CaptureCommandView::Capture(plan@),
            CaptureCommand::Wait { seconds } => CaptureCommandView::Wait { seconds: *seconds },
            CaptureCommand::Return(Ok(_)) => CaptureCommandView::Return(Ok(())),
            CaptureCommand::Return(Err(e)) => CaptureCommandView::Return(Err(e@)),
        }
    }
}

/// One step of the loop: what to tell the front-end, in this order, and
/// what to do next.
#[derive(Debug, PartialEq, Eq)]
pub struct CaptureStep {
    pub reports: Vec<Report>,
    pub command: CaptureCommand,
}

/// `CaptureStep` with its strings as sequences.
pub ghost struct CaptureStepView {
    pub reports: Seq<ReportView>,
    pub command: CaptureCommandView,
}

impl View for CaptureStep {
    type V = CaptureStepView;

    open spec fn view(&self) -> CaptureStepView {
        CaptureStepView { reports: report_views(self.reports@), command: self.command@ }
    }
}

/// The capture loop as a state machine. The caller carries out each command
/// and hands back what happened.
#[derive(Debug)]
pub struct CaptureLoop {
    config: CaptureConfig,
    quiet: bool,
    has_sink: bool,
    os: String,
    state: CaptureState,
}

/// `CaptureLoop` with its strings as sequences.
pub ghost struct CaptureLoopView {
    pub config: CaptureConfigView,
    /// Saved captures are not reported.
    pub quiet: bool,
    /// Reports are events for a sink, not lines for standard output.
    pub has_sink: bool,
    /// The system that the loop runs on, as the standard library names it.
    pub os: Seq<char>,
    pub state: CaptureState,
}

impl View for CaptureLoop {
    type V = CaptureLoopView;

    closed spec fn view(&self) -> CaptureLoopView {
        CaptureLoopView {
            config: self.config@,
            quiet: self.quiet,
            has_sink: self.has_sink,
            os: self.os@,
            state: self.state,
        }
    }
}

/// Seconds in a minute.
pub const SECONDS_PER_MINUTE: u64 = 60;

/// What follows the timestamp in the lines that announce the loop on
/// standard output, up to the URL.
pub const BANNER_STARTED: &'static str = " | Observer started\nURL: ";

/// What announces the image format.
pub const BANNER_FORMAT: &'static str = "\nFile Format: ";

/// What announces the interval.
pub const BANNER_INTERVAL: &'static str = "\nBrowser Capture Interval: ";

/// The unit of the interval.
pub const BANNER_MINUTE: &'static str = " minute";

/// What makes the unit plural.
pub const BANNER_PLURAL: &'static str = "s";

/// How the line for a saved capture ends on standard output.
pub const SAVED_SUFFIX: &'static str = " saved";

/// The lines that announce the loop on standard output: time, URL, image
/// format and the interval in minutes, `minute` in the singular for 1 only.
pub open spec fn console_banner(config: CaptureConfigView, timestamp: Seq<char>) -> Seq<char> {
    timestamp + BANNER_STARTED@ + config.url + BANNER_FORMAT@
        + config.file_format.spec_extension() + BANNER_INTERVAL@ + decimal(config.interval as nat)
        + BANNER_MINUTE@ + (if config.interval == 1 {
        Seq::<char>::empty()
    } else {
        BANNER_PLURAL@
    })
}

/// The event for a capture that was written to `path`.
pub open spec fn saved_event(path: Seq<char>, timestamp: Seq<char>) -> StatusEventView {
    StatusEventView {
        kind: EventKind::CaptureSaved,
        source: LoopKind::Observer,
        text: path,
        timestamp,
    }
}

impl CaptureLoopView {
    /// The same loop in another state.
    pub open spec fn at(self, state: CaptureState) -> CaptureLoopView {
        CaptureLoopView { state, ..self }
    }

    /// Where every capture of this loop is written.
    pub open spec fn path(self) -> Seq<char> {
        observed_path(self.config.file_format)
    }

    /// Seconds that the loop pauses between two captures.
    pub open spec fn pause(self) -> u64 {
        (self.config.interval * SECONDS_PER_MINUTE) as u64
    }

    /// The report that the loop has begun.
    pub open spec fn started_report(self, timestamp: Seq<char>) -> ReportView {
        if self.has_sink {
            ReportView::Event(StatusEventView::started(LoopKind::Observer, timestamp))
        } else {
            ReportView::Print(console_banner(self.config, timestamp))
        }
    }

    /// The report that a capture was saved.
    pub open spec fn saved_report(self, timestamp: Seq<char>) -> ReportView {
        if self.has_sink {
            ReportView::Event(saved_event(self.path(), timestamp))
        } else {
            ReportView::Print(timestamp + STAMP_SEPARATOR@ + self.path() + SAVED_SUFFIX@)
        }
    }

    /// The report that the loop was stopped.
    pub open spec fn stopped_report(self, timestamp: Seq<char>) -> ReportView {
        if self.has_sink {
            ReportView::Event(StatusEventView::stopped(LoopKind::Observer, timestamp))
        } else {
            ReportView::Print(StatusEventView::stopped(LoopKind::Observer, timestamp).line())
        }
    }

    /// The reports of an error that ends the loop: an event for the sink;
    /// without a sink nothing, since the error is what the loop returns.
    pub open spec fn failure_reports(self, error: CaptureErrorView, timestamp: Seq<char>) -> Seq<
        ReportView,
    > {
        if self.has_sink {
            seq![
                ReportView::Event(
                    StatusEventView::failed(LoopKind::Observer, error.message(), timestamp),
                ),
            ]
        } else {
            Seq::empty()
        }
    }

    /// The step that ends the loop on `error`, after the reports `said`.
    pub open spec fn fail(
        self,
        said: Seq<ReportView>,
        error: CaptureErrorView,
        timestamp: Seq<char>,
    ) -> (CaptureLoopView, CaptureStepView) {
        (
            self.at(CaptureState::Finished),
            CaptureStepView {
                reports: said + self.failure_reports(error, timestamp),
                command: CaptureCommandView::Return(Err(error)),
            },
        )
    }

    /// The step that begins a capture, after the reports `said`, or ends
    /// the loop if no capture can be planned.
    pub open spec fn attempt(self, said: Seq<ReportView>, timestamp: Seq<char>) -> (
        CaptureLoopView,
        CaptureStepView,
    ) {
        match capture_planned(self.config, self.os) {
            Ok(plan) => (
                self.at(CaptureState::Capturing),
                CaptureStepView { reports: said, command: CaptureCommandView::Capture(plan) },
            ),
            Err(e) => self.fail(said, e, timestamp),
        }
    }

    /// The step that the loop takes on `event`, and the loop after it.
    ///
    /// A launched loop reports that it has begun and asks for the first
    /// capture. A capture that succeeded is reported, unless the loop is
    /// quiet, and followed by a pause of the configured interval. When the
    /// pause has elapsed the next capture is asked for; a cancellation during
    /// the pause is reported and ends the loop with success. A failed
    /// capture, a lost cancellation signal and an event out of turn each end
    /// the loop with an error, which is reported to the sink. When the sink
    /// is closed the loop ends with that error and reports nothing. A
    /// finished loop stays finished.
    pub open spec fn step(self, event: CaptureEventView, timestamp: Seq<char>) -> (
        CaptureLoopView,
        CaptureStepView,
    ) {
        match (self.state, event) {
            (CaptureState::Finished, _) => (
                self,
                CaptureStepView {
                    reports: Seq::empty(),
                    command: CaptureCommandView::Return(Err(CaptureErrorView::OutOfTurn)),
                },
            ),
            (_, CaptureEventView::SinkClosed) => (
                self.at(CaptureState::Finished),
                CaptureStepView {
                    reports: Seq::empty(),
                    command: CaptureCommandView::Return(Err(CaptureErrorView::SinkClosed)),
                },
            ),
            (CaptureState::Created, CaptureEventView::Launched) => self.attempt(
                seq![self.started_report(timestamp)],
                timestamp,
            ),
            (CaptureState::Capturing, CaptureEventView::Captured) => (
                self.at(CaptureState::Waiting),
                CaptureStepView {
                    reports: if self.quiet {
                        Seq::empty()
                    } else {
                        seq![self.saved_report(timestamp)]
                    },
                    command: CaptureCommandView::Wait { seconds: self.pause() },
                },
            ),
            (CaptureState::Capturing, CaptureEventView::CaptureFailed(e)) => self.fail(
                Seq::empty(),
                e,
                timestamp,
            ),
            (CaptureState::Waiting, CaptureEventView::WaitElapsed) => self.attempt(
                Seq::empty(),
                timestamp,
            ),
            (CaptureState::Waiting, CaptureEventView::Cancelled) => (
                self.at(CaptureState::Finished),
                CaptureStepView {
                    reports: seq![self.stopped_report(timestamp)],
                    command: CaptureCommandView::Return(Ok(())),
                },
            ),
            (CaptureState::Waiting, CaptureEventView::SignalLost) => self.fail(
                Seq::empty(),
                CaptureErrorView::SignalLost,
                timestamp,
            ),
            _ => self.fail(Seq::empty(), CaptureErrorView::OutOfTurn, timestamp),
        }
    }
}

impl CaptureLoop {
    /// Makes a loop that has not begun. `quiet` keeps saved captures from
    /// being reported; `has_sink` says whether reports go to a sink as
    /// events or to standard output as lines; `os` is the name that the
    /// standard library gives the system.
    pub fn new(config: CaptureConfig, quiet: bool, has_sink: bool, os: &str) -> (r: CaptureLoop)
        ensures
            r@ == (CaptureLoopView {
                config: config@,
                quiet,
                has_sink,
                os: os@,
                state: CaptureState::Created,
            }),
    {
        CaptureLoop { config, quiet, has_sink, os: os.to_owned(), state: CaptureState::Created }
    }

    /// Where the loop stands.
    pub fn state(&self) -> (r: CaptureState)
        ensures
            r == self@.state,
    {
        self.state
    }

    /// What the loop captures.
    pub fn config(&self) -> (r: &CaptureConfig)
        ensures
            r@ == self@.config,
    {
        &self.config
    }

    fn started_report(&self, timestamp: &str) -> (r: Report)
        ensures
            r@ == self@.started_report(timestamp@),
    {
        if self.has_sink {
            Report::Event(StatusEvent::started(LoopKind::Observer, timestamp))
        } else {
            let mut line = String::from_str(timestamp);
            line.append(BANNER_STARTED);
            line.append(self.config.url.as_str());
            line.append(BANNER_FORMAT);
            line.append(self.config.file_format.extension());
            line.append(BANNER_INTERVAL);
            let minutes = u64_to_string(self.config.interval as u64);
            line.append(minutes.as_str());
            line.append(BANNER_MINUTE);
            if self.config.interval != 1 {
                line.append(BANNER_PLURAL);
            }
            Report::Print(line)
        }
    }

    fn saved_report(&self, timestamp: &str) -> (r: Report)
        ensures
            r@ == self@.saved_report(timestamp@),
    {
        let path = output_path(self.config.file_format);
        if self.has_sink {
            Report::Event(
                StatusEvent {
                    kind: EventKind::CaptureSaved,
                    source: LoopKind::Observer,
                    text: path,
                    timestamp: timestamp.to_owned(),
                },
            )
        } else {
            let mut line = String::from_str(timestamp);
            line.append(STAMP_SEPARATOR);
            line.append(path.as_str());
            line.append(SAVED_SUFFIX);
            Report::Print(line)
        }
    }

    fn stopped_report(&self, timestamp: &str) -> (r: Report)
        ensures
            r@ == self@.stopped_report(timestamp@),
    {
        let event = StatusEvent::stopped(LoopKind::Observer, timestamp);
        if self.has_sink {
            Report::Event(event)
        } else {
            Report::Print(event.line())
        }
    }

    fn fail(&mut self, said: Vec<Report>, error: CaptureError, timestamp: &str) -> (r: CaptureStep)
        ensures
            (final(self)@, r@) == old(self)@.fail(report_views(said@), error@, timestamp@),
    {
        let mut reports = said;
        if self.has_sink {
            reports.push(
                Report::Event(StatusEvent::failed(LoopKind::Observer, error.message(), timestamp)),
            );
        }
        self.state = CaptureState::Finished;
        let r = CaptureStep { reports, command: CaptureCommand::Return(Err(error)) };
        assert(r@.reports =~= report_views(said@) + old(self)@.failure_reports(
            error@,
            timestamp@,
        ));
        r
    }

    fn attempt(&mut self, said: Vec<Report>, timestamp: &str) -> (r: CaptureStep)
        ensures
            (final(self)@, r@) == old(self)@.attempt(report_views(said@), timestamp@),
    {
        match plan_capture(&self.config, self.os.as_str()) {
            Ok(plan) => {
                self.state = CaptureState::Capturing;
                CaptureStep { reports: said, command: CaptureCommand::Capture(plan) }
            },
            Err(e) => self.fail(said, e, timestamp),
        }
    }

    /// Takes one step on `event`; `timestamp` is the local time that the
    /// reports of this step carry.
    pub fn step(&mut self, event: CaptureEvent, timestamp: &str) -> (r: CaptureStep)
        ensures
            (final(self)@, r@) == old(self)@.step(event@, timestamp@),
    {
        match self.state {
            CaptureState::Finished => {
                let r = CaptureStep {
                    reports: Vec::new(),
                    command: CaptureCommand::Return(Err(CaptureError::OutOfTurn)),
                };
                assert(r@.reports =~= Seq::empty());
                return r;
            },
            _ => {},
        }
        if let CaptureEvent::SinkClosed = event {
            self.state = CaptureState::Finished;
            let r = CaptureStep {
                reports: Vec::new(),
                command: CaptureCommand::Return(Err(CaptureError::SinkClosed)),
            };
            assert(r@.reports =~= Seq::empty());
            return r;
        }
        let mut said: Vec<Report> = Vec::new();
        assert(report_views(said@) =~= Seq::empty());
        match (self.state, event) {
            (CaptureState::Created, CaptureEvent::Launched) => {
                said.push(self.started_report(timestamp));
                assert(report_views(said@) =~= seq![old(self)@.started_report(timestamp@)]);
                self.attempt(said, timestamp)
            },
            (CaptureState::Capturing, CaptureEvent::Captured) => {
                if !self.quiet {
                    said.push(self.saved_report(timestamp));
                    assert(report_views(said@) =~= seq![old(self)@.saved_report(timestamp@)]);
                }
                self.state = CaptureState::Waiting;
                let seconds = self.config.interval as u64 * SECONDS_PER_MINUTE;
                CaptureStep { reports: said, command: CaptureCommand::Wait { seconds } }
            },
            (CaptureState::Capturing, CaptureEvent::CaptureFailed(e)) => self.fail(
                said,
                e,
                timestamp,
            ),
            (CaptureState::Waiting, CaptureEvent::WaitElapsed) => self.attempt(said, timestamp),
            (CaptureState::Waiting, CaptureEvent::Cancelled) => {
                said.push(self.stopped_report(timestamp));
                assert(report_views(said@) =~= seq![old(self)@.stopped_report(timestamp@)]);
                self.state = CaptureState::Finished;
                CaptureStep { reports: said, command: CaptureCommand::Return(Ok(())) }
            },
            (CaptureState::Waiting, CaptureEvent::SignalLost) => self.fail(
                said,
                CaptureError::SignalLost,
                timestamp,
            ),
            _ => self.fail(said, CaptureError::OutOfTurn, timestamp),
        }
    }

    /// Takes one step on `event` and stamps its reports with the local time
    /// of the call. The step is the one that `step` takes with a timestamp
    /// laid out as `TIMESTAMP_PATTERN` says; which time it tells depends on
    /// the clock.
    pub fn step_now(&mut self, event: CaptureEvent) -> (r: CaptureStep)
        ensures
            exists|stamp: Seq<char>|
                is_timestamp(stamp) && (final(self)@, r@) == old(self)@.step(event@, stamp),
    {
        let now = timestamp();
        self.step(event, now.as_str())
    }
}

/// A loop with its first step, or the message of the validator that
/// rejected its configuration, with strings as sequences.
pub open spec fn launch_view(r: Result<(CaptureLoop, CaptureStep), String>) -> Result<
    (CaptureLoopView, CaptureStepView),
    Seq<char>,
> {
    match r {
        Ok((m, step)) => Ok((m@, step@)),
        Err(e) => Err(e@),
    }
}

/// What starting the capture loop on raw fields comes to: the validator's
/// message if a field is rejected, and else the launched loop with its
/// first step.
pub open spec fn observing_started(
    target_browser: Seq<char>,
    url: Seq<char>,
    file_format: Seq<char>,
    interval: u16,
    quiet_flag: bool,
    has_sink: bool,
    os: Seq<char>,
    timestamp: Seq<char>,
) -> Result<(CaptureLoopView, CaptureStepView), Seq<char>> {
    match capture_config_checked(target_browser, url, file_format, interval) {
        Err(e) => Err(e),
        Ok(config) => Ok(
            (CaptureLoopView {
                config,
                quiet: quiet_flag,
                has_sink,
                os,
                state: CaptureState::Created,
            }).step(CaptureEventView::Launched, timestamp),
        ),
    }
}

/// Starts the capture loop: validates the fields, makes the loop and takes
/// its first step. A rejected field starts nothing: no loop is made and no
/// command given.
pub fn start_observing(
    target_browser: &str,
    url: &str,
    file_format: &str,
    interval: u16,
    quiet_flag: bool,
    has_sink: bool,
    os: &str,
    timestamp: &str,
) -> (r: Result<(CaptureLoop, CaptureStep), String>)
    ensures
        launch_view(r) == observing_started(
            target_browser@,
            url@,
            file_format@,
            interval,
            quiet_flag,
            has_sink,
            os@,
            timestamp@,
        ),
{
    let config = match CaptureConfig::new(target_browser, url, file_format, interval) {
        Ok(c) => c,
        Err(e) => {
            return Err(e);
        },
    };
    let mut machine = CaptureLoop::new(config, quiet_flag, has_sink, os);
    let step = machine.step(CaptureEvent::Launched, timestamp);
    Ok((machine, step))
}

} // verus!
