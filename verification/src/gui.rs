//! What the interactive front-end decides: which values a start request is
//! made of, and what its status log holds.

use crate::event::{EventSink, StatusEvent, StatusEventView};
use crate::observer::{capture_config_view, capture_form_checked, CaptureConfig};
use crate::server::{serve_config_view, serve_form_checked, ServeConfig};
use crate::settings::{texts, Settings, SettingsView};
use vstd::prelude::*;
use vstd::string::StringExecFns;
use vstd::utf8::encode_utf8;

verus! {

/// Bytes of text beyond which the status log starts afresh.
pub const STATUS_LOG_LIMIT: usize = 65536;

/// What ends each message in the status log.
pub const STATUS_SEPARATOR: &'static str = "\n---\n";

/// The status log after a message has come in. While log and message
/// together are within the limit, counted in bytes of UTF-8, the message is
/// added with a separator behind it; beyond the limit the message alone is
/// what is left.
pub open spec fn appended(log: Seq<char>, msg: Seq<char>) -> Seq<char> {
    if encode_utf8(log).len() + encode_utf8(msg).len() > STATUS_LOG_LIMIT {
        msg
    } else {
        log + msg + STATUS_SEPARATOR@
    }
}

/// The text of the status and error messages that the front-end shows.
#[derive(Debug)]
pub struct StatusLog {
    text: String,
}

impl View for StatusLog {
    type V = Seq<char>;

    closed spec fn view(&self) -> Seq<char> {
        self.text@
    }
}

impl StatusLog {
    /// An empty log.
    pub fn new() -> (r: StatusLog)
        ensures
            r@ == Seq::<char>::empty(),
    {
        StatusLog { text: String::new() }
    }

    /// What the log holds.
    pub fn text(&self) -> (r: &str)
        ensures
            r@ == self@,
    {
        self.text.as_str()
    }

    /// Takes a message into the log.
    pub fn append_status_msg(&mut self, msg: String)
        ensures
            final(self)@ == appended(old(self)@, msg@),
    {
        let held = self.text.as_str().as_bytes().len();
        let coming = msg.as_str().as_bytes().len();
        if held > STATUS_LOG_LIMIT || coming > STATUS_LOG_LIMIT - held {
            self.text = msg;
        } else {
            self.text.append(msg.as_str());
            self.text.append(STATUS_SEPARATOR);
        }
    }
}

impl EventSink for StatusLog {
    /// The log after it has taken the line of the event.
    open spec fn taken(sink: Seq<char>, event: StatusEventView) -> Seq<char> {
        appended(sink, event.line())
    }

    /// Takes the line of an event into the log.
    fn emit(&mut self, event: &StatusEvent) {
        self.append_status_msg(event.line());
    }
}

/// The values of the form that starts the capture loop: capture target,
/// URL and image format, and the interval. With loaded settings they come
/// from the settings, else from what was typed.
pub open spec fn capture_form(
    loaded: Option<SettingsView>,
    typed: Seq<Seq<char>>,
    interval: u16,
) -> (Seq<Seq<char>>, u16) {
    match loaded {
        Some(s) => (seq![s.target_browser, s.url, s.file_format], s.interval),
        None => (typed, interval),
    }
}

/// The values of the form that starts the serving loop: advertised
/// address, bind host and image format, then port and interval. With loaded
/// settings they come from the settings, else from what was typed.
pub open spec fn serve_form(
    loaded: Option<SettingsView>,
    typed: Seq<Seq<char>>,
    port: u16,
    interval: u16,
) -> (Seq<Seq<char>>, u16, u16) {
    match loaded {
        Some(s) => (seq![s.server_ip, s.host, s.file_format], s.port, s.interval),
        None => (typed, port, interval),
    }
}

/// The settings of an optional reference, with strings as sequences.
pub open spec fn optional_settings(loaded: Option<&Settings>) -> Option<SettingsView> {
    match loaded {
        Some(s) => Some(s@),
        None => None,
    }
}

/// Makes the configuration of a capture loop that the front-end is asked
/// to start. `loaded` holds the settings of the configuration file when the
/// front-end is set to use them; `typed` holds capture target, URL and
/// image format as typed. The form is answered as `parse_config_gui_mode`
/// says; a rejected form starts nothing.
pub fn observer_request(loaded: Option<&Settings>, typed: [String; 3], interval: u16) -> (r:
    Result<CaptureConfig, String>)
    ensures
        ({
            let (values, minutes) = capture_form(
                optional_settings(loaded),
                texts(typed@),
                interval,
            );
            capture_config_view(r) == capture_form_checked(values, minutes, loaded is Some)
        }),
{
    match loaded {
        Some(s) => {
            let values = [s.target_browser.clone(), s.url.clone(), s.file_format.clone()];
            assert(texts(values@) =~= seq![s@.target_browser, s@.url, s@.file_format]);
            CaptureConfig::from_form(values, s.interval, true)
        },
        None => CaptureConfig::from_form(typed, interval, false),
    }
}

/// Makes the configuration of a serving loop that the front-end is asked
/// to start. `loaded` holds the settings of the configuration file when the
/// front-end is set to use them; `typed` holds advertised address, bind
/// host and image format as typed. The form is answered as
/// `parse_config_gui_mode` says; a rejected form starts nothing.
pub fn server_request(loaded: Option<&Settings>, typed: [String; 3], port: u16, interval: u16)
    -> (r: Result<ServeConfig, String>)
    ensures
        ({
            let (values, number, minutes) = serve_form(
                optional_settings(loaded),
                texts(typed@),
                port,
                interval,
            );
            serve_config_view(r) == serve_form_checked(values, number, minutes, loaded is Some)
        }),
{
    match loaded {
        Some(s) => {
            let values = [s.server_ip.clone(), s.host.clone(), s.file_format.clone()];
            assert(texts(values@) =~= seq![s@.server_ip, s@.host, s@.file_format]);
            ServeConfig::from_form(values, s.port, s.interval, true)
        },
        None => ServeConfig::from_form(typed, port, interval, false),
    }
}

} // verus!
