//! The command-line options as plain values, with their defaults.

use vstd::prelude::*;

verus! {

/// Interval between two captures when none is given, in minutes.
pub const DEFAULT_INTERVAL: u16 = 5;

/// Image format when none is given.
pub const DEFAULT_FILE_FORMAT: &'static str = "jpeg";

/// Bind host when none is given: every interface.
pub const DEFAULT_HOST: &'static str = "0.0.0.0";

/// Port when none is given: let the system choose.
pub const DEFAULT_PORT: u16 = 0;

/// Capture target when none is given.
pub const DEFAULT_TARGET_BROWSER: &'static str = "chrome";

/// The options of one invocation, after the validators have normalised the
/// text fields.
#[derive(Debug, PartialEq, Eq)]
pub struct Args {
    /// Page to capture.
    pub url: Option<String>,
    /// Minutes between two captures.
    pub interval: u16,
    /// Image format of the captures.
    pub file_format: String,
    /// Do not report each saved capture.
    pub quiet: bool,
    /// Start the interactive front-end.
    pub gui_mode: bool,
    /// Address the server binds to.
    pub host: String,
    /// Port the server binds to; 0 lets the system choose.
    pub port: u16,
    /// Address under which clients reach the server.
    pub server_ip: Option<String>,
    /// Take the settings from the configuration file.
    pub config_file: bool,
    /// Browser that takes the captures.
    pub target_browser: String,
}

/// `Args` with its strings as sequences.
pub ghost struct ArgsView {
    pub url: Option<Seq<char>>,
    pub interval: u16,
    pub file_format: Seq<char>,
    pub quiet: bool,
    pub gui_mode: bool,
    pub host: Seq<char>,
    pub port: u16,
    pub server_ip: Option<Seq<char>>,
    pub config_file: bool,
    pub target_browser: Seq<char>,
}

/// The characters of an optional string.
pub open spec fn optional_text(s: Option<String>) -> Option<Seq<char>> {
    match s {
        Some(v) => Some(v@),
        None => None,
    }
}

impl View for Args {
    type V = ArgsView;

    open spec fn view(&self) -> ArgsView {
        ArgsView {
            url: optional_text(self.url),
            interval: self.interval,
            file_format: self.file_format@,
            quiet: self.quiet,
            gui_mode: self.gui_mode,
            host: self.host@,
            port: self.port,
            server_ip: optional_text(self.server_ip),
            config_file: self.config_file,
            target_browser: self.target_browser@,
        }
    }
}

impl ArgsView {
    /// The options of an invocation without any argument.
    pub open spec fn defaults() -> ArgsView {
        ArgsView {
            url: None,
            interval: DEFAULT_INTERVAL,
            file_format: DEFAULT_FILE_FORMAT@,
            quiet: false,
            gui_mode: false,
            host: DEFAULT_HOST@,
            port: DEFAULT_PORT,
            server_ip: None,
            config_file: false,
            target_browser: DEFAULT_TARGET_BROWSER@,
        }
    }
}

impl Default for Args {
    /// The options of an invocation without any argument.
    fn default() -> (r: Args)
        ensures
            r@ == ArgsView::defaults(),
    {
        Args {
            url: None,
            interval: DEFAULT_INTERVAL,
            file_format: DEFAULT_FILE_FORMAT.to_owned(),
            quiet: false,
            gui_mode: false,
            host: DEFAULT_HOST.to_owned(),
            port: DEFAULT_PORT,
            server_ip: None,
            config_file: false,
            target_browser: DEFAULT_TARGET_BROWSER.to_owned(),
        }
    }
}

} // verus!
