//! Run settings and the validators of their fields.
//!
//! Every validator first normalises its input (trim, then lower case) and
//! then accepts or rejects the normalised text. The accepting half of each
//! is a function of its own, so that it can be used on text that is already
//! normalised.

use crate::cli::{Args, ArgsView};
use crate::text::{has_prefix, join, normalize, normalized, same_text, starts_with};
use vstd::prelude::*;
use vstd::string::StringExecFns;

verus! {

/// Message for a file format that is not accepted.
pub const FILE_FORMAT_ERROR: &'static str = "file format must either be JPEG or PNG";

/// Message for a capture target that is not accepted.
pub const TARGET_BROWSER_ERROR: &'static str =
    "capture targets available are chromium, chrome and edge";

/// Message for a URL that is not accepted.
pub const URL_ERROR: &'static str =
    "url must follow this format: '[https,http]://some_domain.com'";

/// Message for a bind host that is not accepted.
pub const HOST_ERROR: &'static str =
    "host can either be 127.0.0.1 to serve locally on the host computer\nor 0.0.0.0 to serve on the computer network";

/// Message for an advertised address that is not accepted.
pub const SERVER_IP_ERROR: &'static str = "server IP must be an IPv4 address";

/// Whether `validator::validate_url` accepts `s`, that is whether the `url`
/// crate can parse it.
pub uninterp spec fn url_is_valid(s: Seq<char>) -> bool;

/// Whether `validator::validate_ip_v4` accepts `s`, that is whether the
/// standard library parses it as an IP address and finds it to be IPv4.
pub uninterp spec fn ip_v4_is_valid(s: Seq<char>) -> bool;

/// Calls `validator::validate_url`. The contract names the result
/// `url_is_valid`.
#[verifier::external_body]
fn validate_url(url: &str) -> (r: bool)
    ensures
        r == url_is_valid(url@),
{
    validator::validate_url(url)
}

/// Calls `validator::validate_ip_v4`. The contract names the result
/// `ip_v4_is_valid`.
#[verifier::external_body]
fn validate_ip_v4(ip: &str) -> (r: bool)
    ensures
        r == ip_v4_is_valid(ip@),
{
    validator::validate_ip_v4(ip)
}

/// What a validator returns, with both strings as sequences.
pub open spec fn outcome(r: Result<String, String>) -> Result<Seq<char>, Seq<char>> {
    match r {
        Ok(v) => Ok(v@),
        Err(e) => Err(e@),
    }
}

/// The accepted image formats, in normal form.
pub open spec fn is_file_format(s: Seq<char>) -> bool {
    s == "png"@ || s == "jpeg"@
}

/// The accepted capture targets, in normal form.
pub open spec fn is_target_browser(s: Seq<char>) -> bool {
    s == "chromium"@ || s == "chrome"@ || s == "edge"@
}

/// The accepted bind hosts, in normal form.
pub open spec fn is_host(s: Seq<char>) -> bool {
    s == "127.0.0.1"@ || s == "0.0.0.0"@
}

/// Whether `s` begins with one of the two web schemes.
pub open spec fn has_web_scheme(s: Seq<char>) -> bool {
    has_prefix(s, "https://"@) || has_prefix(s, "http://"@)
}

/// The verdict on a normalised file format.
pub open spec fn file_format_checked(s: Seq<char>) -> Result<Seq<char>, Seq<char>> {
    if is_file_format(s) {
        Ok(s)
    } else {
        Err(FILE_FORMAT_ERROR@)
    }
}

/// The verdict on a normalised capture target.
pub open spec fn target_browser_checked(s: Seq<char>) -> Result<Seq<char>, Seq<char>> {
    if is_target_browser(s) {
        Ok(s)
    } else {
        Err(TARGET_BROWSER_ERROR@)
    }
}

/// The verdict on a normalised bind host.
pub open spec fn host_checked(s: Seq<char>) -> Result<Seq<char>, Seq<char>> {
    if is_host(s) {
        Ok(s)
    } else {
        Err(HOST_ERROR@)
    }
}

/// The verdict on a normalised URL, given whether it parses as a URL.
pub open spec fn url_checked(s: Seq<char>, parses: bool) -> Result<Seq<char>, Seq<char>> {
    if has_web_scheme(s) && parses {
        Ok(s)
    } else {
        Err(URL_ERROR@)
    }
}

/// The verdict on a normalised advertised address, given whether it parses
/// as an IPv4 address.
pub open spec fn server_ip_checked(s: Seq<char>, parses: bool) -> Result<Seq<char>, Seq<char>> {
    if parses {
        Ok(s)
    } else {
        Err(SERVER_IP_ERROR@)
    }
}

/// Accepts a normalised file format: `png` or `jpeg`.
pub fn check_file_format(format: String) -> (r: Result<String, String>)
    ensures
        outcome(r) == file_format_checked(format@),
{
    let f = format.as_str();
    if same_text(f, "png") || same_text(f, "jpeg") {
        Ok(format)
    } else {
        Err(FILE_FORMAT_ERROR.to_owned())
    }
}

/// Accepts a normalised capture target: `chromium`, `chrome` or `edge`.
pub fn check_target_browser(target: String) -> (r: Result<String, String>)
    ensures
        outcome(r) == target_browser_checked(target@),
{
    let t = target.as_str();
    if same_text(t, "chromium") || same_text(t, "chrome") || same_text(t, "edge") {
        Ok(target)
    } else {
        Err(TARGET_BROWSER_ERROR.to_owned())
    }
}

/// Accepts a normalised bind host: `127.0.0.1` or `0.0.0.0`.
pub fn check_host(host: String) -> (r: Result<String, String>)
    ensures
        outcome(r) == host_checked(host@),
{
    let h = host.as_str();
    if same_text(h, "127.0.0.1") || same_text(h, "0.0.0.0") {
        Ok(host)
    } else {
        Err(HOST_ERROR.to_owned())
    }
}

/// Accepts a normalised URL that has a web scheme and that the URL parser
/// took (`parses`).
pub fn check_url(url: String, parses: bool) -> (r: Result<String, String>)
    ensures
        outcome(r) == url_checked(url@, parses),
{
    let u = url.as_str();
    if (starts_with(u, "https://") || starts_with(u, "http://")) && parses {
        Ok(url)
    } else {
        Err(URL_ERROR.to_owned())
    }
}

/// Accepts a normalised advertised address that the IPv4 parser took
/// (`parses`).
pub fn check_server_ip(server_ip: String, parses: bool) -> (r: Result<String, String>)
    ensures
        outcome(r) == server_ip_checked(server_ip@, parses),
{
    if parses {
        Ok(server_ip)
    } else {
        Err(SERVER_IP_ERROR.to_owned())
    }
}

/// Normalises and validates an image format.
pub fn parse_file_format(f: &str) -> (r: Result<String, String>)
    ensures
        outcome(r) == file_format_checked(normalized(f@)),
{
    check_file_format(normalize(f))
}

/// Normalises and validates a capture target.
pub fn parse_target_browser(t: &str) -> (r: Result<String, String>)
    ensures
        outcome(r) == target_browser_checked(normalized(t@)),
{
    check_target_browser(normalize(t))
}

/// Normalises and validates a URL: it must begin with `https://` or
/// `http://` and parse as a URL.
pub fn parse_url(u: &str) -> (r: Result<String, String>)
    ensures
        outcome(r) == url_checked(normalized(u@), url_is_valid(normalized(u@))),
{
    let url = normalize(u);
    let parses = validate_url(url.as_str());
    check_url(url, parses)
}

/// Normalises and validates a bind host.
pub fn parse_host(h: &str) -> (r: Result<String, String>)
    ensures
        outcome(r) == host_checked(normalized(h@)),
{
    check_host(normalize(h))
}

/// Normalises and validates the advertised IPv4 address.
pub fn parse_server_ip(i: &str) -> (r: Result<String, String>)
    ensures
        outcome(r) == server_ip_checked(normalized(i@), ip_v4_is_valid(normalized(i@))),
{
    let server_ip = normalize(i);
    let parses = validate_ip_v4(server_ip.as_str());
    check_server_ip(server_ip, parses)
}

/// The kinds of text field that a configuration holds, each with its
/// validator.
#[derive(Clone, Copy, Debug, PartialEq, Eq, Structural)]
pub enum Field {
    /// The address under which clients reach the server.
    ServerIp,
    /// The address the server binds to.
    Host,
    /// The browser that takes the captures.
    TargetBrowser,
    /// The image format of the captures.
    FileFormat,
    /// The page to capture.
    Url,
}

/// The verdict of a field's validator on raw text.
pub open spec fn field_checked(field: Field, s: Seq<char>) -> Result<Seq<char>, Seq<char>> {
    match field {
        Field::ServerIp => server_ip_checked(normalized(s), ip_v4_is_valid(normalized(s))),
        Field::Host => host_checked(normalized(s)),
        Field::TargetBrowser => target_browser_checked(normalized(s)),
        Field::FileFormat => file_format_checked(normalized(s)),
        Field::Url => url_checked(normalized(s), url_is_valid(normalized(s))),
    }
}

/// Runs the validator of `field` on `s`.
pub fn parse_field(field: Field, s: &str) -> (r: Result<String, String>)
    ensures
        outcome(r) == field_checked(field, s@),
{
    match field {
        Field::ServerIp => parse_server_ip(s),
        Field::Host => parse_host(s),
        Field::TargetBrowser => parse_target_browser(s),
        Field::FileFormat => parse_file_format(s),
        Field::Url => parse_url(s),
    }
}

/// The characters of each string of a list.
pub open spec fn texts(v: Seq<String>) -> Seq<Seq<char>> {
    Seq::new(v.len(), |i: int| v[i]@)
}

/// Validates `values[from..]` in order, each with the validator of the field
/// at its index, and puts the normal form in place of each accepted value.
/// Stops at the first rejected value: the result is the list as it stands
/// then, and the message if there was one.
pub open spec fn fields_checked(values: Seq<Seq<char>>, fields: Seq<Field>, from: int) -> (
    Seq<Seq<char>>,
    Option<Seq<char>>,
)
    decreases values.len() - from,
{
    if from < 0 || from >= values.len() || from >= fields.len() {
        (values, None)
    } else {
        match field_checked(fields[from], values[from]) {
            Ok(v) => fields_checked(values.update(from, v), fields, from + 1),
            Err(e) => (values, Some(e)),
        }
    }
}

/// What `fields_checked` comes to, index by index: the values before `from`
/// are untouched; if nothing is rejected, every value from `from` on has been
/// replaced by the normal form that its validator accepted; and if something
/// is rejected, it is at the first index whose validator says no, with that
/// validator's message, the values before it replaced and the others
/// untouched.
pub proof fn lemma_fields_checked(values: Seq<Seq<char>>, fields: Seq<Field>, from: int)
    requires
        0 <= from <= values.len() <= fields.len(),
    ensures
        ({
            let (left, rejected) = fields_checked(values, fields, from);
            &&& left.len() == values.len()
            &&& forall|j: int| 0 <= j < from ==> left[j] == values[j]
            &&& rejected is None ==> forall|j: int|
                from <= j < values.len() ==> field_checked(fields[j], values[j]) == Ok::<
                    Seq<char>,
                    Seq<char>,
                >(#[trigger] left[j])
            &&& rejected matches Some(e) ==> exists|k: int|
                {
                    &&& from <= k < values.len()
                    &&& #[trigger] field_checked(fields[k], values[k]) == Err::<
                        Seq<char>,
                        Seq<char>,
                    >(e)
                    &&& forall|j: int|
                        from <= j < k ==> field_checked(fields[j], values[j]) == Ok::<
                            Seq<char>,
                            Seq<char>,
                        >(#[trigger] left[j])
                    &&& forall|j: int| k <= j < values.len() ==> left[j] == values[j]
                }
        }),
    decreases values.len() - from,
{
    if from < values.len() {
        if let Ok(v) = field_checked(fields[from], values[from]) {
            lemma_fields_checked(values.update(from, v), fields, from + 1);
        }
    }
}

/// The fields of a configuration file that are validated, in this order.
pub open spec fn config_file_fields() -> Seq<Field> {
    seq![Field::ServerIp, Field::Host, Field::TargetBrowser, Field::FileFormat]
}

/// The message of a result without a value.
pub open spec fn failure(r: Result<(), String>) -> Option<Seq<char>> {
    match r {
        Ok(_) => None,
        Err(e) => Some(e@),
    }
}

/// Validates each value with the validator of the field at its index, in
/// order. Each accepted value is replaced by its normal form; the first
/// rejected one ends the run with its message, and the values after it are
/// left as they were.
pub fn parse_fields<const N: usize>(values: &mut [String; N], fields: &[Field; N]) -> (r: Result<
    (),
    String,
>)
    ensures
        (texts(final(values)@), failure(r)) == fields_checked(texts(old(values)@), fields@, 0),
{
    let mut i: usize = 0;
    while i < N
        invariant
            0 <= i <= N,
            fields_checked(texts(values@), fields@, i as int) == fields_checked(
                texts(old(values)@),
                fields@,
                0,
            ),
        decreases N - i,
    {
        let ghost before = texts(values@);
        match parse_field(fields[i], values[i].as_str()) {
            Ok(ret) => {
                values[i] = ret;
                assert(texts(values@) =~= before.update(i as int, ret@));
            },
            Err(e) => {
                return Err(e);
            },
        }
        i += 1;
    }
    Ok(())
}

/// Validates the four text fields that a configuration file must get right:
/// advertised address, bind host, capture target and image format, in this
/// order. Each accepted field is replaced by its normal form; the first
/// rejected one ends the run with its message, and the fields after it are
/// left as they were.
pub fn parse_config_file(str_config: &mut [String; 4]) -> (r: Result<(), String>)
    ensures
        (texts(final(str_config)@), failure(r)) == fields_checked(
            texts(old(str_config)@),
            config_file_fields(),
            0,
        ),
{
    let fields = [Field::ServerIp, Field::Host, Field::TargetBrowser, Field::FileFormat];
    parse_fields(str_config, &fields)
}

/// First part of the message for a form with an empty field.
pub const MISSING_FIELDS_ERROR: &'static str =
    "Error: these fields must be filled before\nstarting the ";

/// The fields that the capture loop needs, as the message lists them.
pub const OBSERVER_FIELDS: &'static str =
    "observer\n[URL, Target Browser, File Format, Saving Interval]";

/// The fields that the serving loop needs, as the message lists them.
pub const SERVER_FIELDS: &'static str =
    "server\n[File Format, Saving Interval, Server IP, Host Address, Port Number]";

/// The hint that is added when the form is fed from the configuration file.
pub const LOAD_CONFIG_HINT: &'static str =
    "\nMake sure to load configuration file (Load Config button)";

/// What every validator message is prefixed with in the interactive
/// front-end.
pub const ERROR_PREFIX: &'static str = "Error: ";

/// The message for a form with an empty field.
pub open spec fn missing_fields_message(observer_button: bool, config_file_mode: bool) -> Seq<
    char,
> {
    MISSING_FIELDS_ERROR@ + (if observer_button {
        OBSERVER_FIELDS@
    } else {
        SERVER_FIELDS@
    }) + (if config_file_mode {
        LOAD_CONFIG_HINT@
    } else {
        Seq::<char>::empty()
    })
}

/// Whether one of the values is empty.
pub open spec fn has_empty(values: Seq<Seq<char>>) -> bool {
    exists|i: int| 0 <= i < values.len() && (#[trigger] values[i]).len() == 0
}

/// What validating a form of the interactive front-end gives: the values as
/// they are left, and the message if the form was rejected.
pub open spec fn gui_mode_checked(
    values: Seq<Seq<char>>,
    fields: Seq<Field>,
    observer_button: bool,
    config_file_mode: bool,
) -> (Seq<Seq<char>>, Option<Seq<char>>) {
    if has_empty(values) {
        (values, Some(missing_fields_message(observer_button, config_file_mode)))
    } else {
        let (left, rejected) = fields_checked(values, fields, 0);
        match rejected {
            None => (left, None),
            Some(e) => (left, Some(ERROR_PREFIX@ + e)),
        }
    }
}

/// Validates the three text fields of a form of the interactive front-end.
///
/// If any field is empty nothing is validated and the message names the
/// fields that the loop needs (`observer_button` tells which loop) and, in
/// `config_file_mode`, reminds to load the configuration file. Otherwise
/// each field is validated in order as `parsing_func` says and replaced by
/// its normal form; the first rejected one ends the run with its message
/// behind `Error: `.
pub fn parse_config_gui_mode(
    str_config: &mut [String; 3],
    parsing_func: [Field; 3],
    observer_button: bool,
    config_file_mode: bool,
) -> (r: Result<(), String>)
    ensures
        (texts(final(str_config)@), failure(r)) == gui_mode_checked(
            texts(old(str_config)@),
            parsing_func@,
            observer_button,
            config_file_mode,
        ),
{
    let mut k: usize = 0;
    while k < 3
        invariant
            0 <= k <= 3,
            forall|j: int| 0 <= j < k ==> (#[trigger] texts(str_config@)[j]).len() != 0,
        decreases 3 - k,
    {
        if str_config[k].as_str().is_empty() {
            let mut err_str = String::from_str(MISSING_FIELDS_ERROR);
            if observer_button {
                err_str.append(OBSERVER_FIELDS);
            } else {
                err_str.append(SERVER_FIELDS);
            }
            if config_file_mode {
                err_str.append(LOAD_CONFIG_HINT);
            }
            assert(texts(str_config@)[k as int].len() == 0);
            return Err(err_str);
        }
        k += 1;
    }
    match parse_fields(str_config, &parsing_func) {
        Ok(()) => Ok(()),
        Err(e) => Err(join(ERROR_PREFIX, e.as_str())),
    }
}

/// The settings of one run.
#[derive(Debug, PartialEq, Eq)]
pub struct Settings {
    /// Address under which clients reach the server.
    pub server_ip: String,
    /// Address the server binds to.
    pub host: String,
    /// Port the server binds to; 0 lets the system choose.
    pub port: u16,
    /// Browser that takes the captures.
    pub target_browser: String,
    /// Page to capture.
    pub url: String,
    /// Image format of the captures.
    pub file_format: String,
    /// Minutes between two captures.
    pub interval: u16,
    /// Do not report each saved capture.
    pub quiet_flag: bool,
    /// Start the interactive front-end.
    pub gui_mode: bool,
}

/// `Settings` with its strings as sequences.
pub ghost struct SettingsView {
    pub server_ip: Seq<char>,
    pub host: Seq<char>,
    pub port: u16,
    pub target_browser: Seq<char>,
    pub url: Seq<char>,
    pub file_format: Seq<char>,
    pub interval: u16,
    pub quiet_flag: bool,
    pub gui_mode: bool,
}

impl View for Settings {
    type V = SettingsView;

    open spec fn view(&self) -> SettingsView {
        SettingsView {
            server_ip: self.server_ip@,
            host: self.host@,
            port: self.port,
            target_browser: self.target_browser@,
            url: self.url@,
            file_format: self.file_format@,
            interval: self.interval,
            quiet_flag: self.quiet_flag,
            gui_mode: self.gui_mode,
        }
    }
}

impl SettingsView {
    /// Settings with every text empty, every number 0 and every flag off.
    pub open spec fn blank() -> SettingsView {
        SettingsView {
            server_ip: Seq::empty(),
            host: Seq::empty(),
            port: 0,
            target_browser: Seq::empty(),
            url: Seq::empty(),
            file_format: Seq::empty(),
            interval: 0,
            quiet_flag: false,
            gui_mode: false,
        }
    }

    /// The settings that the command line gives when both required options
    /// are there.
    pub open spec fn from_args(args: ArgsView, server_ip: Seq<char>, url: Seq<char>)
        -> SettingsView {
        SettingsView {
            server_ip,
            host: args.host,
            port: args.port,
            target_browser: args.target_browser,
            url,
            file_format: args.file_format,
            interval: args.interval,
            quiet_flag: args.quiet,
            gui_mode: args.gui_mode,
        }
    }
}

impl Default for Settings {
    /// Blank settings.
    fn default() -> (r: Settings)
        ensures
            r@ == SettingsView::blank(),
    {
        Settings {
            server_ip: String::new(),
            host: String::new(),
            port: 0,
            target_browser: String::new(),
            url: String::new(),
            file_format: String::new(),
            interval: 0,
            quiet_flag: false,
            gui_mode: false,
        }
    }
}

/// Why no settings could be made.
#[derive(Debug, PartialEq, Eq)]
pub enum SettingsError {
    /// The configuration file could not be loaded; the text says why.
    ConfigFile(String),
    /// Neither interactive nor from a file, and no advertised address given.
    MissingServerIp,
    /// Neither interactive nor from a file, and no URL given.
    MissingUrl,
    /// A field of the configuration file was rejected; the text is the
    /// validator's message.
    InvalidField(String),
}

/// `SettingsError` with its strings as sequences.
pub ghost enum SettingsErrorView {
    ConfigFile(Seq<char>),
    MissingServerIp,
    MissingUrl,
    InvalidField(Seq<char>),
}

impl View for SettingsError {
    type V = SettingsErrorView;

    open spec fn view(&self) -> SettingsErrorView {
        match self {
            SettingsError::ConfigFile(e) => SettingsErrorView::ConfigFile(e@),
            SettingsError::MissingServerIp => SettingsErrorView::MissingServerIp,
            SettingsError::MissingUrl => SettingsErrorView::MissingUrl,
            SettingsError::InvalidField(e) => SettingsErrorView::InvalidField(e@),
        }
    }
}

/// Message for a missing advertised address.
pub const MISSING_SERVER_IP_ERROR: &'static str =
    "--server-ip must be specified\nFor more information try --help";

/// Message for a missing URL.
pub const MISSING_URL_ERROR: &'static str =
    "--url must be specified\nFor more information try --help";

/// Message for a configuration file that was asked for and not handed over.
pub const CONFIG_NOT_LOADED_ERROR: &'static str = "configuration file was not loaded";

impl SettingsErrorView {
    /// The text shown to the user.
    pub open spec fn message(self) -> Seq<char> {
        match self {
            SettingsErrorView::ConfigFile(e) => e,
            SettingsErrorView::MissingServerIp => MISSING_SERVER_IP_ERROR@,
            SettingsErrorView::MissingUrl => MISSING_URL_ERROR@,
            SettingsErrorView::InvalidField(e) => e,
        }
    }
}

impl SettingsError {
    /// The text shown to the user.
    pub fn message(&self) -> (r: String)
        ensures
            r@ == self@.message(),
    {
        match self {
            SettingsError::ConfigFile(e) => e.clone(),
            SettingsError::MissingServerIp => MISSING_SERVER_IP_ERROR.to_owned(),
            SettingsError::MissingUrl => MISSING_URL_ERROR.to_owned(),
            SettingsError::InvalidField(e) => e.clone(),
        }
    }
}

/// What loading the configuration file gave, with strings as sequences.
pub open spec fn loaded_view(loaded: Result<Settings, String>) -> Result<SettingsView, Seq<char>> {
    match loaded {
        Ok(s) => Ok(s@),
        Err(e) => Err(e@),
    }
}

/// `loaded_view` of a file that may not have been loaded at all.
pub open spec fn optional_loaded_view(loaded: Option<Result<Settings, String>>) -> Option<
    Result<SettingsView, Seq<char>>,
> {
    match loaded {
        Some(l) => Some(loaded_view(l)),
        None => None,
    }
}

/// The settings of a run, or the error, with strings as sequences.
pub open spec fn settings_view(r: Result<Settings, SettingsError>) -> Result<
    SettingsView,
    SettingsErrorView,
> {
    match r {
        Ok(s) => Ok(s@),
        Err(e) => Err(e@),
    }
}

/// The settings of an interactive session, or the message, with strings as
/// sequences.
pub open spec fn gui_settings_view(r: Result<Settings, String>) -> Result<
    SettingsView,
    Seq<char>,
> {
    match r {
        Ok(s) => Ok(s@),
        Err(e) => Err(e@),
    }
}

/// The settings that a run takes from a loaded configuration file: the four
/// fields of `config_file_fields` and then the URL validated and put in
/// normal form, the numbers and the quiet flag as the file has them, and the
/// interactive front-end switched on if the file or the command line
/// (`gui_mode`) asks for it. The first field that is rejected decides the
/// message.
pub open spec fn from_config_file(s: SettingsView, gui_mode: bool) -> Result<
    SettingsView,
    SettingsErrorView,
> {
    let (left, rejected) = fields_checked(
        seq![s.server_ip, s.host, s.target_browser, s.file_format],
        config_file_fields(),
        0,
    );
    match (rejected, field_checked(Field::Url, s.url)) {
        (Some(e), _) => Err(SettingsErrorView::InvalidField(e)),
        (None, Err(e)) => Err(SettingsErrorView::InvalidField(e)),
        (None, Ok(url)) => Ok(
            SettingsView {
                server_ip: left[0],
                host: left[1],
                target_browser: left[2],
                url,
                file_format: left[3],
                gui_mode: s.gui_mode || gui_mode,
                ..s
            },
        ),
    }
}

/// No settings are taken from a configuration file whose URL is not
/// accepted: whatever the other fields, a URL without a web scheme, or one
/// that does not parse, is rejected; and the settings that are taken hold
/// the URL in normal form, with a web scheme and parsing.
pub proof fn lemma_config_file_url_is_checked(s: SettingsView, gui_mode: bool)
    ensures
        !has_web_scheme(normalized(s.url)) || !url_is_valid(normalized(s.url))
            ==> from_config_file(s, gui_mode) is Err,
        from_config_file(s, gui_mode) matches Ok(taken) ==> taken.url == normalized(s.url)
            && has_web_scheme(taken.url) && url_is_valid(taken.url),
{
}

/// The settings of a run, from the command line and from what loading the
/// configuration file gave (`None`: it was not loaded).
pub open spec fn settings_parsed(
    args: ArgsView,
    loaded: Option<Result<SettingsView, Seq<char>>>,
) -> Result<SettingsView, SettingsErrorView> {
    if args.config_file {
        match loaded {
            Some(Ok(s)) => from_config_file(s, args.gui_mode),
            Some(Err(e)) => Err(SettingsErrorView::ConfigFile(e)),
            None => Err(SettingsErrorView::ConfigFile(CONFIG_NOT_LOADED_ERROR@)),
        }
    } else if args.gui_mode {
        Ok(SettingsView { gui_mode: true, ..SettingsView::blank() })
    } else {
        match (args.server_ip, args.url) {
            (None, _) => Err(SettingsErrorView::MissingServerIp),
            (Some(_), None) => Err(SettingsErrorView::MissingUrl),
            (Some(server_ip), Some(url)) => Ok(SettingsView::from_args(args, server_ip, url)),
        }
    }
}

/// The fields that the interactive front-end validates when it loads the
/// configuration file, in this order.
pub open spec fn gui_config_fields() -> Seq<Field> {
    seq![Field::FileFormat, Field::TargetBrowser, Field::Url, Field::Host]
}

/// The settings that the interactive front-end takes from what loading the
/// configuration file gave.
pub open spec fn gui_config_loaded(loaded: Result<SettingsView, Seq<char>>) -> Result<
    SettingsView,
    Seq<char>,
> {
    match loaded {
        Err(e) => Err(e),
        Ok(s) => {
            let (left, rejected) = fields_checked(
                seq![s.file_format, s.target_browser, s.url, s.host],
                gui_config_fields(),
                0,
            );
            match rejected {
                Some(e) => Err(e),
                None => Ok(
                    SettingsView {
                        file_format: left[0],
                        target_browser: left[1],
                        url: left[2],
                        host: left[3],
                        gui_mode: true,
                        ..s
                    },
                ),
            }
        },
    }
}

impl Settings {
    /// Makes the settings of a run from the command line.
    ///
    /// `config_file` is what loading the configuration file gave, for the
    /// caller to supply when `args.config_file` is set; it is looked at in
    /// that case only, and its absence then counts as a failed load.
    ///
    /// With `args.config_file` the settings are those of the file, with
    /// its text fields validated (see `from_config_file`). Otherwise an
    /// interactive session starts from blank settings, and a foreground run
    /// needs both the advertised address and the URL.
    pub fn parse_settings(args: Args, config_file: Option<Result<Settings, String>>) -> (r: Result<
        Settings,
        SettingsError,
    >)
        ensures
            settings_view(r) == settings_parsed(args@, optional_loaded_view(config_file)),
    {
        if args.config_file {
            return match config_file {
                Some(Ok(s)) => {
                    let Settings {
                        server_ip,
                        host,
                        port,
                        target_browser,
                        url,
                        file_format,
                        interval,
                        quiet_flag,
                        gui_mode,
                    } = s;
                    let mut fields = [server_ip, host, target_browser, file_format];
                    assert(texts(fields@) =~= seq![
                        server_ip@,
                        host@,
                        target_browser@,
                        file_format@,
                    ]);
                    match parse_config_file(&mut fields) {
                        Ok(()) => match parse_url(url.as_str()) {
                            Ok(url) => Ok(
                                Settings {
                                    server_ip: fields[0].clone(),
                                    host: fields[1].clone(),
                                    port,
                                    target_browser: fields[2].clone(),
                                    url,
                                    file_format: fields[3].clone(),
                                    interval,
                                    quiet_flag,
                                    gui_mode: gui_mode || args.gui_mode,
                                },
                            ),
                            Err(e) => Err(SettingsError::InvalidField(e)),
                        },
                        Err(e) => Err(SettingsError::InvalidField(e)),
                    }
                },
                Some(Err(e)) => Err(SettingsError::ConfigFile(e)),
                None => Err(SettingsError::ConfigFile(CONFIG_NOT_LOADED_ERROR.to_owned())),
            };
        }
        if args.gui_mode {
            let mut s = Settings::default();
            s.gui_mode = true;
            return Ok(s);
        }
        let Args {
            url,
            interval,
            file_format,
            quiet,
            gui_mode,
            host,
            port,
            server_ip,
            config_file: _,
            target_browser,
        } = args;
        match server_ip {
            None => Err(SettingsError::MissingServerIp),
            Some(server_ip) => match url {
                None => Err(SettingsError::MissingUrl),
                Some(url) => Ok(
                    Settings {
                        server_ip,
                        host,
                        port,
                        target_browser,
                        url,
                        file_format,
                        interval,
                        quiet_flag: quiet,
                        gui_mode,
                    },
                ),
            },
        }
    }
}

/// Makes the settings of an interactive session from what loading the
/// configuration file gave: a failed load is handed on; else image format,
/// capture target, URL and bind host are validated in this order and put in
/// normal form, and the first rejected one ends the run with its message.
pub fn load_config_gui_mode(loaded: Result<Settings, String>) -> (r: Result<Settings, String>)
    ensures
        gui_settings_view(r) == gui_config_loaded(loaded_view(loaded)),
{
    let s = match loaded {
        Ok(s) => s,
        Err(e) => {
            return Err(e);
        },
    };
    let Settings {
        server_ip,
        host,
        port,
        target_browser,
        url,
        file_format,
        interval,
        quiet_flag,
        gui_mode: _,
    } = s;
    let mut values = [file_format, target_browser, url, host];
    assert(texts(values@) =~= seq![file_format@, target_browser@, url@, host@]);
    let fields = [Field::FileFormat, Field::TargetBrowser, Field::Url, Field::Host];
    match parse_fields(&mut values, &fields) {
        Ok(()) => Ok(
            Settings {
                server_ip,
                host: values[3].clone(),
                port,
                target_browser: values[1].clone(),
                url: values[2].clone(),
                file_format: values[0].clone(),
                interval,
                quiet_flag,
                gui_mode: true,
            },
        ),
        Err(e) => Err(e),
    }
}

} // verus!
