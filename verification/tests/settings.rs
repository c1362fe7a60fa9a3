use observer::cli::Args;
use observer::settings::{
    check_file_format, check_host, check_server_ip, check_target_browser, check_url,
    load_config_gui_mode, parse_config_file, parse_config_gui_mode, parse_field, parse_fields,
    parse_file_format, parse_host, parse_server_ip, parse_target_browser, parse_url, Field,
    Settings, SettingsError,
};

const FORMAT_MESSAGE: &str = "file format must either be JPEG or PNG";
const BROWSER_MESSAGE: &str = "capture targets available are chromium, chrome and edge";
const URL_MESSAGE: &str = "url must follow this format: '[https,http]://some_domain.com'";
const HOST_MESSAGE: &str = "host can either be 127.0.0.1 to serve locally on the host computer\nor 0.0.0.0 to serve on the computer network";
const IP_MESSAGE: &str = "server IP must be an IPv4 address";

fn text(s: &str) -> String {
    s.to_string()
}

fn sample_settings() -> Settings {
    Settings {
        server_ip: text(" 192.168.13.37 "),
        host: text("0.0.0.0"),
        port: 8080,
        target_browser: text("Chromium"),
        url: text("HTTPS://www.gnu.org"),
        file_format: text("PNG"),
        interval: 3,
        quiet_flag: true,
        gui_mode: false,
    }
}

fn sample_args() -> Args {
    Args {
        url: Some(text("https://www.gnu.org")),
        interval: 7,
        file_format: text("png"),
        quiet: true,
        gui_mode: false,
        host: text("127.0.0.1"),
        port: 4242,
        server_ip: Some(text("10.0.0.2")),
        config_file: false,
        target_browser: text("edge"),
    }
}

#[test]
fn file_format_accepts_the_two_names() {
    assert_eq!(parse_file_format("png"), Ok(text("png")));
    assert_eq!(parse_file_format("jpeg"), Ok(text("jpeg")));
}

#[test]
fn file_format_is_trimmed() {
    assert_eq!(parse_file_format("  png\t\n"), Ok(text("png")));
}

#[test]
fn file_format_is_lowercased() {
    assert_eq!(parse_file_format("JPEG"), Ok(text("jpeg")));
    assert_eq!(parse_file_format("Png"), Ok(text("png")));
}

#[test]
fn file_format_rejects_other_names() {
    assert_eq!(parse_file_format("gif"), Err(text(FORMAT_MESSAGE)));
    assert_eq!(parse_file_format("jpg"), Err(text(FORMAT_MESSAGE)));
    assert_eq!(parse_file_format(" JPG "), Err(text(FORMAT_MESSAGE)));
    assert_eq!(parse_file_format(""), Err(text(FORMAT_MESSAGE)));
    assert_eq!(parse_file_format("p n g"), Err(text(FORMAT_MESSAGE)));
}

#[test]
fn check_file_format_takes_text_as_it_is() {
    assert_eq!(check_file_format(text("png")), Ok(text("png")));
    assert_eq!(check_file_format(text("jpeg")), Ok(text("jpeg")));
    assert_eq!(check_file_format(text("jpg")), Err(text(FORMAT_MESSAGE)));
    assert_eq!(check_file_format(text("PNG")), Err(text(FORMAT_MESSAGE)));
    assert_eq!(check_file_format(text(" png")), Err(text(FORMAT_MESSAGE)));
}

#[test]
fn target_browser_accepts_the_three_names() {
    assert_eq!(parse_target_browser("chromium"), Ok(text("chromium")));
    assert_eq!(parse_target_browser(" Chrome "), Ok(text("chrome")));
    assert_eq!(parse_target_browser("EDGE"), Ok(text("edge")));
}

#[test]
fn target_browser_rejects_other_names() {
    assert_eq!(parse_target_browser("firefox"), Err(text(BROWSER_MESSAGE)));
    assert_eq!(check_target_browser(text("Chrome")), Err(text(BROWSER_MESSAGE)));
}

#[test]
fn url_with_web_scheme_is_accepted() {
    assert_eq!(parse_url("https://www.gnu.org"), Ok(text("https://www.gnu.org")));
    assert_eq!(parse_url("http://localhost:80"), Ok(text("http://localhost:80")));
    assert_eq!(parse_url("  HTTPS://WWW.GNU.ORG "), Ok(text("https://www.gnu.org")));
}

#[test]
fn url_without_scheme_is_rejected() {
    assert_eq!(parse_url("www.gnu.org"), Err(text(URL_MESSAGE)));
}

#[test]
fn url_with_other_scheme_is_rejected() {
    assert_eq!(parse_url("ftp://localhost:80"), Err(text(URL_MESSAGE)));
}

#[test]
fn url_that_does_not_parse_is_rejected() {
    assert_eq!(parse_url("http://"), Err(text(URL_MESSAGE)));
    assert_eq!(parse_url("https://exa mple.org"), Err(text(URL_MESSAGE)));
}

#[test]
fn check_url_needs_scheme_and_parser() {
    assert_eq!(check_url(text("http://a.b"), true), Ok(text("http://a.b")));
    assert_eq!(check_url(text("https://a.b"), true), Ok(text("https://a.b")));
    assert_eq!(check_url(text("http://a.b"), false), Err(text(URL_MESSAGE)));
    assert_eq!(check_url(text("a.b"), true), Err(text(URL_MESSAGE)));
    assert_eq!(check_url(text("http:/"), true), Err(text(URL_MESSAGE)));
}

#[test]
fn host_accepts_the_two_addresses() {
    assert_eq!(parse_host("127.0.0.1"), Ok(text("127.0.0.1")));
    assert_eq!(parse_host(" 0.0.0.0 "), Ok(text("0.0.0.0")));
}

#[test]
fn host_rejects_other_addresses() {
    assert_eq!(parse_host("192.168.1.1"), Err(text(HOST_MESSAGE)));
    assert_eq!(check_host(text("localhost")), Err(text(HOST_MESSAGE)));
}

#[test]
fn server_ip_accepts_ipv4() {
    assert_eq!(parse_server_ip("192.168.13.37"), Ok(text("192.168.13.37")));
    assert_eq!(parse_server_ip(" 1.1.1.1\n"), Ok(text("1.1.1.1")));
    assert_eq!(parse_server_ip("255.0.0.0"), Ok(text("255.0.0.0")));
}

#[test]
fn server_ip_rejects_what_is_not_ipv4() {
    assert_eq!(parse_server_ip("256.1.1.1"), Err(text(IP_MESSAGE)));
    assert_eq!(parse_server_ip("25.1.1."), Err(text(IP_MESSAGE)));
    assert_eq!(parse_server_ip("fe80::223:6cff:fe8a:2e8a"), Err(text(IP_MESSAGE)));
    assert_eq!(parse_server_ip("example.org"), Err(text(IP_MESSAGE)));
}

#[test]
fn check_server_ip_goes_by_the_parser() {
    assert_eq!(check_server_ip(text("1.2.3.4"), true), Ok(text("1.2.3.4")));
    assert_eq!(check_server_ip(text("1.2.3.4"), false), Err(text(IP_MESSAGE)));
}

#[test]
fn parse_field_runs_the_validator_of_the_field() {
    assert_eq!(parse_field(Field::ServerIp, "1.2.3.4"), Ok(text("1.2.3.4")));
    assert_eq!(parse_field(Field::ServerIp, "png"), Err(text(IP_MESSAGE)));
    assert_eq!(parse_field(Field::Host, "0.0.0.0"), Ok(text("0.0.0.0")));
    assert_eq!(parse_field(Field::Host, "png"), Err(text(HOST_MESSAGE)));
    assert_eq!(parse_field(Field::TargetBrowser, "Edge"), Ok(text("edge")));
    assert_eq!(parse_field(Field::TargetBrowser, "png"), Err(text(BROWSER_MESSAGE)));
    assert_eq!(parse_field(Field::FileFormat, "PNG"), Ok(text("png")));
    assert_eq!(parse_field(Field::FileFormat, "edge"), Err(text(FORMAT_MESSAGE)));
    assert_eq!(parse_field(Field::Url, "http://a.b"), Ok(text("http://a.b")));
    assert_eq!(parse_field(Field::Url, "a.b"), Err(text(URL_MESSAGE)));
}

#[test]
fn parse_fields_stops_at_the_first_rejected_value() {
    let mut values = [text(" PNG "), text("firefox"), text(" JPEG ")];
    let fields = [Field::FileFormat, Field::TargetBrowser, Field::FileFormat];
    assert_eq!(parse_fields(&mut values, &fields), Err(text(BROWSER_MESSAGE)));
    assert_eq!(values, [text("png"), text("firefox"), text(" JPEG ")]);
}

#[test]
fn parse_fields_of_nothing_succeeds() {
    let mut values: [String; 0] = [];
    assert_eq!(parse_fields(&mut values, &[]), Ok(()));
}

#[test]
fn config_file_fields_are_put_in_normal_form() {
    let mut fields = [text(" 10.0.0.1 "), text("127.0.0.1"), text("CHROME"), text("Jpeg")];
    assert_eq!(parse_config_file(&mut fields), Ok(()));
    assert_eq!(fields, [text("10.0.0.1"), text("127.0.0.1"), text("chrome"), text("jpeg")]);
}

#[test]
fn config_file_reports_the_first_bad_field() {
    let mut fields = [text("10.0.0.1"), text("10.0.0.1"), text("safari"), text("bmp")];
    assert_eq!(parse_config_file(&mut fields), Err(text(HOST_MESSAGE)));
    assert_eq!(fields, [text("10.0.0.1"), text("10.0.0.1"), text("safari"), text("bmp")]);

    let mut fields = [text("nowhere"), text("0.0.0.0"), text("chrome"), text("png")];
    assert_eq!(parse_config_file(&mut fields), Err(text(IP_MESSAGE)));

    let mut fields = [text("10.0.0.1"), text("0.0.0.0"), text("safari"), text("png")];
    assert_eq!(parse_config_file(&mut fields), Err(text(BROWSER_MESSAGE)));

    let mut fields = [text("10.0.0.1"), text("0.0.0.0"), text("edge"), text("bmp")];
    assert_eq!(parse_config_file(&mut fields), Err(text(FORMAT_MESSAGE)));
    assert_eq!(fields, [text("10.0.0.1"), text("0.0.0.0"), text("edge"), text("bmp")]);
}

#[test]
fn gui_form_with_an_empty_field_names_the_observer_fields() {
    let mut form = [text("chrome"), text(""), text("png")];
    let fields = [Field::TargetBrowser, Field::Url, Field::FileFormat];
    assert_eq!(
        parse_config_gui_mode(&mut form, fields, true, false),
        Err(text(
            "Error: these fields must be filled before\nstarting the observer\n[URL, Target Browser, File Format, Saving Interval]"
        ))
    );
    assert_eq!(form, [text("chrome"), text(""), text("png")]);
}

#[test]
fn gui_form_with_an_empty_field_names_the_server_fields() {
    let mut form = [text(""), text("0.0.0.0"), text("png")];
    let fields = [Field::ServerIp, Field::Host, Field::FileFormat];
    assert_eq!(
        parse_config_gui_mode(&mut form, fields, false, false),
        Err(text(
            "Error: these fields must be filled before\nstarting the server\n[File Format, Saving Interval, Server IP, Host Address, Port Number]"
        ))
    );
}

#[test]
fn gui_form_with_an_empty_field_reminds_of_the_config_file() {
    let mut form = [text("CHROME"), text("https://a.b"), text("")];
    let fields = [Field::TargetBrowser, Field::Url, Field::FileFormat];
    assert_eq!(
        parse_config_gui_mode(&mut form, fields, true, true),
        Err(text(
            "Error: these fields must be filled before\nstarting the observer\n[URL, Target Browser, File Format, Saving Interval]\nMake sure to load configuration file (Load Config button)"
        ))
    );
    assert_eq!(form[0], "CHROME");

    let mut form = [text("1.2.3.4"), text(""), text("")];
    let fields = [Field::ServerIp, Field::Host, Field::FileFormat];
    assert_eq!(
        parse_config_gui_mode(&mut form, fields, false, true),
        Err(text(
            "Error: these fields must be filled before\nstarting the server\n[File Format, Saving Interval, Server IP, Host Address, Port Number]\nMake sure to load configuration file (Load Config button)"
        ))
    );
}

#[test]
fn gui_form_prefixes_the_message_of_the_validator() {
    let mut form = [text(" Chrome"), text("www.gnu.org"), text("PNG")];
    let fields = [Field::TargetBrowser, Field::Url, Field::FileFormat];
    assert_eq!(
        parse_config_gui_mode(&mut form, fields, true, false),
        Err(format!("Error: {}", URL_MESSAGE))
    );
    assert_eq!(form, [text("chrome"), text("www.gnu.org"), text("PNG")]);
}

#[test]
fn gui_form_that_is_accepted_is_put_in_normal_form() {
    let mut form = [text(" Chrome"), text("HTTP://Example.org/A"), text("PNG")];
    let fields = [Field::TargetBrowser, Field::Url, Field::FileFormat];
    assert_eq!(parse_config_gui_mode(&mut form, fields, true, true), Ok(()));
    assert_eq!(form, [text("chrome"), text("http://example.org/a"), text("png")]);
}

#[test]
fn gui_form_of_blanks_is_not_empty_but_rejected() {
    let mut form = [text(" "), text(" "), text(" ")];
    let fields = [Field::ServerIp, Field::Host, Field::FileFormat];
    assert_eq!(
        parse_config_gui_mode(&mut form, fields, false, false),
        Err(format!("Error: {}", IP_MESSAGE))
    );
}

#[test]
fn default_settings_are_blank() {
    let s = Settings::default();
    assert_eq!(
        s,
        Settings {
            server_ip: text(""),
            host: text(""),
            port: 0,
            target_browser: text(""),
            url: text(""),
            file_format: text(""),
            interval: 0,
            quiet_flag: false,
            gui_mode: false,
        }
    );
}

#[test]
fn default_args_are_the_documented_defaults() {
    let a = Args::default();
    assert_eq!(a.url, None);
    assert_eq!(a.interval, 5);
    assert_eq!(a.file_format, "jpeg");
    assert!(!a.quiet);
    assert!(!a.gui_mode);
    assert_eq!(a.host, "0.0.0.0");
    assert_eq!(a.port, 0);
    assert_eq!(a.server_ip, None);
    assert!(!a.config_file);
    assert_eq!(a.target_browser, "chrome");
}

#[test]
fn settings_from_the_command_line() {
    let s = Settings::parse_settings(sample_args(), None);
    assert_eq!(
        s,
        Ok(Settings {
            server_ip: text("10.0.0.2"),
            host: text("127.0.0.1"),
            port: 4242,
            target_browser: text("edge"),
            url: text("https://www.gnu.org"),
            file_format: text("png"),
            interval: 7,
            quiet_flag: true,
            gui_mode: false,
        })
    );
}

#[test]
fn settings_need_the_server_ip() {
    let mut args = sample_args();
    args.server_ip = None;
    let e = Settings::parse_settings(args, None).unwrap_err();
    assert_eq!(e, SettingsError::MissingServerIp);
    assert_eq!(
        e.message(),
        "--server-ip must be specified\nFor more information try --help"
    );
}

#[test]
fn settings_need_the_url() {
    let mut args = sample_args();
    args.url = None;
    let e = Settings::parse_settings(args, None).unwrap_err();
    assert_eq!(e, SettingsError::MissingUrl);
    assert_eq!(e.message(), "--url must be specified\nFor more information try --help");
}

#[test]
fn missing_server_ip_is_reported_before_missing_url() {
    let mut args = sample_args();
    args.url = None;
    args.server_ip = None;
    assert_eq!(Settings::parse_settings(args, None), Err(SettingsError::MissingServerIp));
}

#[test]
fn settings_for_the_gui_are_blank() {
    let mut args = sample_args();
    args.gui_mode = true;
    args.url = None;
    args.server_ip = None;
    let mut expected = Settings::default();
    expected.gui_mode = true;
    assert_eq!(Settings::parse_settings(args, None), Ok(expected));
}

#[test]
fn settings_from_the_config_file() {
    let mut args = sample_args();
    args.config_file = true;
    let s = Settings::parse_settings(args, Some(Ok(sample_settings())));
    assert_eq!(
        s,
        Ok(Settings {
            server_ip: text("192.168.13.37"),
            host: text("0.0.0.0"),
            port: 8080,
            target_browser: text("chromium"),
            url: text("https://www.gnu.org"),
            file_format: text("png"),
            interval: 3,
            quiet_flag: true,
            gui_mode: false,
        })
    );
}

#[test]
fn config_file_with_a_url_without_scheme_is_rejected() {
    let mut args = sample_args();
    args.config_file = true;
    let mut file = sample_settings();
    file.url = text("gnu.org");
    let e = Settings::parse_settings(args, Some(Ok(file))).unwrap_err();
    assert_eq!(e, SettingsError::InvalidField(text(URL_MESSAGE)));
    assert_eq!(e.message(), URL_MESSAGE);
}

#[test]
fn config_file_with_a_url_that_does_not_parse_is_rejected() {
    let mut args = sample_args();
    args.config_file = true;
    args.gui_mode = true;
    let mut file = sample_settings();
    file.url = text("http://");
    assert_eq!(
        Settings::parse_settings(args, Some(Ok(file))),
        Err(SettingsError::InvalidField(text(URL_MESSAGE)))
    );
}

#[test]
fn config_file_reports_the_four_fields_before_the_url() {
    let mut args = sample_args();
    args.config_file = true;
    let mut file = sample_settings();
    file.url = text("gnu.org");
    file.file_format = text("jpg");
    assert_eq!(
        Settings::parse_settings(args, Some(Ok(file))),
        Err(SettingsError::InvalidField(text(FORMAT_MESSAGE)))
    );
}

#[test]
fn config_file_with_gui_flag_starts_the_gui() {
    let mut args = sample_args();
    args.config_file = true;
    args.gui_mode = true;
    let s = Settings::parse_settings(args, Some(Ok(sample_settings()))).unwrap();
    assert!(s.gui_mode);

    let mut args = sample_args();
    args.config_file = true;
    let mut file = sample_settings();
    file.gui_mode = true;
    let s = Settings::parse_settings(args, Some(Ok(file))).unwrap();
    assert!(s.gui_mode);
}

#[test]
fn config_file_with_a_bad_field_is_rejected() {
    let mut args = sample_args();
    args.config_file = true;
    let mut file = sample_settings();
    file.host = text("10.1.1.1");
    let e = Settings::parse_settings(args, Some(Ok(file))).unwrap_err();
    assert_eq!(e, SettingsError::InvalidField(text(HOST_MESSAGE)));
    assert_eq!(e.message(), HOST_MESSAGE);
}

#[test]
fn config_file_that_failed_to_load_is_reported() {
    let mut args = sample_args();
    args.config_file = true;
    let e = Settings::parse_settings(args, Some(Err(text("configuration file \"config\" not found"))))
        .unwrap_err();
    assert_eq!(e, SettingsError::ConfigFile(text("configuration file \"config\" not found")));
    assert_eq!(e.message(), "configuration file \"config\" not found");
}

#[test]
fn config_file_that_was_not_loaded_is_reported() {
    let mut args = sample_args();
    args.config_file = true;
    let e = Settings::parse_settings(args, None).unwrap_err();
    assert_eq!(e, SettingsError::ConfigFile(text("configuration file was not loaded")));
}

#[test]
fn config_file_is_ignored_without_the_flag() {
    let s = Settings::parse_settings(sample_args(), Some(Ok(sample_settings()))).unwrap();
    assert_eq!(s.port, 4242);
}

#[test]
fn gui_loads_the_config_file() {
    let s = load_config_gui_mode(Ok(sample_settings()));
    assert_eq!(
        s,
        Ok(Settings {
            server_ip: text(" 192.168.13.37 "),
            host: text("0.0.0.0"),
            port: 8080,
            target_browser: text("chromium"),
            url: text("https://www.gnu.org"),
            file_format: text("png"),
            interval: 3,
            quiet_flag: true,
            gui_mode: true,
        })
    );
}

#[test]
fn gui_reports_the_first_bad_field_of_the_config_file() {
    let mut file = sample_settings();
    file.url = text("gnu.org");
    file.host = text("nowhere");
    assert_eq!(load_config_gui_mode(Ok(file)), Err(text(URL_MESSAGE)));

    let mut file = sample_settings();
    file.file_format = text("bmp");
    file.target_browser = text("safari");
    assert_eq!(load_config_gui_mode(Ok(file)), Err(text(FORMAT_MESSAGE)));

    let mut file = sample_settings();
    file.target_browser = text("safari");
    assert_eq!(load_config_gui_mode(Ok(file)), Err(text(BROWSER_MESSAGE)));

    let mut file = sample_settings();
    file.host = text("nowhere");
    assert_eq!(load_config_gui_mode(Ok(file)), Err(text(HOST_MESSAGE)));
}

#[test]
fn gui_hands_on_a_failed_load() {
    assert_eq!(load_config_gui_mode(Err(text("no such file"))), Err(text("no such file")));
}
