use observer::clock::{timestamp, TIMESTAMP_PATTERN};
use observer::event::{EventKind, LoopKind, StatusEvent};
use observer::text::{join, normalize, replacen, same_text, starts_with, u64_to_string};

fn text(s: &str) -> String {
    s.to_string()
}

#[test]
fn terminal_kinds() {
    assert!(EventKind::Stopped.is_terminal());
    assert!(EventKind::Error.is_terminal());
    assert!(!EventKind::Started.is_terminal());
    assert!(!EventKind::CaptureSaved.is_terminal());
    assert!(!EventKind::ServerListening.is_terminal());
}

#[test]
fn stamped_kinds() {
    assert!(EventKind::Started.is_stamped());
    assert!(EventKind::Stopped.is_stamped());
    assert!(EventKind::CaptureSaved.is_stamped());
    assert!(!EventKind::ServerListening.is_stamped());
    assert!(!EventKind::Error.is_stamped());
}

#[test]
fn started_events() {
    assert_eq!(
        StatusEvent::started(LoopKind::Observer, "t"),
        StatusEvent {
            kind: EventKind::Started,
            source: LoopKind::Observer,
            text: text("Observer started"),
            timestamp: text("t"),
        }
    );
    assert_eq!(StatusEvent::started(LoopKind::Server, "t").text, "Server started");
}

#[test]
fn stopped_events() {
    assert_eq!(
        StatusEvent::stopped(LoopKind::Server, "t"),
        StatusEvent {
            kind: EventKind::Stopped,
            source: LoopKind::Server,
            text: text("Server stopped"),
            timestamp: text("t"),
        }
    );
    assert_eq!(StatusEvent::stopped(LoopKind::Observer, "t").text, "Observer stopped");
    assert!(StatusEvent::stopped(LoopKind::Observer, "t").is_terminal());
}

#[test]
fn failed_events() {
    let e = StatusEvent::failed(LoopKind::Observer, text("boom"), "t");
    assert_eq!(
        e,
        StatusEvent {
            kind: EventKind::Error,
            source: LoopKind::Observer,
            text: text("boom"),
            timestamp: text("t"),
        }
    );
    assert!(e.is_terminal());
    assert!(!StatusEvent::started(LoopKind::Observer, "t").is_terminal());
}

#[test]
fn lines_end_with_the_timestamp_where_stamped() {
    assert_eq!(
        StatusEvent::started(LoopKind::Observer, "10:00:00-01/01/2024").line(),
        "Observer started | 10:00:00-01/01/2024"
    );
    assert_eq!(
        StatusEvent::stopped(LoopKind::Server, "10:00:00-01/01/2024").line(),
        "Server stopped | 10:00:00-01/01/2024"
    );
    let saved = StatusEvent {
        kind: EventKind::CaptureSaved,
        source: LoopKind::Observer,
        text: text("./observed.png"),
        timestamp: text("10:00:00-01/01/2024"),
    };
    assert_eq!(saved.line(), "./observed.png | 10:00:00-01/01/2024");
}

#[test]
fn lines_of_errors_and_addresses_are_the_text() {
    assert_eq!(StatusEvent::failed(LoopKind::Server, text("boom"), "t").line(), "boom");
    let listening = StatusEvent {
        kind: EventKind::ServerListening,
        source: LoopKind::Server,
        text: text("Server address: 1.2.3.4:80"),
        timestamp: text("t"),
    };
    assert_eq!(listening.line(), "Server address: 1.2.3.4:80");
}

#[test]
fn timestamp_is_time_then_date() {
    let stamp = timestamp();
    assert_ne!(stamp, TIMESTAMP_PATTERN);
    let bytes = stamp.as_bytes();
    assert_eq!(bytes.len(), 19);
    for (i, b) in bytes.iter().enumerate() {
        match i {
            2 | 5 => assert_eq!(*b, b':'),
            8 => assert_eq!(*b, b'-'),
            11 | 14 => assert_eq!(*b, b'/'),
            _ => assert!(b.is_ascii_digit()),
        }
    }
}

#[test]
fn normalize_trims_then_lowercases() {
    assert_eq!(normalize("  MiXed Case \n"), "mixed case");
    assert_eq!(normalize(""), "");
    assert_eq!(normalize("\u{a0}\u{c9}T\u{c9}\u{2003}"), "\u{e9}t\u{e9}");
}

#[test]
fn same_text_compares_characters() {
    assert!(same_text("abc", "abc"));
    assert!(same_text("", ""));
    assert!(!same_text("abc", "abd"));
    assert!(!same_text("abc", "ab"));
}

#[test]
fn join_puts_one_text_behind_the_other() {
    assert_eq!(join("ab", "cd"), "abcd");
    assert_eq!(join("", "cd"), "cd");
    assert_eq!(join("ab", ""), "ab");
}

#[test]
fn starts_with_compares_the_beginning() {
    assert!(starts_with("https://a", "https://"));
    assert!(starts_with("abc", ""));
    assert!(starts_with("", ""));
    assert!(starts_with("\u{e9}t\u{e9}", "\u{e9}t"));
    assert!(!starts_with("\u{e9}t\u{e9}", "et"));
    assert!(!starts_with("ab", "abc"));
    assert!(!starts_with("", "a"));
    assert!(!starts_with("http:/", "http://"));
}

#[test]
fn numbers_are_written_in_decimal() {
    assert_eq!(u64_to_string(0), "0");
    assert_eq!(u64_to_string(7), "7");
    assert_eq!(u64_to_string(10), "10");
    assert_eq!(u64_to_string(65535), "65535");
    assert_eq!(u64_to_string(1234567890), "1234567890");
    assert_eq!(u64_to_string(u64::MAX), "18446744073709551615");
}

#[test]
fn replacen_replaces_the_first_occurrences() {
    assert_eq!(replacen("a#b#c#", '#', "--", 2), "a--b--c#");
    assert_eq!(replacen("a#b#c#", '#', "", 10), "abc");
    assert_eq!(replacen("a#b#c#", '#', "x", 0), "a#b#c#");
    assert_eq!(replacen("###", '#', "#", 3), "###");
    assert_eq!(replacen("abc", '#', "x", 1), "abc");
}
