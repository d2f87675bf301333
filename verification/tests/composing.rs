use netlog::compose::{compose_bridge, compose_direct, RESET, SCOPE_COLOR, TIMESTAMP_COLOR};
use netlog::level::LogLevel;
use netlog::timestamp::Timestamp;

fn noon() -> Timestamp {
    Timestamp::new(1, 5, 12, 0, 0, 0).unwrap()
}

fn count(hay: &str, needle: &str) -> usize {
    let mut found = 0;
    let mut from = 0;
    while let Some(at) = hay[from..].find(needle) {
        found += 1;
        from += at + 1;
    }
    found
}

#[test]
fn escape_sequences_are_the_usual_ones() {
    assert_eq!(RESET, "\x1b[0m");
    assert_eq!(TIMESTAMP_COLOR, "\x1b[90m");
    assert_eq!(SCOPE_COLOR, "\x1b[35m");
}

#[test]
fn bridge_text_without_module_is_the_message() {
    assert_eq!(compose_bridge(None, "peer connected"), "peer connected");
    assert_eq!(compose_bridge(None, ""), "");
}

#[test]
fn bridge_text_with_module_has_the_segment_first() {
    assert_eq!(compose_bridge(Some("net"), "peer connected"), "[net] peer connected");
    assert_eq!(compose_bridge(Some(""), "x"), "[] x");
    assert_eq!(compose_bridge(Some("sync"), ""), "[sync] ");
}

#[test]
fn bridge_text_keeps_text_beyond_ascii() {
    assert_eq!(compose_bridge(Some("réseau"), "pair connecté ✓"), "[réseau] pair connecté ✓");
}

#[test]
fn direct_line_without_module() {
    let line = compose_direct(&noon(), LogLevel::Info, 0, None, "started");
    assert_eq!(
        line,
        "\x1b[90mJan-05 12:00:00.000\x1b[0m \x1b[32m[INFO]\x1b[0m \x1b[35m(zeam-n1)\x1b[0m: started"
    );
}

#[test]
fn direct_line_with_module() {
    let line = compose_direct(&noon(), LogLevel::Error, 2, Some("sync"), "lost peer");
    assert_eq!(
        line,
        "\x1b[90mJan-05 12:00:00.000\x1b[0m \x1b[31m[ERROR]\x1b[0m \x1b[35m(zeam-n3)\x1b[0m: [sync] lost peer"
    );
}

#[test]
fn direct_line_for_each_level_and_scope() {
    let line = compose_direct(&noon(), LogLevel::Debug, 1, None, "m");
    assert_eq!(
        line,
        "\x1b[90mJan-05 12:00:00.000\x1b[0m \x1b[36m[DEBUG]\x1b[0m \x1b[35m(zeam-n2)\x1b[0m: m"
    );
    let line = compose_direct(&noon(), LogLevel::Warn, 77, None, "m");
    assert_eq!(
        line,
        "\x1b[90mJan-05 12:00:00.000\x1b[0m \x1b[33m[WARN]\x1b[0m \x1b[35m(zeam-default)\x1b[0m: m"
    );
}

#[test]
fn direct_line_holds_one_level_token() {
    let levels = [LogLevel::Debug, LogLevel::Info, LogLevel::Warn, LogLevel::Error];
    for level in levels.iter() {
        for module in [None, Some("sync")] {
            let line = compose_direct(&noon(), *level, 1, module, "peer connected");
            for token in levels.iter() {
                let expected = if token == level { 1 } else { 0 };
                assert_eq!(count(&line, token.as_str()), expected, "{}", line);
            }
            let at = line.find(level.as_str()).unwrap();
            assert_eq!(at, 35);
            assert_eq!(&line[at - 1..at], "[");
            assert_eq!(&line[at + level.as_str().len()..at + level.as_str().len() + 1], "]");
        }
    }
}

#[test]
fn a_message_can_repeat_the_level_token() {
    let line = compose_direct(&noon(), LogLevel::Info, 1, None, "INFO");
    assert_eq!(count(&line, "INFO"), 2);
}

#[test]
fn absent_module_leaves_no_bracketed_segment() {
    let line = compose_direct(&noon(), LogLevel::Info, 1, None, "peer connected");
    assert!(line.ends_with("\x1b[0m: peer connected"));
    assert_eq!(count(&line, "] "), 0);
    let text = compose_bridge(None, "peer connected");
    assert_eq!(count(&text, "["), 0);
}

#[test]
fn module_sync_appears_once_before_the_message() {
    let line = compose_direct(&noon(), LogLevel::Info, 1, Some("sync"), "peer connected");
    assert_eq!(count(&line, "[sync] "), 1);
    assert!(line.ends_with(": [sync] peer connected"));
    let text = compose_bridge(Some("sync"), "peer connected");
    assert_eq!(count(&text, "[sync] "), 1);
    assert_eq!(text.find("[sync] "), Some(0));
    assert_eq!(text.find("peer connected"), Some(7));
}

#[test]
fn composing_twice_gives_the_same_text() {
    let first = compose_bridge(Some("net"), "peer connected");
    let second = compose_bridge(Some("net"), "peer connected");
    assert_eq!(first, second);
    let first = compose_direct(&noon(), LogLevel::Warn, 2, Some("net"), "slow");
    let second = compose_direct(&noon(), LogLevel::Warn, 2, Some("net"), "slow");
    assert_eq!(first, second);
}

#[test]
fn lines_at_different_times_share_the_body() {
    let later = Timestamp::new(11, 30, 23, 59, 58, 987_654_321).unwrap();
    let first = compose_direct(&noon(), LogLevel::Warn, 2, Some("net"), "slow");
    let second = compose_direct(&later, LogLevel::Warn, 2, Some("net"), "slow");
    assert_ne!(first, second);
    assert_eq!(first.len(), second.len());
    assert_eq!(&first[29..], &second[29..]);
    assert_eq!(&first[29..], "\x1b[33m[WARN]\x1b[0m \x1b[35m(zeam-n3)\x1b[0m: [net] slow");
    assert_eq!(&second[..29], "\x1b[90mNov-30 23:59:58.987\x1b[0m ");
}

#[test]
fn direct_line_scope_follows_the_table() {
    let cases = [
        (0u32, "(zeam-n1)"),
        (1, "(zeam-n2)"),
        (2, "(zeam-n3)"),
        (3, "(zeam-default)"),
        (4096, "(zeam-default)"),
        (u32::MAX, "(zeam-default)"),
    ];
    let levels = [LogLevel::Debug, LogLevel::Info, LogLevel::Warn, LogLevel::Error];
    for (id, scope) in cases.iter() {
        for level in levels.iter() {
            for module in [None, Some("sync")] {
                let line = compose_direct(&noon(), *level, *id, module, "peer connected");
                let at = 29 + 5 + 1 + level.as_str().len() + 1 + 4 + 1 + 5;
                assert_eq!(&line[at..at + scope.len()], *scope, "{}", line);
                assert_eq!(count(&line, "(zeam-"), 1);
            }
        }
    }
}

#[test]
fn direct_line_begins_with_a_shaped_timestamp() {
    let readings = [
        (1u8, 1u8, 0u8, 0u8, 0u8, 0u32, "Jan-01 00:00:00.000"),
        (2, 29, 9, 5, 7, 1_999_999, "Feb-29 09:05:07.001"),
        (10, 28, 23, 59, 59, 999_999_999, "Oct-28 23:59:59.999"),
        (12, 31, 23, 59, 59, 1_000_000_000, "Dec-31 23:59:60.000"),
    ];
    for (month, day, hour, minute, second, nanosecond, text) in readings.iter() {
        let now = Timestamp::new(*month, *day, *hour, *minute, *second, *nanosecond).unwrap();
        let line = compose_direct(&now, LogLevel::Info, 1, Some("net"), "peer connected");
        assert_eq!(&line[..5], "\x1b[90m");
        assert_eq!(&line[5..24], *text);
        assert_eq!(&line[24..29], "\x1b[0m ");
        let stamp = line[5..24].as_bytes();
        assert!(stamp[0].is_ascii_uppercase());
        assert!(stamp[1].is_ascii_lowercase() && stamp[2].is_ascii_lowercase());
        for at in [4usize, 5, 7, 8, 10, 11, 13, 14, 16, 17, 18] {
            assert!(stamp[at].is_ascii_digit());
        }
        assert_eq!(stamp[3], b'-');
        assert_eq!(stamp[6], b' ');
        assert_eq!(stamp[9], b':');
        assert_eq!(stamp[12], b':');
        assert_eq!(stamp[15], b'.');
    }
}

#[test]
fn direct_line_ends_in_the_bridge_text() {
    for module in [None, Some("net"), Some("")] {
        for message in ["", "peer connected", "[x] y"] {
            let line = compose_direct(&noon(), LogLevel::Debug, 2, module, message);
            let text = compose_bridge(module, message);
            assert!(line.ends_with(&text));
            assert_eq!(
                &line[..line.len() - text.len()],
                "\x1b[90mJan-05 12:00:00.000\x1b[0m \x1b[36m[DEBUG]\x1b[0m \x1b[35m(zeam-n3)\x1b[0m: "
            );
        }
    }
}

#[test]
fn the_level_token_stands_between_brackets() {
    let levels = [LogLevel::Debug, LogLevel::Info, LogLevel::Warn, LogLevel::Error];
    for level in levels.iter() {
        let line = compose_direct(&noon(), *level, 0, None, "m");
        let bracketed = format!("[{}]", level.as_str());
        assert_eq!(count(&line, &bracketed), 1);
        assert_eq!(line.find(&bracketed), Some(34));
        assert!(line.find(&bracketed).unwrap() < line.find("(zeam-n1)").unwrap());
    }
}
