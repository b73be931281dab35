//! Levels and channel readings.

use slog_dtrace::level::{Channels, LevelTag};

const LEVELS: [LevelTag; 6] = [
    LevelTag::Trace,
    LevelTag::Debug,
    LevelTag::Info,
    LevelTag::Warn,
    LevelTag::Error,
    LevelTag::Critical,
];

#[test]
fn level_names_are_the_payload_names() {
    assert_eq!(LevelTag::Trace.as_str(), "TRACE");
    assert_eq!(LevelTag::Debug.as_str(), "DEBUG");
    assert_eq!(LevelTag::Info.as_str(), "INFO");
    assert_eq!(LevelTag::Warn.as_str(), "WARN");
    assert_eq!(LevelTag::Error.as_str(), "ERROR");
    assert_eq!(LevelTag::Critical.as_str(), "CRITICAL");
}

#[test]
fn severity_rises_from_trace_to_critical() {
    let ranks: Vec<u8> = LEVELS.iter().map(|level| level.severity()).collect();
    assert_eq!(ranks, vec![0, 1, 2, 3, 4, 5]);
}

#[test]
fn is_at_least_follows_severity() {
    for (i, a) in LEVELS.iter().enumerate() {
        for (j, b) in LEVELS.iter().enumerate() {
            assert_eq!(a.is_at_least(*b), i >= j);
        }
    }
    assert!(LevelTag::Warn.is_at_least(LevelTag::Warn));
    assert!(LevelTag::Error.is_at_least(LevelTag::Warn));
    assert!(!LevelTag::Info.is_at_least(LevelTag::Warn));
}

#[test]
fn no_channel_is_enabled_in_none() {
    let channels = Channels::none();
    for level in LEVELS {
        assert!(!channels.is_enabled(level));
    }
}

#[test]
fn every_channel_is_enabled_in_all() {
    let channels = Channels::all();
    for level in LEVELS {
        assert!(channels.is_enabled(level));
    }
}

#[test]
fn only_enables_one_channel() {
    for chosen in LEVELS {
        let channels = Channels::only(chosen);
        for level in LEVELS {
            assert_eq!(channels.is_enabled(level), level == chosen);
        }
    }
}

#[test]
fn with_changes_one_channel_and_keeps_the_rest() {
    let before = Channels::only(LevelTag::Debug);
    let after = before.with(LevelTag::Error, true);
    assert!(after.is_enabled(LevelTag::Error));
    assert!(after.is_enabled(LevelTag::Debug));
    for level in [LevelTag::Trace, LevelTag::Info, LevelTag::Warn, LevelTag::Critical] {
        assert!(!after.is_enabled(level));
    }
    let off = after.with(LevelTag::Debug, false);
    assert_eq!(off, Channels::only(LevelTag::Error));
}

#[test]
fn each_level_reads_its_own_field() {
    let channels = Channels {
        trace: true,
        debug: false,
        info: true,
        warn: false,
        error: true,
        critical: false,
    };
    assert!(channels.is_enabled(LevelTag::Trace));
    assert!(!channels.is_enabled(LevelTag::Debug));
    assert!(channels.is_enabled(LevelTag::Info));
    assert!(!channels.is_enabled(LevelTag::Warn));
    assert!(channels.is_enabled(LevelTag::Error));
    assert!(!channels.is_enabled(LevelTag::Critical));
}

#[test]
fn from_name_reads_the_payload_names() {
    for level in LEVELS {
        assert_eq!(LevelTag::from_name(level.as_str()), Some(level));
    }
    assert_eq!(LevelTag::from_name("WARN"), Some(LevelTag::Warn));
    assert_eq!(LevelTag::from_name("CRITICAL"), Some(LevelTag::Critical));
}

#[test]
fn from_name_refuses_what_is_no_level() {
    assert_eq!(LevelTag::from_name("WARNING"), None);
    assert_eq!(LevelTag::from_name("warn"), None);
    assert_eq!(LevelTag::from_name(""), None);
    assert_eq!(LevelTag::from_name("OFF"), None);
    assert_eq!(LevelTag::from_name("TRACE "), None);
}
