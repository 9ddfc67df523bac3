use jade_engine::logger::{LogEntry, LogLevel, Logger};

fn is_clock_shaped(s: &str) -> bool {
    let b = s.as_bytes();
    if b.len() != 12 || b[2] != b':' || b[5] != b':' || b[8] != b'.' {
        return false;
    }
    for (i, c) in b.iter().enumerate() {
        if i != 2 && i != 5 && i != 8 && !c.is_ascii_digit() {
            return false;
        }
    }
    let hours = (b[0] - b'0') * 10 + (b[1] - b'0');
    hours < 24 && b[3] < b'6' && b[6] < b'6'
}

#[test]
fn level_labels() {
    assert_eq!(LogLevel::Info.label(), "INFO");
    assert_eq!(LogLevel::Warn.label(), "WARN");
    assert_eq!(LogLevel::Error.label(), "ERROR");
}

#[test]
fn level_labels_are_distinct() {
    let labels = [LogLevel::Info.label(), LogLevel::Warn.label(), LogLevel::Error.label()];
    assert_ne!(labels[0], labels[1]);
    assert_ne!(labels[1], labels[2]);
    assert_ne!(labels[0], labels[2]);
}

#[test]
fn new_logger_is_empty_and_shows_everything() {
    let logger = Logger::new();
    assert!(logger.entries().is_empty());
    assert!(logger.show_timestamp());
    assert!(logger.show_level());
}

#[test]
fn default_equals_new() {
    let logger = Logger::default();
    assert!(logger.entries().is_empty());
    assert!(logger.show_timestamp());
    assert!(logger.show_level());
}

#[test]
fn log_appends_in_order() {
    let mut logger = Logger::new();
    logger.info("first");
    logger.warn("second");
    logger.error("third");
    logger.log(LogLevel::Warn, "fourth");
    let entries = logger.entries();
    assert_eq!(entries.len(), 4);
    assert_eq!(entries[0].level, LogLevel::Info);
    assert_eq!(entries[0].message, "first");
    assert_eq!(entries[1].level, LogLevel::Warn);
    assert_eq!(entries[1].message, "second");
    assert_eq!(entries[2].level, LogLevel::Error);
    assert_eq!(entries[2].message, "third");
    assert_eq!(entries[3].level, LogLevel::Warn);
    assert_eq!(entries[3].message, "fourth");
}

#[test]
fn log_stamps_a_time_of_day() {
    let mut logger = Logger::new();
    logger.info("tick");
    logger.error("");
    for e in logger.entries() {
        assert!(is_clock_shaped(&e.timestamp), "bad timestamp {:?}", e.timestamp);
    }
    assert_eq!(logger.entries()[1].message, "");
}

#[test]
fn log_at_formats_the_clock() {
    let mut logger = Logger::new();
    logger.log_at(LogLevel::Info, "a", 0, 0);
    logger.log_at(LogLevel::Warn, "b", 3661, 5);
    logger.log_at(LogLevel::Error, "c", 86399, 999);
    logger.log_at(LogLevel::Info, "d", 86400 + 45296, 120);
    logger.log_at(LogLevel::Info, "e", u64::MAX, 42);
    let e = logger.entries();
    assert_eq!(e[0].timestamp, "00:00:00.000");
    assert_eq!(e[1].timestamp, "01:01:01.005");
    assert_eq!(e[2].timestamp, "23:59:59.999");
    assert_eq!(e[3].timestamp, "12:34:56.120");
    // u64::MAX % 86400 == 25215 -> 07:00:15
    assert_eq!(e[4].timestamp, "07:00:15.042");
    assert_eq!(e[1].level, LogLevel::Warn);
    assert_eq!(e[1].message, "b");
}

#[test]
fn clock_repeats_daily() {
    let mut logger = Logger::new();
    logger.log_at(LogLevel::Info, "x", 1000, 7);
    logger.log_at(LogLevel::Info, "x", 1000 + 86400, 7);
    let e = logger.entries();
    assert_eq!(e[0].timestamp, e[1].timestamp);
}

#[test]
fn clear_empties_and_keeps_switches() {
    let mut logger = Logger::new();
    logger.set_show_level(false);
    logger.info("one");
    logger.info("two");
    logger.clear();
    assert!(logger.entries().is_empty());
    assert!(logger.show_timestamp());
    assert!(!logger.show_level());
    logger.warn("after");
    assert_eq!(logger.entries().len(), 1);
    assert_eq!(logger.entries()[0].message, "after");
}

#[test]
fn switches_read_back() {
    let mut logger = Logger::new();
    logger.info("kept");
    logger.set_show_timestamp(false);
    assert!(!logger.show_timestamp());
    assert!(logger.show_level());
    logger.set_show_level(false);
    assert!(!logger.show_level());
    assert!(!logger.show_timestamp());
    logger.set_show_timestamp(true);
    assert!(logger.show_timestamp());
    assert_eq!(logger.entries().len(), 1);
    assert_eq!(logger.entries()[0].message, "kept");
}

#[test]
fn render_under_each_switch_setting() {
    let mut logger = Logger::new();
    logger.log_at(LogLevel::Warn, "disk low", 3661, 5);
    let entry: LogEntry = logger.entries()[0].clone();
    assert_eq!(logger.render_entry(&entry), "[01:01:01.005] [WARN] disk low");
    logger.set_show_timestamp(false);
    assert_eq!(logger.render_entry(&entry), "[WARN] disk low");
    logger.set_show_level(false);
    assert_eq!(logger.render_entry(&entry), "disk low");
    logger.set_show_timestamp(true);
    assert_eq!(logger.render_entry(&entry), "[01:01:01.005] disk low");
}

#[test]
fn clone_keeps_the_entry() {
    let mut logger = Logger::new();
    logger.log_at(LogLevel::Error, "boom", 59, 1);
    let original = &logger.entries()[0];
    let copy = original.clone();
    assert_eq!(copy.timestamp, original.timestamp);
    assert_eq!(copy.level, original.level);
    assert_eq!(copy.message, original.message);
}

#[test]
fn state_after_a_sequence_of_calls() {
    let mut logger = Logger::default();
    logger.info("a");
    logger.set_show_level(false);
    logger.clear();
    logger.warn("b");
    logger.set_show_timestamp(false);
    logger.error("c");
    logger.set_show_timestamp(true);
    logger.log(LogLevel::Info, "d");
    logger.set_show_timestamp(false);
    let e = logger.entries();
    assert_eq!(e.len(), 3);
    assert_eq!((e[0].level, e[0].message.as_str()), (LogLevel::Warn, "b"));
    assert_eq!((e[1].level, e[1].message.as_str()), (LogLevel::Error, "c"));
    assert_eq!((e[2].level, e[2].message.as_str()), (LogLevel::Info, "d"));
    assert!(!logger.show_timestamp());
    assert!(!logger.show_level());

    let fresh = Logger::new();
    assert!(fresh.show_timestamp());
    assert!(fresh.show_level());
}
