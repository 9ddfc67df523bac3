use jade_engine::editor::EditorConsole;
use jade_engine::logger::LogLevel;
use jade_engine::platform::{PlatformError, PlatformKind};

#[test]
fn startup_log() {
    let c = EditorConsole::new(PlatformKind::Virtual);
    let e = c.logger().entries();
    assert_eq!(e.len(), 4);
    assert_eq!(e[0].message, "Jade Engine MVP starting up...");
    assert_eq!(e[1].message, "Loading Mock virtual platform adapter...");
    assert_eq!(e[2].message, "Platform backend initialized: Virtual Platform (Mock)");
    assert_eq!(e[3].message, "PAL abstraction layer ready.");
    assert!(e.iter().all(|x| x.level == LogLevel::Info));
    assert_eq!(c.last_result(), "(no test executed yet)");
    assert!(c.last_result_ok());
    assert!(!c.auto_refresh_time());
    assert!(c.logger().show_timestamp());
    assert!(c.logger().show_level());
}

#[test]
fn startup_log_names_the_backend() {
    let c = EditorConsole::new(PlatformKind::RealLinux);
    assert_eq!(c.logger().entries()[2].message, "Platform backend initialized: Linux (Real)");
}

#[test]
fn successful_call_is_shown_and_logged() {
    let mut c = EditorConsole::new(PlatformKind::Virtual);
    c.run_platform_test("platform_name", Ok("Mock Virtual Platform".to_string()));
    assert_eq!(c.last_result(), "Mock Virtual Platform");
    assert!(c.last_result_ok());
    let e = c.logger().entries();
    assert_eq!(e.len(), 5);
    assert_eq!(e[4].level, LogLevel::Info);
    assert_eq!(e[4].message, "platform_name => Mock Virtual Platform");
}

#[test]
fn failed_call_is_shown_and_logged() {
    let mut c = EditorConsole::new(PlatformKind::Virtual);
    c.run_platform_test(
        "frame_interval_sample",
        Err(PlatformError("frame count must be > 0".to_string())),
    );
    assert_eq!(c.last_result(), "Platform error: frame count must be > 0");
    assert!(!c.last_result_ok());
    let e = c.logger().entries();
    assert_eq!(e.len(), 5);
    assert_eq!(e[4].level, LogLevel::Error);
    assert_eq!(
        e[4].message,
        "frame_interval_sample failed: Platform error: frame count must be > 0"
    );
    c.run_platform_test("cpu_core_count", Ok("4".to_string()));
    assert!(c.last_result_ok());
    assert_eq!(c.last_result(), "4");
}

#[test]
fn auto_refresh_switch_and_result() {
    let mut c = EditorConsole::new(PlatformKind::Virtual);
    c.run_platform_test("x", Err(PlatformError("no".to_string())));
    c.set_auto_refresh_time(true);
    assert!(c.auto_refresh_time());
    c.record_auto_refresh("1.500000s (auto)".to_string());
    assert_eq!(c.last_result(), "1.500000s (auto)");
    assert!(c.last_result_ok());
    assert_eq!(c.logger().entries().len(), 5);
    c.set_auto_refresh_time(false);
    assert!(!c.auto_refresh_time());
}

#[test]
fn logger_mut_writes_through() {
    let mut c = EditorConsole::new(PlatformKind::Virtual);
    c.logger_mut().warn("User-triggered WARN log entry.");
    c.logger_mut().set_show_level(false);
    assert_eq!(c.logger().entries().len(), 5);
    assert!(!c.logger().show_level());
    c.logger_mut().clear();
    assert!(c.logger().entries().is_empty());
    assert_eq!(c.last_result(), "(no test executed yet)");
}
