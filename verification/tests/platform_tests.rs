use jade_engine::mock_platform::MockPlatform;
use jade_engine::platform::{PlatformError, PlatformKind};

#[test]
fn kind_labels() {
    assert_eq!(PlatformKind::Virtual.label(), "Virtual Platform (Mock)");
    assert_eq!(PlatformKind::RealWindows.label(), "Windows (Real)");
    assert_eq!(PlatformKind::RealLinux.label(), "Linux (Real)");
}

#[test]
fn kind_labels_are_distinct() {
    assert_ne!(PlatformKind::Virtual.label(), PlatformKind::RealWindows.label());
    assert_ne!(PlatformKind::RealWindows.label(), PlatformKind::RealLinux.label());
    assert_ne!(PlatformKind::Virtual.label(), PlatformKind::RealLinux.label());
}

#[test]
fn error_display_text() {
    let e = PlatformError("frame count must be > 0".to_string());
    assert_eq!(e.to_string(), "Platform error: frame count must be > 0");
    let empty = PlatformError(String::new());
    assert_eq!(empty.to_string(), "Platform error: ");
    assert_eq!(e.clone().0, e.0);
}

#[test]
fn mock_identity() {
    let p = MockPlatform::new();
    assert_eq!(p.platform_name().unwrap(), "Mock Virtual Platform");
    assert_eq!(p.system_version().unwrap(), "v0.1.0-simulated");
    assert_eq!(p.cpu_core_count().unwrap(), 4);
    assert_eq!(p.platform_kind(), PlatformKind::Virtual);
    let d = MockPlatform::default();
    assert_eq!(d.cpu_core_count().unwrap(), 4);
}

#[test]
fn mock_frame_count_check() {
    let p = MockPlatform::new();
    let err = p.check_frame_count(0).unwrap_err();
    assert_eq!(err.0, "frame count must be > 0");
    assert_eq!(err.to_string(), "Platform error: frame count must be > 0");
    assert!(p.check_frame_count(1).is_ok());
    assert!(p.check_frame_count(10).is_ok());
    assert!(p.check_frame_count(u32::MAX).is_ok());
}
