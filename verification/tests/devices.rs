use libindigo::device::traits::camera::{BinningMode, FrameType};
use libindigo::device::traits::guider::{GuideDirection, GuidePulse};
use libindigo::device::DeviceInterface;
use libindigo::client::monitoring::{AvailabilityStatus, ClientEvent};
use libindigo::logging::{filter_directives, LogConfig, LogLevel};

#[test]
fn combine_interfaces() {
    assert_eq!(DeviceInterface::combine(&[]), 0);
    assert_eq!(
        DeviceInterface::combine(&[DeviceInterface::Ccd, DeviceInterface::Guider]),
        1 | 16
    );
    assert_eq!(
        DeviceInterface::combine(&[DeviceInterface::Mount, DeviceInterface::Mount, DeviceInterface::General]),
        8
    );
    assert_eq!(DeviceInterface::PowerBoard.bits(), 1 << 12);
    // a bit is set exactly for the interfaces in the list
    let mask = DeviceInterface::combine(&[DeviceInterface::Ccd, DeviceInterface::Guider]);
    assert!(mask & DeviceInterface::Ccd.bits() != 0);
    assert!(mask & DeviceInterface::Guider.bits() != 0);
    assert_eq!(mask & DeviceInterface::Mount.bits(), 0);
    assert_eq!(mask & DeviceInterface::FilterWheel.bits(), 0);
}

#[test]
fn camera_and_guider_values() {
    assert_eq!(BinningMode::symmetric(2), BinningMode::new(2, 2));
    assert_eq!(BinningMode::default(), BinningMode::new(1, 1));
    assert_eq!(FrameType::Dark.text(), "FRAME_DARK");
    let p = GuidePulse::new(GuideDirection::East, 250);
    assert_eq!(p.direction, GuideDirection::East);
    assert_eq!(p.duration_ms, 250);
}

#[test]
fn monitoring_events() {
    assert_eq!(AvailabilityStatus::default(), AvailabilityStatus::Unavailable);
    assert_eq!(AvailabilityStatus::Degraded.text(), "Degraded");
    assert_eq!(ClientEvent::from_status(AvailabilityStatus::Available), ClientEvent::ServerAvailable);
    assert_eq!(ClientEvent::from_status(AvailabilityStatus::Unavailable), ClientEvent::ServerUnavailable);
}

#[test]
fn logging_configuration() {
    let c = LogConfig::default();
    assert_eq!(c.level, LogLevel::Info);
    assert!(c.log_file.is_none());
    let c = c.with_level(LogLevel::Trace).with_log_file(std::path::PathBuf::from("/tmp/x.log"));
    assert_eq!(c.level, LogLevel::Trace);
    assert_eq!(c.log_file, Some(std::path::PathBuf::from("/tmp/x.log")));
    assert_eq!(
        filter_directives(LogLevel::Warn),
        "libindigo=warn,libindigo_rs=warn,libindigo_ffi=warn"
    );
}
