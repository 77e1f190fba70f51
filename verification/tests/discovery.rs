use libindigo::discovery::{
    DiscoveredServer, DiscoveryError, ServerDiscovery, ServerDiscoveryApi, ServiceAnnouncement,
};
use libindigo::error::IndigoError;
use std::collections::HashMap;
use std::time::SystemTime;

#[test]
fn test_discovered_server_url() {
    let server = DiscoveredServer {
        id: "test-id".to_string(),
        name: "Test Server".to_string(),
        host: "192.168.1.100".to_string(),
        port: 7624,
        addresses: vec![],
        txt_records: HashMap::new(),
        discovered_at: SystemTime::now(),
    };

    assert_eq!(server.url(), "192.168.1.100:7624");
    assert_eq!(server.service_id(), "test-id");
}

#[test]
fn test_service_announcement_builder() {
    let announcement = ServiceAnnouncement::new("Test Server", 7624)
        .with_property("version", "2.0")
        .with_property("devices", "3");

    assert_eq!(announcement.name, "Test Server");
    assert_eq!(announcement.port, 7624);
    assert_eq!(announcement.properties.len(), 2);
    assert_eq!(announcement.property("version"), Some("2.0".to_string()));
    assert_eq!(announcement.property("devices"), Some("3".to_string()));
}

#[test]
fn announcement_property_replaced() {
    let a = ServiceAnnouncement::new("S", 1)
        .with_property("version", "1.0")
        .with_property("version", "2.0");
    assert_eq!(a.properties.len(), 1);
    assert_eq!(a.property("version"), Some("2.0".to_string()));
    assert_eq!(a.property("missing"), None);
}

#[test]
fn discovery_errors_map_to_library_errors() {
    let e: IndigoError = DiscoveryError::NoServersFound.into();
    match e {
        IndigoError::Timeout(m) => assert_eq!(m, "No INDIGO servers discovered"),
        other => panic!("unexpected {:?}", other),
    }
    let e: IndigoError = DiscoveryError::PlatformError("avahi".to_string()).into();
    match e {
        IndigoError::ConnectionError(m) => assert_eq!(m, "avahi"),
        other => panic!("unexpected {:?}", other),
    }
    assert_eq!(DiscoveryError::Timeout("5s".to_string()).text(), "Discovery timeout: 5s");
    assert_eq!(DiscoveryError::NoServersFound.text(), "No INDIGO servers found");
}

#[test]
fn discovery_without_mdns_is_not_supported() {
    match ServerDiscoveryApi::unsupported() {
        IndigoError::NotSupported(m) => assert!(m.contains("'auto' feature flag")),
        other => panic!("unexpected {:?}", other),
    }
    assert!(ServerDiscovery {}.servers().is_empty());
}
