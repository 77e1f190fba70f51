use libindigo::device::context::DeviceContext;
use libindigo::device::property_manager::{PropertyManager, PropertyUpdate};
use libindigo::device::registry::DriverRegistry;
use libindigo::device::traits::proxy::DeviceProxy;
use libindigo::device::DriverInfo;
use libindigo::error::IndigoError;
use libindigo::types::property::connection_status;
use libindigo::types::property::{Property, PropertyItem, PropertyPerm, PropertyState, PropertyType};
use libindigo::types::value::{LightState, PropertyValue, SwitchState, NUMBER_MAX_TEXT, NUMBER_MIN_TEXT};

fn item_value<'a>(p: &'a Property, name: &str) -> Option<&'a PropertyValue> {
    p.items.iter().rev().find(|i| i.name == name).map(|i| &i.value)
}

fn exposure() -> Property {
    Property::builder()
        .device("CCD Simulator")
        .name("CCD_EXPOSURE")
        .group("Camera")
        .label("Start exposure")
        .state(PropertyState::Busy)
        .perm(PropertyPerm::ReadWrite)
        .property_type(PropertyType::Number)
        .item(PropertyItem::new("EXPOSURE", "Duration (s)", PropertyValue::number("1.5")))
        .build()
}

#[test]
fn property_values() {
    assert_eq!(PropertyValue::text("abc"), PropertyValue::Text("abc".to_string()));
    assert_eq!(
        PropertyValue::number("2.5"),
        PropertyValue::Number {
            value: "2.5".to_string(),
            min: NUMBER_MIN_TEXT.to_string(),
            max: NUMBER_MAX_TEXT.to_string(),
            step: "0".to_string(),
            format: "%.2f".to_string(),
        }
    );
    assert_eq!(NUMBER_MIN_TEXT.parse::<f64>().unwrap(), f64::MIN);
    assert_eq!(NUMBER_MAX_TEXT.parse::<f64>().unwrap(), f64::MAX);
    assert_eq!(PropertyValue::switch(SwitchState::On), PropertyValue::Switch { state: SwitchState::On });
    assert_eq!(PropertyValue::light(LightState::Busy), PropertyValue::Light { state: LightState::Busy });
    match PropertyValue::blob(vec![1, 2, 3], "image/fits") {
        PropertyValue::Blob { data, format, size } => {
            assert_eq!(data, vec![1, 2, 3]);
            assert_eq!(format, "image/fits");
            assert_eq!(size, 3);
        }
        other => panic!("expected a BLOB, got {:?}", other),
    }
}

#[test]
fn property_builder_and_key() {
    let p = exposure();
    assert_eq!(p.device, "CCD Simulator");
    assert_eq!(p.name, "CCD_EXPOSURE");
    assert_eq!(p.group, "Camera");
    assert_eq!(p.label, "Start exposure");
    assert_eq!(p.state, PropertyState::Busy);
    assert_eq!(p.property_type, PropertyType::Number);
    assert_eq!(p.key(), "CCD Simulator.CCD_EXPOSURE");
    assert_eq!(p.timeout, None);

    let q = Property::builder()
        .device("D")
        .name("N")
        .property_type(PropertyType::Text)
        .item(PropertyItem::new("A", "first", PropertyValue::text("1")))
        .item(PropertyItem::new("B", "second", PropertyValue::text("2")))
        .item(PropertyItem::new("A", "again", PropertyValue::text("3")))
        .timeout("10")
        .timestamp("2024-01-01T00:00:00")
        .message("hello")
        .build();
    assert_eq!(q.group, "");
    assert_eq!(q.label, "");
    assert_eq!(q.state, PropertyState::Idle);
    assert_eq!(q.perm, PropertyPerm::ReadWrite);
    assert_eq!(q.items.len(), 2);
    assert_eq!(item_value(&q, "A"), Some(&PropertyValue::text("3")));
    assert_eq!(q.timeout.as_deref(), Some("10"));
    assert_eq!(q.timestamp.as_deref(), Some("2024-01-01T00:00:00"));
    assert_eq!(q.message.as_deref(), Some("hello"));
}

#[test]
fn manager_defines_and_refuses_duplicates() {
    let mut m = PropertyManager::new("CCD Simulator");
    assert_eq!(m.device_name(), "CCD Simulator");
    assert_eq!(m.property_count(), 0);
    assert!(m.define_property(exposure()).is_ok());
    assert!(m.has_property("CCD_EXPOSURE"));
    assert_eq!(m.get_property("CCD_EXPOSURE"), Some(&exposure()));
    match m.define_property(exposure()) {
        Err(e @ IndigoError::PropertyAlreadyExists(_)) => {
            assert_eq!(e.text(), "Property already exists: CCD_EXPOSURE")
        }
        other => panic!("unexpected {:?}", other),
    }
    assert_eq!(m.property_count(), 1);
    assert!(m.get_property("NOPE").is_none());
}

#[test]
fn manager_standard_properties() {
    let mut m = PropertyManager::new("Focuser");
    m.register_standard_connection().unwrap();
    let c = m.get_property("CONNECTION").unwrap();
    assert_eq!(c.device, "Focuser");
    assert_eq!(c.group, "Main");
    assert_eq!(c.label, "Connection");
    assert_eq!(c.state, PropertyState::Idle);
    assert_eq!(c.perm, PropertyPerm::ReadWrite);
    assert_eq!(c.property_type, PropertyType::Switch);
    assert_eq!(item_value(c, "CONNECTED"), Some(&PropertyValue::switch(SwitchState::Off)));
    assert_eq!(item_value(c, "DISCONNECTED"), Some(&PropertyValue::switch(SwitchState::On)));
    assert!(matches!(m.register_standard_connection(), Err(IndigoError::PropertyAlreadyExists(_))));

    m.register_device_info("A focuser", "1.2", 9).unwrap();
    let i = m.get_property("INFO").unwrap();
    assert_eq!(i.label, "Device Info");
    assert_eq!(i.state, PropertyState::Okay);
    assert_eq!(i.perm, PropertyPerm::ReadOnly);
    assert_eq!(i.property_type, PropertyType::Text);
    assert_eq!(item_value(i, "DEVICE_INTERFACE"), Some(&PropertyValue::text("9")));
    assert_eq!(item_value(i, "DEVICE_DESCRIPTION"), Some(&PropertyValue::text("A focuser")));
    assert_eq!(item_value(i, "DRIVER_VERSION"), Some(&PropertyValue::text("1.2")));
    assert_eq!(m.property_count(), 2);
    let names: Vec<&str> = m.properties().iter().map(|p| p.name.as_str()).collect();
    assert_eq!(names, vec!["CONNECTION", "INFO"]);
}

#[test]
fn manager_updates_queue_and_drain() {
    let mut m = PropertyManager::new("Focuser");
    m.register_standard_connection().unwrap();
    let values = vec![
        ("CONNECTED".to_string(), PropertyValue::switch(SwitchState::On)),
        ("MISSING".to_string(), PropertyValue::text("x")),
        ("DISCONNECTED".to_string(), PropertyValue::switch(SwitchState::Off)),
    ];
    m.update_property("CONNECTION", PropertyState::Okay, values.clone()).unwrap();
    let c = m.get_property("CONNECTION").unwrap();
    assert_eq!(c.state, PropertyState::Okay);
    assert_eq!(item_value(c, "CONNECTED"), Some(&PropertyValue::switch(SwitchState::On)));
    assert_eq!(item_value(c, "DISCONNECTED"), Some(&PropertyValue::switch(SwitchState::Off)));
    assert!(item_value(c, "MISSING").is_none());

    match m.update_property("NOPE", PropertyState::Alert, vec![]) {
        Err(e @ IndigoError::PropertyNotFound(_)) => assert_eq!(e.text(), "Property not found: NOPE"),
        other => panic!("unexpected {:?}", other),
    }

    let drained: Vec<PropertyUpdate> = m.drain_pending_updates();
    assert_eq!(drained.len(), 1);
    assert_eq!(drained[0].property_name, "CONNECTION");
    assert_eq!(drained[0].state, PropertyState::Okay);
    assert_eq!(drained[0].values, values);
    assert!(m.drain_pending_updates().is_empty());
}

#[test]
fn manager_mutation_and_deletion() {
    let mut m = PropertyManager::new("Mount");
    m.define_property(exposure()).unwrap();
    if let Some(p) = m.get_property_mut("CCD_EXPOSURE") {
        p.label = "Changed".to_string();
    }
    assert_eq!(m.get_property("CCD_EXPOSURE").unwrap().label, "Changed");
    assert!(m.get_property_mut("OTHER").is_none());
    assert!(m.delete_property("CCD_EXPOSURE").is_ok());
    assert!(!m.has_property("CCD_EXPOSURE"));
    assert!(matches!(m.delete_property("CCD_EXPOSURE"), Err(IndigoError::PropertyNotFound(_))));
    m.register_standard_connection().unwrap();
    m.update_property("CONNECTION", PropertyState::Busy, vec![]).unwrap();
    m.delete_all_properties();
    assert_eq!(m.property_count(), 0);
    assert!(m.drain_pending_updates().is_empty());
}

#[test]
fn context_holds_manager_and_connection() {
    let mut ctx = DeviceContext::new("Guider");
    assert!(!ctx.is_connected());
    ctx.property_manager().register_standard_connection().unwrap();
    assert!(ctx.properties().has_property("CONNECTION"));
    assert_eq!(ctx.properties().device_name(), "Guider");
    ctx.set_connected(true);
    assert!(ctx.is_connected());
}

fn info(name: &str) -> DriverInfo {
    DriverInfo {
        name: name.to_string(),
        description: format!("{} driver", name),
        version: "0.1".to_string(),
        interfaces: 1,
    }
}

#[test]
fn registry_lifecycle() {
    let mut reg: DriverRegistry<u32> = DriverRegistry::new();
    assert_eq!(reg.count(), 0);
    reg.register(7, info("CCD")).unwrap();
    reg.register(8, info("Wheel")).unwrap();
    match reg.register(9, info("CCD")) {
        Err(e @ IndigoError::DriverAlreadyRegistered(_)) => assert_eq!(e.text(), "Driver already registered: CCD"),
        other => panic!("unexpected {:?}", other),
    }
    assert!(reg.is_registered("CCD"));
    assert!(!reg.is_attached("CCD"));
    assert_eq!(reg.names(), vec!["CCD".to_string(), "Wheel".to_string()]);

    assert!(matches!(reg.detached_slot("Nope"), Err(IndigoError::DriverNotFound(_))));
    assert!(matches!(reg.attached_slot("CCD"), Err(IndigoError::DriverNotAttached(_))));
    let slot = reg.detached_slot("CCD").unwrap();
    {
        let (driver, ctx) = reg.slot_mut(slot);
        assert_eq!(*driver, 7);
        ctx.property_manager().register_standard_connection().unwrap();
    }
    assert!(reg.complete_attach(slot, Ok(())).is_ok());
    assert!(reg.is_attached("CCD"));
    assert_eq!(reg.attached_names(), vec!["CCD".to_string()]);
    assert!(matches!(reg.detached_slot("CCD"), Err(IndigoError::DriverAlreadyAttached(_))));
    match reg.unregister("CCD") {
        Err(e @ IndigoError::DriverStillAttached(_)) => assert_eq!(e.text(), "Driver still attached: CCD"),
        other => panic!("unexpected {:?}", other),
    }
    let failed = reg.complete_attach(reg.detached_slot("Wheel").unwrap(), Err(IndigoError::Other("boom".to_string())));
    assert!(matches!(failed, Err(IndigoError::Other(_))));
    assert!(!reg.is_attached("Wheel"));

    let listed = reg.list_drivers();
    assert_eq!(listed.len(), 2);
    assert_eq!(listed[0].0.name, "CCD");
    assert!(listed[0].1);
    assert_eq!(listed[1].0.description, "Wheel driver");
    assert!(!listed[1].1);

    let slot = reg.attached_slot("CCD").unwrap();
    {
        let (_, ctx) = reg.slot_mut(slot);
        assert!(ctx.properties().has_property("CONNECTION"));
    }
    reg.complete_detach(slot, Ok(())).unwrap();
    assert!(!reg.is_attached("CCD"));
    reg.unregister("CCD").unwrap();
    assert!(!reg.is_registered("CCD"));
    assert!(matches!(reg.unregister("CCD"), Err(IndigoError::DriverNotFound(_))));
    assert_eq!(reg.count(), 1);
}

#[test]
fn proxy_reads_cached_values() {
    let mut proxy = DeviceProxy::new("CCD Simulator");
    assert_eq!(proxy.device_name(), "CCD Simulator");
    assert!(!proxy.is_connected());
    assert_eq!(proxy.description(), None);
    proxy.set_description("A camera");
    proxy.set_driver_version("2.0");
    proxy.set_connected(true);
    assert_eq!(proxy.description(), Some("A camera"));
    assert_eq!(proxy.driver_version(), Some("2.0"));
    assert!(proxy.is_connected());

    proxy.cache_property(exposure());
    let p = Property::builder()
        .device("CCD Simulator")
        .name("MIXED")
        .property_type(PropertyType::Text)
        .item(PropertyItem::new("T", "text", PropertyValue::text("hello")))
        .item(PropertyItem::new("S", "switch", PropertyValue::switch(SwitchState::On)))
        .item(PropertyItem::new("B", "blob", PropertyValue::blob(vec![9, 8], ".fits")))
        .build();
    proxy.cache_property(p);

    assert_eq!(proxy.get_number("CCD_EXPOSURE", "EXPOSURE").unwrap(), "1.5");
    assert_eq!(proxy.get_text("MIXED", "T").unwrap(), "hello");
    assert!(proxy.get_switch("MIXED", "S").unwrap());
    assert_eq!(proxy.get_blob("MIXED", "B").unwrap(), (vec![9, 8], ".fits".to_string()));
    assert_eq!(proxy.get_number("MIXED", "T").unwrap_err().text(), "Invalid parameter: Property MIXED.T is not a number");
    assert_eq!(proxy.get_text("MIXED", "S").unwrap_err().text(), "Invalid parameter: Property MIXED.S is not text");
    assert_eq!(proxy.get_switch("MIXED", "B").unwrap_err().text(), "Invalid parameter: Property MIXED.B is not a switch");
    assert_eq!(proxy.get_blob("MIXED", "T").unwrap_err().text(), "Invalid parameter: Property MIXED.T is not a BLOB");
    assert_eq!(proxy.get_text("MIXED", "X").unwrap_err().text(), "Property not found: MIXED.X");
    assert_eq!(proxy.get_text("NONE", "T").unwrap_err().text(), "Property not found: NONE.T");

    let replacement = Property::builder()
        .device("CCD Simulator")
        .name("MIXED")
        .property_type(PropertyType::Switch)
        .item(PropertyItem::new("S", "switch", PropertyValue::switch(SwitchState::Off)))
        .build();
    proxy.cache_property(replacement);
    assert!(!proxy.get_switch("MIXED", "S").unwrap());
    assert!(proxy.get_property_item("MIXED", "T").is_none());
    assert!(proxy.get_cached_property("CCD_EXPOSURE").is_some());
    proxy.clear_cache();
    assert!(proxy.get_cached_property("CCD_EXPOSURE").is_none());
}

#[test]
fn connection_status_from_connection_property() {
    assert_eq!(connection_status(None), Err(PropertyState::Alert));
    let mut m = PropertyManager::new("Mount");
    m.register_standard_connection().unwrap();
    // the standard property starts idle
    assert_eq!(connection_status(m.get_property("CONNECTION")), Err(PropertyState::Idle));
    m.update_property("CONNECTION", PropertyState::Okay, vec![]).unwrap();
    assert_eq!(connection_status(m.get_property("CONNECTION")), Ok(false));
    m.update_property(
        "CONNECTION",
        PropertyState::Okay,
        vec![
            ("CONNECTED".to_string(), PropertyValue::switch(SwitchState::On)),
            ("DISCONNECTED".to_string(), PropertyValue::switch(SwitchState::Off)),
        ],
    )
    .unwrap();
    assert_eq!(connection_status(m.get_property("CONNECTION")), Ok(true));
    let odd = Property::builder()
        .device("Mount")
        .name("CONNECTION")
        .state(PropertyState::Okay)
        .property_type(PropertyType::Text)
        .item(PropertyItem::new("OTHER", "other", PropertyValue::switch(SwitchState::On)))
        .item(PropertyItem::new("CONNECTED", "connected", PropertyValue::text("yes")))
        .build();
    assert_eq!(connection_status(Some(&odd)), Err(PropertyState::Alert));
    let none = Property::builder()
        .device("Mount")
        .name("CONNECTION")
        .state(PropertyState::Okay)
        .property_type(PropertyType::Switch)
        .build();
    assert_eq!(connection_status(Some(&none)), Err(PropertyState::Alert));
}

#[test]
fn registry_keeps_each_driver_under_its_name() {
    let mut reg: DriverRegistry<&str> = DriverRegistry::new();
    reg.register("first", info("A")).unwrap();
    reg.register("second", info("B")).unwrap();
    let a = reg.detached_slot("A").unwrap();
    assert_eq!(*reg.slot_mut(a).0, "first");
    let b = reg.detached_slot("B").unwrap();
    assert_eq!(*reg.slot_mut(b).0, "second");
    assert_eq!(reg.count(), 2);
    reg.unregister("A").unwrap();
    assert_eq!(reg.count(), 1);
}
