use libindigo::error::IndigoError;
use libindigo::strategies::rs::protocol::{
    BLOBEnable, DefBLOB, DefBLOBVector, DefLight, DefLightVector, DefNumber, DefNumberVector,
    DefSwitch, DefSwitchVector, DefText, DefTextVector, DelProperty, EnableBLOB, GetProperties,
    Message, NewBLOBVector, NewNumberVector, NewSwitchVector, NewTextVector, NewVectorAttributes,
    OneBLOB, OneLight, OneNumber, OneSwitch, OneText, PropertyPerm, PropertyState,
    ProtocolMessage, ProtocolParser, ProtocolSerializer, SetBLOBVector, SetLightVector,
    SetNumberVector, SetSwitchVector, SetTextVector, SetVectorAttributes, SwitchRule,
    SwitchState, VectorAttributes,
};
use libindigo::strategies::rs::xml::{XmlAttr, XmlEvent, XmlTag};

fn parse_error(r: Result<ProtocolMessage, IndigoError>) -> String {
    match r {
        Err(IndigoError::ParseError(m)) => m,
        other => panic!("expected a parse error, got {:?}", other),
    }
}

fn roundtrip(m: ProtocolMessage) {
    let xml = ProtocolSerializer::serialize(&m).unwrap();
    let parsed = ProtocolParser::parse_message(&xml).unwrap();
    assert_eq!(m, parsed);
}

fn vector_attrs() -> VectorAttributes {
    VectorAttributes {
        device: "CCD".to_string(),
        name: "PROP".to_string(),
        label: "Label".to_string(),
        group: "Main".to_string(),
        state: PropertyState::Busy,
        timeout: Some("5".to_string()),
        timestamp: Some("2024-01-01T00:00:00".to_string()),
        message: Some("hello".to_string()),
    }
}

fn set_attrs() -> SetVectorAttributes {
    SetVectorAttributes {
        device: "CCD".to_string(),
        name: "PROP".to_string(),
        state: Some(PropertyState::Alert),
        timeout: None,
        timestamp: None,
        message: Some("m".to_string()),
    }
}

fn new_attrs() -> NewVectorAttributes {
    NewVectorAttributes {
        device: "CCD".to_string(),
        name: "PROP".to_string(),
        timestamp: Some("t".to_string()),
    }
}

#[test]
fn test_parse_get_properties() {
    let xml = b"<getProperties version=\"1.7\" device=\"CCD Simulator\"/>";
    let msg = ProtocolParser::parse_message(xml).unwrap();

    match msg {
        ProtocolMessage::GetProperties(gp) => {
            assert_eq!(gp.version, Some("1.7".to_string()));
            assert_eq!(gp.device, Some("CCD Simulator".to_string()));
            assert_eq!(gp.name, None);
        }
        _ => panic!("Expected GetProperties"),
    }
}

#[test]
fn test_serialize_get_properties() {
    let msg = ProtocolMessage::GetProperties(GetProperties {
        version: Some("1.7".to_string()),
        device: Some("CCD Simulator".to_string()),
        name: None,
    });

    let xml = ProtocolSerializer::serialize(&msg).unwrap();
    let xml_str = String::from_utf8(xml).unwrap();

    assert!(xml_str.contains("getProperties"));
    assert!(xml_str.contains("version=\"1.7\""));
    assert!(xml_str.contains("device=\"CCD Simulator\""));
}

#[test]
fn test_parse_def_text_vector() {
    let xml = b"<defTextVector device=\"CCD Simulator\" name=\"INFO\" state=\"Idle\" perm=\"ro\">
            <defText name=\"MAKE\">Acme</defText>
        </defTextVector>";

    let msg = ProtocolParser::parse_message(xml).unwrap();

    match msg {
        ProtocolMessage::DefTextVector(dtv) => {
            assert_eq!(dtv.attrs.device, "CCD Simulator");
            assert_eq!(dtv.attrs.name, "INFO");
            assert_eq!(dtv.attrs.state, PropertyState::Idle);
            assert_eq!(dtv.perm, PropertyPerm::ReadOnly);
            assert_eq!(dtv.elements.len(), 1);
            assert_eq!(dtv.elements[0].name, "MAKE");
            assert_eq!(dtv.elements[0].value, "Acme");
        }
        _ => panic!("Expected DefTextVector"),
    }
}

#[test]
fn test_parse_new_switch_vector() {
    let xml = b"<newSwitchVector device=\"Telescope Simulator\" name=\"POWER\">
            <oneSwitch name=\"ON\">On</oneSwitch>
        </newSwitchVector>";

    let msg = ProtocolParser::parse_message(xml).unwrap();

    match msg {
        ProtocolMessage::NewSwitchVector(nsv) => {
            assert_eq!(nsv.attrs.device, "Telescope Simulator");
            assert_eq!(nsv.attrs.name, "POWER");
            assert_eq!(nsv.elements.len(), 1);
            assert_eq!(nsv.elements[0].name, "ON");
            assert_eq!(nsv.elements[0].value, SwitchState::On);
        }
        _ => panic!("Expected NewSwitchVector"),
    }
}

#[test]
fn test_roundtrip_def_number_vector() {
    let original = ProtocolMessage::DefNumberVector(DefNumberVector {
        attrs: VectorAttributes {
            device: "Mount".to_string(),
            name: "EQUATORIAL_EOD_COORD".to_string(),
            label: "Coordinates".to_string(),
            group: "Main".to_string(),
            state: PropertyState::Okay,
            timeout: Some(60.0f64.to_string()),
            timestamp: None,
            message: None,
        },
        perm: PropertyPerm::ReadWrite,
        elements: vec![DefNumber {
            name: "RA".to_string(),
            label: "RA (hh:mm:ss)".to_string(),
            format: "%010.6m".to_string(),
            min: 0.0f64.to_string(),
            max: 24.0f64.to_string(),
            step: 0.0f64.to_string(),
            value: 12.5f64.to_string(),
        }],
    });

    let xml = ProtocolSerializer::serialize(&original).unwrap();
    let parsed = ProtocolParser::parse_message(&xml).unwrap();

    assert_eq!(original, parsed);
}

#[test]
fn serialize_def_text_vector_exact_text() {
    let msg = ProtocolMessage::DefTextVector(DefTextVector {
        attrs: VectorAttributes {
            device: "D".to_string(),
            name: "N".to_string(),
            label: String::new(),
            group: "G".to_string(),
            state: PropertyState::Okay,
            timeout: None,
            timestamp: None,
            message: None,
        },
        perm: PropertyPerm::ReadWrite,
        elements: vec![
            DefText { name: "A".to_string(), label: String::new(), value: "x<y".to_string() },
            DefText { name: "B".to_string(), label: "L\"".to_string(), value: String::new() },
        ],
    });
    let xml = String::from_utf8(ProtocolSerializer::serialize(&msg).unwrap()).unwrap();
    assert_eq!(
        xml,
        "<defTextVector device=\"D\" name=\"N\" group=\"G\" state=\"Ok\" perm=\"rw\">\
         <defText name=\"A\">x&lt;y</defText>\
         <defText name=\"B\" label=\"L&quot;\"></defText></defTextVector>"
    );
}

#[test]
fn serialize_control_messages_exact_text() {
    let m = ProtocolMessage::EnableBLOB(EnableBLOB {
        device: "CCD".to_string(),
        name: None,
        value: BLOBEnable::Also,
    });
    let xml = String::from_utf8(ProtocolSerializer::serialize(&m).unwrap()).unwrap();
    assert_eq!(xml, "<enableBLOB device=\"CCD\">Also</enableBLOB>");

    let m = ProtocolMessage::DelProperty(DelProperty {
        device: "CCD".to_string(),
        name: Some("P".to_string()),
        timestamp: None,
        message: Some("gone".to_string()),
    });
    let xml = String::from_utf8(ProtocolSerializer::serialize(&m).unwrap()).unwrap();
    assert_eq!(xml, "<delProperty device=\"CCD\" name=\"P\" message=\"gone\"/>");

    let m = ProtocolMessage::Message(Message { device: None, timestamp: None, message: None });
    let xml = String::from_utf8(ProtocolSerializer::serialize(&m).unwrap()).unwrap();
    assert_eq!(xml, "<message/>");
}

#[test]
fn serialize_blob_size_as_decimal() {
    let m = ProtocolMessage::SetBLOBVector(SetBLOBVector {
        attrs: set_attrs(),
        elements: vec![OneBLOB {
            name: "IMG".to_string(),
            size: 1024,
            format: ".fits".to_string(),
            value: "AAAA".to_string(),
        }],
    });
    let xml = String::from_utf8(ProtocolSerializer::serialize(&m).unwrap()).unwrap();
    assert_eq!(
        xml,
        "<setBLOBVector device=\"CCD\" name=\"PROP\" state=\"Alert\" message=\"m\">\
         <oneBLOB name=\"IMG\" size=\"1024\" format=\".fits\">AAAA</oneBLOB></setBLOBVector>"
    );
}

#[test]
fn roundtrip_every_message_kind() {
    roundtrip(ProtocolMessage::DefTextVector(DefTextVector {
        attrs: vector_attrs(),
        perm: PropertyPerm::WriteOnly,
        elements: vec![DefText { name: "T".to_string(), label: "L".to_string(), value: "v".to_string() }],
    }));
    roundtrip(ProtocolMessage::DefSwitchVector(DefSwitchVector {
        attrs: vector_attrs(),
        perm: PropertyPerm::ReadWrite,
        rule: SwitchRule::AtMostOne,
        elements: vec![
            DefSwitch { name: "A".to_string(), label: String::new(), value: SwitchState::On },
            DefSwitch { name: "B".to_string(), label: "b".to_string(), value: SwitchState::Off },
        ],
    }));
    roundtrip(ProtocolMessage::DefLightVector(DefLightVector {
        attrs: vector_attrs(),
        elements: vec![DefLight { name: "L".to_string(), label: String::new(), value: PropertyState::Alert }],
    }));
    roundtrip(ProtocolMessage::DefBLOBVector(DefBLOBVector {
        attrs: vector_attrs(),
        perm: PropertyPerm::ReadOnly,
        elements: vec![DefBLOB { name: "B".to_string(), label: "Blob".to_string() }],
    }));
    roundtrip(ProtocolMessage::SetTextVector(SetTextVector {
        attrs: set_attrs(),
        elements: vec![OneText { name: "T".to_string(), value: "text".to_string() }],
    }));
    roundtrip(ProtocolMessage::SetNumberVector(SetNumberVector {
        attrs: set_attrs(),
        elements: vec![OneNumber { name: "N".to_string(), value: "-1.5e3".to_string() }],
    }));
    roundtrip(ProtocolMessage::SetSwitchVector(SetSwitchVector {
        attrs: set_attrs(),
        elements: vec![OneSwitch { name: "S".to_string(), value: SwitchState::Off }],
    }));
    roundtrip(ProtocolMessage::SetLightVector(SetLightVector {
        attrs: set_attrs(),
        elements: vec![OneLight { name: "L".to_string(), value: PropertyState::Idle }],
    }));
    roundtrip(ProtocolMessage::NewTextVector(NewTextVector {
        attrs: new_attrs(),
        elements: vec![OneText { name: "T".to_string(), value: "x".to_string() }],
    }));
    roundtrip(ProtocolMessage::NewNumberVector(NewNumberVector {
        attrs: new_attrs(),
        elements: vec![OneNumber { name: "N".to_string(), value: "42".to_string() }],
    }));
    roundtrip(ProtocolMessage::NewSwitchVector(NewSwitchVector {
        attrs: new_attrs(),
        elements: vec![OneSwitch { name: "S".to_string(), value: SwitchState::On }],
    }));
    roundtrip(ProtocolMessage::NewBLOBVector(NewBLOBVector {
        attrs: new_attrs(),
        elements: vec![OneBLOB { name: "B".to_string(), size: 3, format: ".raw".to_string(), value: "abc".to_string() }],
    }));
    roundtrip(ProtocolMessage::GetProperties(GetProperties {
        version: Some("1.7".to_string()),
        device: None,
        name: Some("P".to_string()),
    }));
    roundtrip(ProtocolMessage::EnableBLOB(EnableBLOB {
        device: "CCD".to_string(),
        name: Some("IMG".to_string()),
        value: BLOBEnable::Only,
    }));
    roundtrip(ProtocolMessage::Message(Message {
        device: Some("CCD".to_string()),
        timestamp: Some("now".to_string()),
        message: Some("hi".to_string()),
    }));
    roundtrip(ProtocolMessage::DelProperty(DelProperty {
        device: "CCD".to_string(),
        name: None,
        timestamp: None,
        message: None,
    }));
}

#[test]
fn parse_errors() {
    assert_eq!(parse_error(ProtocolParser::parse_message(b"")), "Unexpected EOF");
    assert_eq!(
        parse_error(ProtocolParser::parse_message(b"<foo/>")),
        "Unknown message type: foo"
    );
    assert_eq!(
        parse_error(ProtocolParser::parse_message(b"<delProperty name=\"x\"/>")),
        "Missing required attribute: device"
    );
    assert_eq!(
        parse_error(ProtocolParser::parse_message(
            b"<defTextVector device=\"d\" name=\"n\" state=\"Weird\" perm=\"ro\"></defTextVector>"
        )),
        "Invalid property state: Weird"
    );
    assert_eq!(
        parse_error(ProtocolParser::parse_message(
            b"<defTextVector device=\"d\" name=\"n\" state=\"Ok\" perm=\"xx\"></defTextVector>"
        )),
        "Invalid property permission: xx"
    );
    assert_eq!(
        parse_error(ProtocolParser::parse_message(
            b"<defSwitchVector device=\"d\" name=\"n\" state=\"Ok\" perm=\"rw\" rule=\"Some\"></defSwitchVector>"
        )),
        "Invalid switch rule: Some"
    );
    assert_eq!(
        parse_error(ProtocolParser::parse_message(
            b"<newSwitchVector device=\"d\" name=\"n\"><oneSwitch name=\"a\">Maybe</oneSwitch></newSwitchVector>"
        )),
        "Invalid switch state: Maybe"
    );
    assert_eq!(
        parse_error(ProtocolParser::parse_message(
            b"<enableBLOB device=\"d\">Sometimes</enableBLOB>"
        )),
        "Invalid BLOB enable: Sometimes"
    );
    assert_eq!(
        parse_error(ProtocolParser::parse_message(
            b"<newTextVector device=\"d\" name=\"n\"><oneText name=\"a\">x</oneText>"
        )),
        "Unexpected EOF"
    );
    let e = parse_error(ProtocolParser::parse_message(
        b"<newNumberVector device=\"d\" name=\"n\"><oneNumber name=\"a\">abc</oneNumber></newNumberVector>",
    ));
    assert!(e.starts_with("Invalid value: "));
    let e = parse_error(ProtocolParser::parse_message(
        b"<setBLOBVector device=\"d\" name=\"n\"><oneBLOB name=\"a\" size=\"-1\" format=\"f\">x</oneBLOB></setBLOBVector>",
    ));
    assert!(e.starts_with("Invalid size: "));
    let e = parse_error(ProtocolParser::parse_message(b"</b>"));
    assert!(e.starts_with("XML error: "));
}

#[test]
fn parse_skips_leading_text_and_reads_optional_attributes() {
    let msg = ProtocolParser::parse_message(
        b"  <!-- c --> <setNumberVector device=\"d\" name=\"n\" timeout=\"abc\">\
          <oneNumber name=\"x\"> 1.5 </oneNumber><other/></setNumberVector>",
    )
    .unwrap();
    match msg {
        ProtocolMessage::SetNumberVector(v) => {
            assert_eq!(v.attrs.state, None);
            assert_eq!(v.attrs.timeout, None);
            assert_eq!(v.elements.len(), 1);
            assert_eq!(v.elements[0].value, "1.5");
        }
        _ => panic!("Expected SetNumberVector"),
    }
}

fn tag(name: &str, attrs: &[(&str, &str)]) -> XmlTag {
    XmlTag(
        name.as_bytes().to_vec(),
        attrs
            .iter()
            .map(|(k, v)| -> Result<XmlAttr, String> { Ok((k.as_bytes().to_vec(), v.as_bytes().to_vec())) })
            .collect(),
    )
}

#[test]
fn parse_events_reads_given_events() {
    let events = vec![
        XmlEvent::Other,
        XmlEvent::Start(tag("setSwitchVector", &[("device", "d"), ("name", "n"), ("state", "Busy")])),
        XmlEvent::Start(tag("oneSwitch", &[("name", "a")])),
        XmlEvent::Text(Ok("On".to_string())),
        XmlEvent::End(b"oneSwitch".to_vec()),
        XmlEvent::End(b"setSwitchVector".to_vec()),
        XmlEvent::Eof,
    ];
    match ProtocolParser::parse_events(events).unwrap() {
        ProtocolMessage::SetSwitchVector(v) => {
            assert_eq!(v.attrs.state, Some(PropertyState::Busy));
            assert_eq!(v.elements, vec![OneSwitch { name: "a".to_string(), value: SwitchState::On }]);
        }
        _ => panic!("Expected SetSwitchVector"),
    }
    let events = vec![XmlEvent::Empty(XmlTag(
        b"getProperties".to_vec(),
        vec![Err("bad attribute".to_string())],
    ))];
    assert_eq!(
        parse_error(ProtocolParser::parse_events(events)),
        "Attribute error: bad attribute"
    );
    assert_eq!(parse_error(ProtocolParser::parse_events(vec![])), "Unexpected EOF");
    assert_eq!(
        parse_error(ProtocolParser::parse_events(vec![XmlEvent::Error("boom".to_string())])),
        "XML error: boom"
    );
}

#[test]
fn names_parse_back() {
    for s in [PropertyState::Idle, PropertyState::Okay, PropertyState::Busy, PropertyState::Alert] {
        assert_eq!(PropertyState::from_str(s.as_str()), Ok(s));
    }
    for p in [PropertyPerm::ReadOnly, PropertyPerm::WriteOnly, PropertyPerm::ReadWrite] {
        assert_eq!(PropertyPerm::from_str(p.as_str()), Ok(p));
    }
    for s in [SwitchState::Off, SwitchState::On] {
        assert_eq!(SwitchState::from_str(s.as_str()).unwrap(), s);
    }
    for r in [SwitchRule::OneOfMany, SwitchRule::AtMostOne, SwitchRule::AnyOfMany] {
        assert_eq!(SwitchRule::from_str(r.as_str()).unwrap(), r);
    }
    for b in [BLOBEnable::Never, BLOBEnable::Also, BLOBEnable::Only] {
        assert_eq!(BLOBEnable::from_str(b.as_str()).unwrap(), b);
    }
    assert_eq!(PropertyState::from_str("Fine"), Err("Invalid property state: Fine".to_string()));
    assert_eq!(PropertyPerm::from_str("rx"), Err("Invalid property permission: rx".to_string()));
    assert_eq!(SwitchState::from_str("Maybe").unwrap_err().text(), "Parse error: Invalid switch state: Maybe");
}
