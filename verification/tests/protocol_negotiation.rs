use libindigo::error::IndigoError;
use libindigo::strategies::rs::protocol::{GetProperties, ProtocolMessage, ProtocolSerializer};
use libindigo::strategies::rs::protocol_negotiation::{
    NegotiationStep, ProtocolNegotiator, ProtocolType,
};

#[test]
fn test_protocol_type_detect_json() {
    let data = b"{\"getProperties\": {}}";
    assert_eq!(ProtocolType::detect_from_data(data), Some(ProtocolType::Json));
}

#[test]
fn test_protocol_type_detect_xml() {
    let data = b"<getProperties version=\"1.7\"/>";
    assert_eq!(ProtocolType::detect_from_data(data), Some(ProtocolType::Xml));
}

#[test]
fn test_protocol_type_detect_with_whitespace() {
    let data = b"  \n\t{\"getProperties\": {}}";
    assert_eq!(ProtocolType::detect_from_data(data), Some(ProtocolType::Json));

    let data = b"  \n\t<getProperties version=\"1.7\"/>";
    assert_eq!(ProtocolType::detect_from_data(data), Some(ProtocolType::Xml));
}

#[test]
fn test_protocol_type_detect_invalid() {
    let data = b"invalid data";
    assert_eq!(ProtocolType::detect_from_data(data), None);

    let data = b"";
    assert_eq!(ProtocolType::detect_from_data(data), None);
}

#[test]
fn test_protocol_type_version_string() {
    assert_eq!(ProtocolType::Json.version_string(), "512");
    assert_eq!(ProtocolType::Xml.version_string(), "1.7");
}

#[test]
fn test_protocol_type_display() {
    assert_eq!(ProtocolType::Json.text(), "JSON");
    assert_eq!(ProtocolType::Xml.text(), "XML");
}

#[test]
fn test_protocol_type_default() {
    assert_eq!(ProtocolType::default(), ProtocolType::Json);
}

#[test]
fn test_negotiator_json_first() {
    let negotiator = ProtocolNegotiator::json_first();
    assert_eq!(negotiator.preferred(), ProtocolType::Json);
    assert!(negotiator.fallback_enabled());
}

#[test]
fn test_negotiator_json_only() {
    let negotiator = ProtocolNegotiator::json_only();
    assert_eq!(negotiator.preferred(), ProtocolType::Json);
    assert!(!negotiator.fallback_enabled());
}

#[test]
fn test_negotiator_xml_only() {
    let negotiator = ProtocolNegotiator::xml_only();
    assert_eq!(negotiator.preferred(), ProtocolType::Xml);
    assert!(!negotiator.fallback_enabled());
}

#[test]
fn test_negotiator_default() {
    let negotiator = ProtocolNegotiator::default();
    assert_eq!(negotiator.preferred(), ProtocolType::Json);
    assert!(negotiator.fallback_enabled());
}

fn request(version: &str) -> ProtocolMessage {
    ProtocolMessage::GetProperties(GetProperties {
        version: Some(version.to_string()),
        device: None,
        name: None,
    })
}

#[test]
fn detect_other_first_bytes() {
    assert_eq!(ProtocolType::detect_from_data(b"\r\n\r\n"), None);
    assert_eq!(ProtocolType::detect_from_data(b" x<"), None);
    assert_eq!(ProtocolType::detect_from_data(b"\x0b{"), None);
}

#[test]
fn serialized_messages_are_detected_as_xml() {
    let xml = ProtocolSerializer::serialize(&request("1.7")).unwrap();
    assert_eq!(ProtocolType::detect_from_data(&xml), Some(ProtocolType::Xml));
}

#[test]
fn negotiation_starts_with_preferred_protocol() {
    match ProtocolNegotiator::json_first().start() {
        NegotiationStep::Try(p, m) => {
            assert_eq!(p, ProtocolType::Json);
            assert_eq!(m, request("512"));
        }
        _ => panic!("expected a try"),
    }
    match ProtocolNegotiator::xml_only().start() {
        NegotiationStep::Try(p, m) => {
            assert_eq!(p, ProtocolType::Xml);
            assert_eq!(m, request("1.7"));
        }
        _ => panic!("expected a try"),
    }
}

#[test]
fn negotiation_success_and_fallback() {
    let n = ProtocolNegotiator::json_first();
    match n.after_try(ProtocolType::Json, Ok(())) {
        NegotiationStep::AwaitReply(p) => assert_eq!(p, ProtocolType::Json),
        _ => panic!("expected to await the reply"),
    }
    match n.after_reply(ProtocolType::Json, Ok(b" {\"defTextVector\": {}}".to_vec())) {
        NegotiationStep::Done(Ok(p)) => assert_eq!(p, ProtocolType::Json),
        _ => panic!("expected JSON"),
    }
    match n.after_try(ProtocolType::Json, Err(IndigoError::Timeout("t".to_string()))) {
        NegotiationStep::Try(p, m) => {
            assert_eq!(p, ProtocolType::Xml);
            assert_eq!(m, request("1.7"));
        }
        _ => panic!("expected a fallback to XML"),
    }
    // a server that answers the JSON request in XML does not speak JSON
    match n.after_reply(ProtocolType::Json, Ok(b"<defTextVector/>".to_vec())) {
        NegotiationStep::Try(p, m) => {
            assert_eq!(p, ProtocolType::Xml);
            assert_eq!(m, request("1.7"));
        }
        _ => panic!("expected a fallback to XML"),
    }
    match n.after_reply(ProtocolType::Json, Err(IndigoError::Timeout("no reply".to_string()))) {
        NegotiationStep::Try(p, _) => assert_eq!(p, ProtocolType::Xml),
        _ => panic!("expected a fallback to XML"),
    }
    match n.after_try(ProtocolType::Xml, Ok(())) {
        NegotiationStep::AwaitReply(p) => assert_eq!(p, ProtocolType::Xml),
        _ => panic!("expected to await the reply"),
    }
    match n.after_reply(ProtocolType::Xml, Ok(b"\n<getProperties/>".to_vec())) {
        NegotiationStep::Done(Ok(p)) => assert_eq!(p, ProtocolType::Xml),
        _ => panic!("expected XML"),
    }
    match n.after_reply(ProtocolType::Xml, Ok(b"garbage".to_vec())) {
        NegotiationStep::Done(Err(IndigoError::ProtocolError(m))) => assert_eq!(m, "Server did not reply in XML"),
        _ => panic!("expected a protocol error"),
    }
    match n.after_try(ProtocolType::Xml, Err(IndigoError::ConnectionError("down".to_string()))) {
        NegotiationStep::Done(Err(IndigoError::ConnectionError(m))) => assert_eq!(m, "down"),
        _ => panic!("expected the XML failure"),
    }
}

#[test]
fn negotiation_without_fallback_fails() {
    let n = ProtocolNegotiator::json_only();
    match n.after_try(ProtocolType::Json, Err(IndigoError::Timeout("no answer".to_string()))) {
        NegotiationStep::Done(Err(IndigoError::ProtocolError(m))) => assert_eq!(
            m,
            "JSON protocol not supported and fallback disabled: Operation timed out: no answer"
        ),
        _ => panic!("expected a protocol error"),
    }
    match n.after_reply(ProtocolType::Json, Ok(b"<x/>".to_vec())) {
        NegotiationStep::Done(Err(IndigoError::ProtocolError(m))) => assert_eq!(
            m,
            "JSON protocol not supported and fallback disabled: Protocol error: Server did not reply in JSON"
        ),
        _ => panic!("expected a protocol error"),
    }
}

#[test]
fn error_texts() {
    assert_eq!(IndigoError::ParseError("x".to_string()).text(), "Parse error: x");
    assert_eq!(IndigoError::Other("plain".to_string()).text(), "plain");
    let io = IndigoError::IoError(std::io::Error::new(std::io::ErrorKind::Other, "disk"));
    assert_eq!(io.text(), "I/O error: disk");
}
