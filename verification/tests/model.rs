use libindigo::error::{BusError, IndigoError};
use libindigo::model2::{IndigoElement, IndigoModel};

#[test]
fn test_model() -> Result<(), IndigoError> {
    let mut e = IndigoElement::new(42);
    e.request(43)?;
    assert!(e.dirty(), "element should be dirty after successful request");
    e.update(43)?;
    assert!(!e.dirty(), "element should be clean after successful update");
    assert_eq!(e.get(), 43, "element should contain the updated value");
    Ok(())
}

#[test]
fn request_refusals() {
    let _model = IndigoModel::new();
    let mut e = IndigoElement::new(7u32);
    match e.request(7) {
        Err(IndigoError::Other(m)) => assert_eq!(m, "No change from the current value."),
        other => panic!("unexpected {:?}", other),
    }
    assert!(!e.dirty());
    e.request(8).unwrap();
    match e.request(9) {
        Err(IndigoError::Other(m)) => assert_eq!(m, "Element is dirty."),
        other => panic!("unexpected {:?}", other),
    }
    assert_eq!(e.get(), 7);
}

#[test]
fn update_must_match_pending_value() {
    let mut e = IndigoElement::new(1i64);
    e.request(2).unwrap();
    match e.update(3) {
        Err(IndigoError::Bus(b)) => assert_eq!(b, BusError::Failed),
        other => panic!("unexpected {:?}", other),
    }
    assert!(e.dirty());
    assert_eq!(e.get(), 1);
    e.update(2).unwrap();
    assert_eq!(e.get(), 2);
    // a clean element takes any update from the server
    e.update(5).unwrap();
    assert_eq!(e.get(), 5);
    assert!(!e.dirty());
}
