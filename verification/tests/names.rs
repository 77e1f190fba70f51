use libindigo::name;

#[test]
fn names() {
    assert_eq!(name::INFO_PROPERTY, "INFO");
}

#[test]
fn connection_names() {
    assert_eq!(name::CONNECTION_PROPERTY, "CONNECTION");
    assert_eq!(name::CONNECTION_CONNECTED_ITEM, "CONNECTED");
}
