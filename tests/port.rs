use mtrf::port::{select_port, PortInfo, MANUFACTURER, PRODUCT};

#[test]
fn matching_adapter_is_selected() {
    let p = select_port(
        "/dev/ttyUSB0".to_string(),
        Some(MANUFACTURER.to_string()),
        Some(PRODUCT.to_string()),
        Some("AL065KM0".to_string()),
    );
    assert_eq!(
        p,
        Some(PortInfo {
            port_name: "/dev/ttyUSB0".to_string(),
            serial_number: Some("AL065KM0".to_string()),
        })
    );
}

#[test]
fn missing_identity_does_not_exclude() {
    let p = select_port("/dev/ttyUSB1".to_string(), None, None, None);
    assert_eq!(p.map(|p| p.port_name), Some("/dev/ttyUSB1".to_string()));
}

#[test]
fn other_adapters_are_skipped() {
    assert_eq!(
        select_port("a".to_string(), Some("Prolific".to_string()), None, None),
        None
    );
    assert_eq!(
        select_port(
            "b".to_string(),
            Some("FTDI".to_string()),
            Some("FT230X Basic UART".to_string()),
            None
        ),
        None
    );
}
