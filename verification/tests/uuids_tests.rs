use combustion_ble::uuids::{
    is_combustion_service, is_probe_service, DEVICE_INFO_SERVICE_UUID,
    PROBE_STATUS_CHARACTERISTIC_UUID, PROBE_STATUS_SERVICE_UUID, UART_SERVICE_UUID, UART_TX_UUID,
};

#[test]
fn test_uuid_format() {
    let device_info = format!("{:032x}", DEVICE_INFO_SERVICE_UUID);
    assert!(device_info.contains("180a"));

    let probe_status = format!("{:032x}", PROBE_STATUS_SERVICE_UUID);
    assert!(probe_status.contains("caab"));
}

#[test]
fn test_is_combustion_service() {
    assert!(is_combustion_service(PROBE_STATUS_SERVICE_UUID));
    assert!(is_combustion_service(UART_SERVICE_UUID));
    assert!(!is_combustion_service(DEVICE_INFO_SERVICE_UUID));
}

#[test]
fn test_is_probe_service() {
    assert!(is_probe_service(PROBE_STATUS_SERVICE_UUID));
    assert!(!is_probe_service(UART_SERVICE_UUID));
}

#[test]
fn test_probe_status_characteristic_uuid() {
    println!(
        "probe status characteristic: {:032x}",
        PROBE_STATUS_CHARACTERISTIC_UUID
    );
    println!("probe status service: {:032x}", PROBE_STATUS_SERVICE_UUID);
    println!("serial notify endpoint: {:032x}", UART_TX_UUID);

    let uuid_str = format!("{:032x}", PROBE_STATUS_CHARACTERISTIC_UUID);
    assert!(uuid_str.contains("0101"), "UUID should contain '0101': {}", uuid_str);
    assert!(uuid_str.contains("caab"), "UUID should contain 'caab': {}", uuid_str);
}
