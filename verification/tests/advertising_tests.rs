use combustion_ble::advertising::{
    AdvertisingData, BatteryStatus, Overheating, ProbeColor, ProbeId, ProbeMode, ProductType,
};
use combustion_ble::error::Error;

#[test]
fn test_product_type() {
    assert_eq!(ProductType::from_raw(0), ProductType::Unknown);
    assert_eq!(ProductType::from_raw(1), ProductType::PredictiveProbe);
    assert_eq!(ProductType::from_raw(2), ProductType::MeatNetRepeater);
    assert_eq!(ProductType::from_raw(3), ProductType::GiantGrillGauge);
    assert_eq!(ProductType::from_raw(4), ProductType::Display);
    assert_eq!(ProductType::from_raw(5), ProductType::Booster);
    assert_eq!(ProductType::from_raw(99), ProductType::Unknown);

    assert!(ProductType::PredictiveProbe.is_predictive_probe());
    assert!(!ProductType::Display.is_predictive_probe());
    assert!(!ProductType::Booster.is_predictive_probe());
}

#[test]
fn test_probe_mode() {
    assert_eq!(ProbeMode::from_raw(0), ProbeMode::Normal);
    assert_eq!(ProbeMode::from_raw(1), ProbeMode::InstantRead);
    assert_eq!(ProbeMode::from_raw(3), ProbeMode::Error);
}

#[test]
fn test_battery_status() {
    assert_eq!(BatteryStatus::from_raw(0), BatteryStatus::Okay);
    assert!(!BatteryStatus::Okay.is_low());
    assert!(BatteryStatus::Low.is_low());
}

#[test]
fn test_probe_id() {
    let id = ProbeId::new(3);
    assert_eq!(id.as_u8(), 3);

    let id = ProbeId::from_raw(2);
    assert_eq!(id.as_u8(), 3);

    assert_eq!(ProbeId::new(0).as_u8(), 1);
    assert_eq!(ProbeId::new(10).as_u8(), 8);
}

#[test]
fn test_probe_color() {
    assert_eq!(ProbeColor::from_raw(0), ProbeColor::Yellow);
    assert_eq!(ProbeColor::from_raw(4), ProbeColor::Blue);
    assert_eq!(ProbeColor::Blue.name(), "Blue");
}

#[test]
fn test_overheating() {
    let overheat = Overheating::new(0b00010001);

    assert!(overheat.is_sensor_overheating(0));
    assert!(!overheat.is_sensor_overheating(1));
    assert!(overheat.is_sensor_overheating(4));
    assert!(overheat.is_any_overheating());
    assert!(overheat.is_internal_overheating());
    assert!(overheat.is_handle_overheating());

    let indices = overheat.overheating_indices();
    assert_eq!(indices, vec![0, 4]);
}

#[test]
fn test_advertising_data_parse() {
    let mut data = vec![0u8; 27];
    data[0] = 1;
    data[1] = 0x78;
    data[2] = 0x56;
    data[3] = 0x34;
    data[4] = 0x12;
    for i in 5..18 {
        data[i] = 0x00;
    }
    data[18] = 0b01000100;
    data[19] = 0x00;

    let parsed = AdvertisingData::parse(&data).unwrap();
    assert_eq!(parsed.product_type, ProductType::PredictiveProbe);
    assert_eq!(parsed.serial_number, 0x12345678);
    assert_eq!(parsed.mode, ProbeMode::Normal);
    assert_eq!(parsed.color, ProbeColor::Grey);
    assert_eq!(parsed.probe_id.as_u8(), 3);
    assert_eq!(parsed.battery_status, BatteryStatus::Okay);
}

#[test]
fn test_advertising_data_too_short() {
    let data = vec![0u8; 10];
    let result = AdvertisingData::parse(&data);
    assert!(result.is_err());
}

#[test]
fn test_advertising_length_error_details() {
    match AdvertisingData::parse(&[0u8; 10]) {
        Err(Error::LengthError { length, minimum }) => {
            assert_eq!(length, 10);
            assert_eq!(minimum, 20);
        }
        other => panic!("expected a length error, got {:?}", other),
    }
}

#[test]
fn test_advertising_virtual_sensor_rules() {
    // Packed temperatures: sensor 0 at raw 400 (0 degrees), the rest at
    // raw 2400 (100 degrees).
    let mut raw = [2400u16; 8];
    raw[0] = 400;
    let temps = combustion_ble::temperature::ProbeTemperatures::from_raw(raw);
    let packed = temps.to_packed_bytes();

    let mut data = vec![0u8; 20];
    data[0] = 1;
    for i in 0..13 {
        data[5 + i] = packed[i];
    }
    // Battery low, core selection 6 (out of the 0..=5 broadcast range),
    // surface offset 0, ambient offset 0.
    data[19] = 0b0000_1101;

    let parsed = AdvertisingData::parse(&data).unwrap();
    assert_eq!(parsed.battery_status, BatteryStatus::Low);
    assert_eq!(parsed.virtual_temperatures.core, None);
    assert_eq!(parsed.virtual_temperatures.surface, Some(10000));
    assert_eq!(parsed.virtual_temperatures.ambient, Some(10000));
}
