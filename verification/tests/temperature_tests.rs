use combustion_ble::temperature::{
    ProbeTemperatures, RawTemperature, VirtualSensorSelection, VirtualTemperatures,
};

#[test]
fn test_raw_temperature_to_celsius() {
    // celsius = raw * 0.05 - 20, carried exactly in hundredths of a degree.
    // 0.0 degrees Celsius is raw value 400.
    assert_eq!(RawTemperature(400).to_celsius_centi(), Some(0));

    // 100.0 degrees Celsius is raw value 2400.
    assert_eq!(RawTemperature(2400).to_celsius_centi(), Some(10000));

    // -20.0 degrees Celsius is raw value 0.
    assert_eq!(RawTemperature(0).to_celsius_centi(), Some(-2000));

    // Room temperature, 23.0 degrees, is raw value 860.
    assert_eq!(RawTemperature(860).to_celsius_centi(), Some(2300));

    // The sentinel yields no reading.
    assert_eq!(RawTemperature(0x1FFF).to_celsius_centi(), None);
}

#[test]
fn test_raw_temperature_to_fahrenheit() {
    // 0 degrees Celsius is 32 Fahrenheit; 100 Celsius is 212 Fahrenheit.
    let centi = RawTemperature(400).to_celsius_centi().unwrap();
    let fahrenheit = centi as f64 / 100.0 * 9.0 / 5.0 + 32.0;
    assert!((fahrenheit - 32.0).abs() < 0.001);

    let centi = RawTemperature(2400).to_celsius_centi().unwrap();
    let fahrenheit = centi as f64 / 100.0 * 9.0 / 5.0 + 32.0;
    assert!((fahrenheit - 212.0).abs() < 0.001);
}

#[test]
fn test_raw_temperature_from_celsius() {
    // Inverse mapping: raw = (celsius + 20) * 20, in hundredths.
    let temp = RawTemperature::from_celsius_centi(0);
    assert_eq!(temp.0, 400);

    let temp = RawTemperature::from_celsius_centi(10000);
    assert_eq!(temp.0, 2400);

    let temp = RawTemperature::from_celsius_centi(2300);
    assert_eq!(temp.0, 860);
}

#[test]
fn test_raw_temperature_is_valid() {
    assert!(RawTemperature(1000).is_valid());
    assert!(RawTemperature(0).is_valid());
    assert!(!RawTemperature(0x1FFF).is_valid());
    assert!(!RawTemperature::invalid().is_valid());
}

#[test]
fn test_probe_temperatures_new() {
    let temps = ProbeTemperatures::new();
    for temp in &temps.values {
        assert!(!temp.is_valid());
    }
}

#[test]
fn test_probe_temperatures_from_raw() {
    let raw = [400, 420, 440, 460, 2400, 2420, 2440, 1200];
    let temps = ProbeTemperatures::from_raw(raw);

    assert_eq!(temps.values[0].to_celsius_centi(), Some(0));
    assert_eq!(temps.values[1].to_celsius_centi(), Some(100));
    assert_eq!(temps.values[4].to_celsius_centi(), Some(10000));
}

#[test]
fn test_probe_temperatures_sensor() {
    let raw = [400, 420, 440, 460, 2400, 2420, 2440, 1200];
    let temps = ProbeTemperatures::from_raw(raw);

    assert!(temps.sensor(0).is_some());
    assert!(temps.sensor(7).is_some());
    assert!(temps.sensor(8).is_none());
}

#[test]
fn test_virtual_temperatures() {
    let vt = VirtualTemperatures::new(Some(6300), Some(10000), Some(20000));

    assert_eq!(vt.core, Some(6300));
    assert_eq!(vt.surface, Some(10000));
    assert_eq!(vt.ambient, Some(20000));

    let fahrenheit = vt.core.unwrap() as f64 / 100.0 * 9.0 / 5.0 + 32.0;
    assert!((fahrenheit - 145.4).abs() < 0.1);
}

#[test]
fn test_packed_bytes_roundtrip() {
    let raw = [1000, 1500, 2000, 2500, 3000, 3500, 4000, 4500];
    let original = ProbeTemperatures::from_raw(raw);

    let packed = original.to_packed_bytes();
    let parsed = ProbeTemperatures::from_packed_bytes(&packed).unwrap();

    for i in 0..8 {
        assert_eq!(
            original.values[i].0, parsed.values[i].0,
            "mismatch at index {}: expected {}, got {}",
            i, original.values[i].0, parsed.values[i].0
        );
    }
}

#[test]
fn test_packed_sentinel_preserved() {
    // Packing and unpacking keeps the sentinel as the sentinel.
    let mut raw = [1000u16; 8];
    raw[3] = 0x1FFF;
    let original = ProbeTemperatures::from_raw(raw);
    let parsed = ProbeTemperatures::from_packed_bytes(&original.to_packed_bytes()).unwrap();
    assert_eq!(parsed.values[3].to_celsius_centi(), None);
    assert_eq!(parsed.values[0].to_celsius_centi(), Some(1000 * 5 - 2000));
}

#[test]
fn test_value_round_trip_exact_on_grid() {
    // Every representable temperature survives encode and decode exactly.
    for centi in (-2000i32..=38950).step_by(505) {
        let grid = centi - centi.rem_euclid(5);
        let raw = RawTemperature::from_celsius_centi(grid);
        assert_eq!(raw.to_celsius_centi(), Some(grid));
    }
}

#[test]
fn test_selection_from_byte() {
    let sel = VirtualSensorSelection::from_byte(0b0101_1101);
    assert_eq!(sel.core_sensor, 5);
    assert_eq!(sel.surface_sensor, 3 + 3);
    assert_eq!(sel.ambient_sensor, 4 + 2);
    assert_eq!(sel.core_sensor_name(), "T6");
    assert_eq!(sel.surface_sensor_name(), "T7");
    assert_eq!(sel.ambient_sensor_name(), "T7");
}
