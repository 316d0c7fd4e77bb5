use combustion_ble::alarms::{AlarmConfig, AlarmStatus};

#[test]
fn test_alarm_status_roundtrip() {
    // 63.0 degrees Celsius, in tenths.
    let alarm = AlarmStatus {
        set: true,
        tripped: false,
        alarming: true,
        temperature_deci: 630,
    };

    let bytes = alarm.to_bytes();
    let parsed = AlarmStatus::from_bytes(&bytes).unwrap();

    assert_eq!(parsed.set, alarm.set);
    assert_eq!(parsed.tripped, alarm.tripped);
    assert_eq!(parsed.alarming, alarm.alarming);
    assert_eq!(parsed.temperature_deci, alarm.temperature_deci);
}

#[test]
fn test_alarm_status_temperature_encoding() {
    // -20.0, 0.0, 25.0, 63.0, 100.0, 200.0 and 500.0 degrees, in tenths.
    let temps = [-200, 0, 250, 630, 1000, 2000, 5000];

    for temp in temps {
        let alarm = AlarmStatus::new(temp, true);
        let bytes = alarm.to_bytes();
        let parsed = AlarmStatus::from_bytes(&bytes).unwrap();
        assert_eq!(
            parsed.temperature_deci, temp,
            "temperature mismatch: expected {}, got {}",
            temp, parsed.temperature_deci
        );
    }
}

#[test]
fn test_alarm_config_roundtrip() {
    let mut config = AlarmConfig::new();
    config.set_core_high_alarm(740, true);
    config.set_core_low_alarm(40, true);
    config.set_high_alarm(0, 2000, true);

    let bytes = config.to_bytes();
    let parsed = AlarmConfig::from_bytes(&bytes).unwrap();

    assert!(parsed.core_high_alarm().is_enabled());
    assert_eq!(parsed.core_high_alarm().temperature_deci, 740);
    assert!(parsed.core_low_alarm().is_enabled());
    assert_eq!(parsed.core_low_alarm().temperature_deci, 40);
    assert!(parsed.high_alarm(0).unwrap().is_enabled());
}

#[test]
fn test_alarm_config_any_methods() {
    let mut config = AlarmConfig::new();
    assert!(!config.any_enabled());
    assert!(!config.any_tripped());
    assert!(!config.any_alarming());

    config.set_core_high_alarm(740, true);
    assert!(config.any_enabled());

    config.high_alarms[8].tripped = true;
    assert!(config.any_tripped());

    config.high_alarms[8].alarming = true;
    assert!(config.any_alarming());
}

#[test]
fn test_sensor_names() {
    assert_eq!(AlarmConfig::sensor_name(0), "T1");
    assert_eq!(AlarmConfig::sensor_name(7), "T8");
    assert_eq!(AlarmConfig::sensor_name(8), "Core");
    assert_eq!(AlarmConfig::sensor_name(9), "Surface");
    assert_eq!(AlarmConfig::sensor_name(10), "Ambient");
}

#[test]
fn test_alarm_threshold_clamps_instead_of_wrapping() {
    // A threshold above the representable range encodes to the top of the
    // field, not to a wrapped-around small value.
    let alarm = AlarmStatus::new(9000, true);
    let parsed = AlarmStatus::from_bytes(&alarm.to_bytes()).unwrap();
    assert_eq!(parsed.temperature_deci, 0x1FFF - 200);

    // And one below the range clamps to the bottom.
    let alarm = AlarmStatus::new(-500, true);
    let parsed = AlarmStatus::from_bytes(&alarm.to_bytes()).unwrap();
    assert_eq!(parsed.temperature_deci, -200);
}

#[test]
fn test_alarm_table_exact_layout() {
    // The first alarm's two bytes: set flag in bit 0, threshold of 0.0
    // degrees (raw 200) in bits 3 and up.
    let mut config = AlarmConfig::new();
    config.set_high_alarm(0, 0, true);
    let bytes = config.to_bytes();
    assert_eq!(bytes.len(), 44);
    let packed = u16::from_le_bytes([bytes[0], bytes[1]]);
    assert_eq!(packed & 0x01, 1);
    assert_eq!((packed >> 3) & 0x1FFF, 200);
    // The low array starts at byte 22: a disabled alarm with a threshold
    // of 0.0 degrees, so flags clear and raw 200 in bits 3 and up.
    let packed_low = u16::from_le_bytes([bytes[22], bytes[23]]);
    assert_eq!(packed_low & 0x07, 0);
    assert_eq!((packed_low >> 3) & 0x1FFF, 200);
}
