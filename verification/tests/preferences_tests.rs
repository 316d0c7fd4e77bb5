use combustion_ble::preferences::{PowerMode, ThermometerPreferences};

#[test]
fn test_power_mode_from_raw() {
    assert_eq!(PowerMode::from_raw(0), PowerMode::Normal);
    assert_eq!(PowerMode::from_raw(1), PowerMode::AlwaysOn);
    assert_eq!(PowerMode::from_raw(2), PowerMode::Normal);
    assert_eq!(PowerMode::from_raw(3), PowerMode::Normal);
    assert_eq!(PowerMode::from_raw(0xFF), PowerMode::Normal);
}

#[test]
fn test_power_mode_roundtrip() {
    for mode in [PowerMode::Normal, PowerMode::AlwaysOn] {
        let raw = mode.to_raw();
        let parsed = PowerMode::from_raw(raw);
        assert_eq!(mode, parsed);
    }
}

#[test]
fn test_thermometer_preferences_roundtrip() {
    let prefs = ThermometerPreferences::with_power_mode(PowerMode::AlwaysOn);
    let byte = prefs.to_byte();
    let parsed = ThermometerPreferences::from_byte(byte);

    assert_eq!(prefs.power_mode, parsed.power_mode);
}

#[test]
fn test_thermometer_preferences_parse() {
    let prefs = ThermometerPreferences::from_byte(0x01);
    assert_eq!(prefs.power_mode, PowerMode::AlwaysOn);

    let prefs = ThermometerPreferences::from_byte(0x00);
    assert_eq!(prefs.power_mode, PowerMode::Normal);

    let prefs = ThermometerPreferences::from_byte(0xFD);
    assert_eq!(prefs.power_mode, PowerMode::AlwaysOn);
}

#[test]
fn test_power_mode_names() {
    assert_eq!(PowerMode::Normal.name(), "Normal");
    assert_eq!(PowerMode::AlwaysOn.name(), "Always On");
}

#[test]
fn test_preferences_reserved_bits_survive() {
    let prefs = ThermometerPreferences::from_byte(0b1010_1110);
    let byte = prefs.to_byte();
    assert_eq!(byte >> 2, 0b10_1011);
    assert_eq!(ThermometerPreferences::from_byte(byte), prefs);
}
