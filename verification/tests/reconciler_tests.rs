use combustion_ble::advertising::{
    AdvertisingData, BatteryStatus, ProbeColor, ProbeId, ProbeMode, ProductType,
};
use combustion_ble::food_safety::{FoodSafeConfig, IntegratedProduct, Serving};
use combustion_ble::probe_state::{DiscoveryOutcome, ProbeRegistry, ProbeState};
use combustion_ble::status::ProbeStatus;
use combustion_ble::temperature::{ProbeTemperatures, VirtualTemperatures};

fn make_advertising(serial: u32, id: u8) -> AdvertisingData {
    AdvertisingData {
        product_type: ProductType::PredictiveProbe,
        serial_number: serial,
        temperatures: ProbeTemperatures::from_raw([860; 8]),
        mode: ProbeMode::Normal,
        probe_id: ProbeId::new(id),
        color: ProbeColor::Blue,
        battery_status: BatteryStatus::Okay,
        virtual_temperatures: VirtualTemperatures::new(Some(2300), Some(2300), Some(2300)),
        overheating_sensors: 0,
    }
}

fn make_status() -> ProbeStatus {
    // A minimum session payload: every optional section absent.
    ProbeStatus::parse(&vec![0u8; 30]).unwrap()
}

#[test]
fn test_grace_period_blocks_early_update() {
    // An explicit set at time T; a broadcast carrying a different id at
    // T+2s lies within the 5s grace period and is ignored.
    let mut state = ProbeState::new(1);
    state.set_id(ProbeId::new(5), 10_000);
    state.update_from_advertising(&make_advertising(1, 2), None, 12_000);
    assert_eq!(state.probe_id.as_u8(), 5);
    // Everything else still follows the broadcast.
    assert_eq!(state.color, ProbeColor::Blue);
    assert_eq!(state.last_update, 12_000);
}

#[test]
fn test_grace_period_expires() {
    // The same broadcast at T+6s lies outside the grace period and wins.
    let mut state = ProbeState::new(1);
    state.set_id(ProbeId::new(5), 10_000);
    state.update_from_advertising(&make_advertising(1, 2), None, 16_000);
    assert_eq!(state.probe_id.as_u8(), 2);
}

#[test]
fn test_grace_period_applies_to_status_updates_too() {
    let mut state = ProbeState::new(1);
    state.set_color(ProbeColor::Purple, 10_000);
    let status = make_status();
    state.update_from_status(&status, 12_000);
    assert_eq!(state.color, ProbeColor::Purple);
    state.update_from_status(&status, 16_000);
    assert_eq!(state.color, status.color);
}

#[test]
fn test_missing_sections_leave_state_untouched() {
    // A session payload without the food-safety sections must not clear
    // previously known food-safety data; the same holds for preferences
    // and alarms.
    let mut state = ProbeState::new(1);
    let config = FoodSafeConfig::integrated(IntegratedProduct::Poultry, Serving::ServedImmediately);
    state.apply_configure_food_safe(config);
    let before = state.food_safe_data;

    state.update_from_status(&make_status(), 1_000);
    assert_eq!(state.food_safe_data, before);
    assert!(state.food_safe_data.is_some());
}

#[test]
fn test_present_sections_refresh_state() {
    let mut state = ProbeState::new(1);
    let mut payload = vec![0u8; 48];
    let config = FoodSafeConfig::integrated(IntegratedProduct::Seafood, Serving::ServedImmediately);
    payload[30..40].copy_from_slice(&config.to_bytes());
    payload[40] = 0x01; // state Safe
    let status = ProbeStatus::parse(&payload).unwrap();

    state.update_from_status(&status, 1_000);
    let data = state.food_safe_data.expect("created from the payload");
    assert!(data.is_safe());
    assert_eq!(data.config.unwrap().z_centi, 600);
}

#[test]
fn test_stale_check() {
    let mut state = ProbeState::new(1);
    state.update_from_advertising(&make_advertising(1, 1), None, 1_000);
    assert!(!state.is_stale(10_000, 15_000));
    assert!(state.is_stale(16_001, 15_000));
}

#[test]
fn test_registry_lifecycle() {
    let mut registry = ProbeRegistry::new();

    // A broadcast from a display is ignored.
    let mut display = make_advertising(99, 1);
    display.product_type = ProductType::Display;
    assert_eq!(registry.on_advertising(&display, None, 0), DiscoveryOutcome::Ignored);
    assert_eq!(registry.probe_count(), 0);

    // A new probe is added, and the same serial updates in place.
    assert_eq!(
        registry.on_advertising(&make_advertising(7, 3), None, 0),
        DiscoveryOutcome::Added
    );
    assert_eq!(
        registry.on_advertising(&make_advertising(7, 4), None, 1),
        DiscoveryOutcome::Updated
    );
    assert_eq!(registry.probe_count(), 1);
    assert_eq!(registry.get_probe(7).unwrap().probe_id.as_u8(), 4);
    assert!(registry.get_probe(8).is_none());

    // The arena caps out at eight probes.
    for serial in 10..17 {
        assert_eq!(
            registry.on_advertising(&make_advertising(serial, 1), None, 2),
            DiscoveryOutcome::Added
        );
    }
    assert_eq!(registry.probe_count(), 8);
    assert_eq!(
        registry.on_advertising(&make_advertising(100, 1), None, 3),
        DiscoveryOutcome::Full
    );
    assert_eq!(registry.probe_count(), 8);

    // A session payload reaches exactly the probe it names.
    assert!(registry.on_status(7, &make_status(), 4));
    assert!(!registry.on_status(100, &make_status(), 4));
}
