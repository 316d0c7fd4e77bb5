use combustion_ble::food_safety::{
    FoodSafeConfig, FoodSafeData, FoodSafeMode, FoodSafeProduct, FoodSafeState, FoodSafeStatus,
    IntegratedProduct, Serving, SimplifiedProduct,
};

#[test]
fn test_food_safe_mode() {
    assert_eq!(FoodSafeMode::from_raw(0), FoodSafeMode::Simplified);
    assert_eq!(FoodSafeMode::from_raw(1), FoodSafeMode::Integrated);
    assert_eq!(FoodSafeMode::from_raw(7), FoodSafeMode::Simplified);
}

#[test]
fn test_simplified_product() {
    assert_eq!(SimplifiedProduct::from_raw(1), Some(SimplifiedProduct::AnyPoultry));
    assert_eq!(SimplifiedProduct::from_raw(6), Some(SimplifiedProduct::GroundMeats));
    assert_eq!(SimplifiedProduct::from_raw(100), None);

    // Safe thresholds: 74.0, 63.0 and 71.0 degrees, in hundredths.
    assert_eq!(SimplifiedProduct::AnyPoultry.safe_temperature_centi(), 7400);
    assert_eq!(SimplifiedProduct::BeefCuts.safe_temperature_centi(), 6300);
    assert_eq!(SimplifiedProduct::GroundMeats.safe_temperature_centi(), 7100);
}

#[test]
fn test_integrated_product() {
    assert_eq!(IntegratedProduct::from_raw(0), Some(IntegratedProduct::Poultry));
    assert_eq!(IntegratedProduct::from_raw(1023), Some(IntegratedProduct::Custom));
    assert_eq!(IntegratedProduct::from_raw(3), None);

    // Default Z-values: 5.5 and 6.0 degrees, in hundredths.
    assert_eq!(IntegratedProduct::Poultry.default_z_centi(), 550);
    assert_eq!(IntegratedProduct::Seafood.default_z_centi(), 600);
}

#[test]
fn test_serving() {
    assert_eq!(Serving::from_raw(0), Serving::ServedImmediately);
    assert_eq!(Serving::from_raw(1), Serving::CookedAndChilled);
    assert_eq!(Serving::from_raw(5), Serving::ServedImmediately);
}

#[test]
fn test_food_safe_state() {
    assert_eq!(FoodSafeState::from_raw(0), FoodSafeState::NotSafe);
    assert_eq!(FoodSafeState::from_raw(1), FoodSafeState::Safe);
    assert_eq!(FoodSafeState::from_raw(2), FoodSafeState::SafetyImpossible);

    assert!(!FoodSafeState::NotSafe.is_safe());
    assert!(FoodSafeState::Safe.is_safe());
    assert!(!FoodSafeState::SafetyImpossible.is_safe());

    assert!(FoodSafeState::NotSafe.is_achievable());
    assert!(FoodSafeState::Safe.is_achievable());
    assert!(!FoodSafeState::SafetyImpossible.is_achievable());
}

#[test]
fn test_food_safe_config_roundtrip() {
    // Threshold 54.5, Z 5.5, reference 70.0, D 1.0, target 7.0.
    let config = FoodSafeConfig {
        mode: FoodSafeMode::Integrated,
        product: IntegratedProduct::Poultry.to_raw(),
        serving: Serving::ServedImmediately,
        threshold_centi: 5450,
        z_centi: 550,
        reference_centi: 7000,
        d_centi: 100,
        target_log_reduction_deci: 70,
    };

    let bytes = config.to_bytes();
    let parsed = FoodSafeConfig::from_bytes(&bytes).expect("should parse");

    assert_eq!(parsed.mode, config.mode);
    assert_eq!(parsed.product, config.product);
    assert_eq!(parsed.serving, config.serving);
    assert_eq!(parsed.threshold_centi, config.threshold_centi);
    assert_eq!(parsed.z_centi, config.z_centi);
    assert_eq!(parsed.reference_centi, config.reference_centi);
    assert_eq!(parsed.d_centi, config.d_centi);
    assert_eq!(parsed.target_log_reduction_deci, config.target_log_reduction_deci);
}

#[test]
fn test_food_safe_config_simplified() {
    let config = FoodSafeConfig::simplified(SimplifiedProduct::AnyPoultry, Serving::ServedImmediately);
    assert_eq!(config.mode, FoodSafeMode::Simplified);
    assert_eq!(config.product, SimplifiedProduct::AnyPoultry.to_raw());
    assert_eq!(config.threshold_centi, 7400);
}

#[test]
fn test_food_safe_config_integrated_poultry() {
    // Integrated poultry served immediately: target log reduction 7.0,
    // reference temperature 70.0 degrees Celsius.
    let config = FoodSafeConfig::integrated(IntegratedProduct::Poultry, Serving::ServedImmediately);
    assert_eq!(config.mode, FoodSafeMode::Integrated);
    assert_eq!(config.target_log_reduction_deci, 70);
    assert_eq!(config.reference_centi, 7000);
}

#[test]
fn test_food_safe_status_parse() {
    let mut bytes = [0u8; 8];
    bytes[0] = 0b00111001;
    bytes[1] = 0b00000001;

    let status = FoodSafeStatus::from_bytes(&bytes).expect("should parse");
    assert_eq!(status.state, FoodSafeState::Safe);
    assert!(status.is_safe());
    // Log reduction bits: (bytes[0] >> 3) | ((bytes[1] & 0x07) << 5)
    // = 7 | 32 = 39, i.e. 3.9 in tenths.
    assert_eq!(status.log_reduction_deci, 39);
}

#[test]
fn test_food_safe_product_defaults() {
    assert_eq!(FoodSafeProduct::ChickenBreast.default_log_reduction_deci(), 70);
    assert_eq!(FoodSafeProduct::BeefSteak.default_log_reduction_deci(), 65);
    assert_eq!(FoodSafeProduct::ChickenBreast.reference_temperature_centi(), 7400);
    assert_eq!(FoodSafeProduct::BeefSteak.reference_temperature_centi(), 7000);
}

#[test]
fn test_food_safe_product_custom() {
    let custom = FoodSafeProduct::Custom {
        log_reduction_deci: 50,
        reference_centi: 6500,
        z_centi: 600,
    };
    assert_eq!(custom.default_log_reduction_deci(), 50);
    assert_eq!(custom.reference_temperature_centi(), 6500);
    assert_eq!(custom.z_value_centi(), 600);
}

#[test]
fn test_food_safe_data_progress() {
    let mut data = FoodSafeData::new(FoodSafeProduct::ChickenBreast);
    data.log_reduction_deci = 35;
    assert_eq!(data.progress_percent(), 50);

    data.log_reduction_deci = 70;
    assert_eq!(data.progress_percent(), 100);
}

#[test]
fn test_food_safe_data_remaining() {
    let mut data = FoodSafeData::new(FoodSafeProduct::BeefSteak);
    data.log_reduction_deci = 40;
    assert_eq!(data.remaining_reduction_deci(), 25);

    data.log_reduction_deci = 100;
    assert_eq!(data.remaining_reduction_deci(), 0);
}

#[test]
fn test_food_safe_config_exact_first_bytes() {
    // Simplified mode, product 6 (ground meats), immediate serving: byte 0
    // carries mode in bits 0..3 and the product's low bits from bit 3.
    let config = FoodSafeConfig::simplified(SimplifiedProduct::GroundMeats, Serving::ServedImmediately);
    let bytes = config.to_bytes();
    assert_eq!(bytes.len(), 10);
    assert_eq!(bytes[0] & 0x07, 0);
    assert_eq!((bytes[0] >> 3) as u16 | (((bytes[1] & 0x1F) as u16) << 5), 6);
    // Threshold 71.00 degrees: raw 1420 in the 13 bits from bit 16.
    let threshold_raw = bytes[2] as u16 | (((bytes[3] & 0x1F) as u16) << 8);
    assert_eq!(threshold_raw, 1420);
}
