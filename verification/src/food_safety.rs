//! Food-safety configuration and status.
//!
//! Two coexisting models describe pathogen reduction: a simplified mode
//! that applies fixed temperature thresholds per product, and an
//! integrated mode that integrates time and temperature with Z-value,
//! D-value and reference-temperature parameters. The configuration packs
//! into ten bytes whose fields are not byte aligned; the live status packs
//! into eight. Temperatures and thermal parameters are exact integers in
//! hundredths of a unit ("centi", the 0.05-unit wire step times five);
//! log reductions are exact integers in tenths ("deci", the 0.1 wire
//! step).

use crate::bits::{bits_value, lemma_and_bound, lemma_bits_value_bound, lemma_bits_value_in_window,
    lemma_shift_constants, read_bits, write_fields};
use vstd::prelude::*;

verus! {

/// How safety is judged: fixed thresholds or time-temperature
/// integration.
#[derive(Debug, Clone, Copy, PartialEq, Eq, Hash, Structural)]
pub enum FoodSafeMode {
    /// Predefined temperature thresholds per product.
    Simplified,
    /// Time-temperature integration with explicit parameters.
    Integrated,
}

/// The mode a raw 3-bit value denotes; reserved values fall back to the
/// simplified mode.
pub open spec fn spec_food_safe_mode_from_raw(value: u8) -> FoodSafeMode {
    if value & 0x07 == 1 {
        FoodSafeMode::Integrated
    } else {
        FoodSafeMode::Simplified
    }
}

impl FoodSafeMode {
    /// Decode the low three bits of a raw value.
    pub fn from_raw(value: u8) -> (r: Self)
        ensures
            r == spec_food_safe_mode_from_raw(value),
    {
        match value & 0x07 {
            1 => FoodSafeMode::Integrated,
            _ => FoodSafeMode::Simplified,
        }
    }

    /// The three-bit wire value of this mode.
    pub fn to_raw(&self) -> (r: u8)
        ensures
            spec_food_safe_mode_from_raw(r) == *self,
            r <= 1,
    {
        proof {
            crate::bits::lemma_small_masks();
        }
        match self {
            FoodSafeMode::Simplified => 0,
            FoodSafeMode::Integrated => 1,
        }
    }
}

impl Default for FoodSafeMode {
    /// The simplified mode is the default.
    fn default() -> (r: Self)
        ensures
            r == FoodSafeMode::Simplified,
    {
        FoodSafeMode::Simplified
    }
}

/// Product classes of the simplified mode; the firmware applies the
/// matching threshold rule.
#[derive(Debug, Clone, Copy, PartialEq, Eq, Hash, Structural)]
pub enum SimplifiedProduct {
    /// Default product class.
    Default,
    /// Any poultry.
    AnyPoultry,
    /// Beef cuts.
    BeefCuts,
    /// Pork cuts.
    PorkCuts,
    /// Veal cuts.
    VealCuts,
    /// Lamb cuts.
    LambCuts,
    /// Ground meats.
    GroundMeats,
    /// Ham, fresh or smoked.
    HamFreshOrSmoked,
    /// Ham, cooked and reheated.
    HamCookedAndReheated,
    /// Eggs.
    Eggs,
    /// Fish and shellfish.
    FishAndShellfish,
    /// Leftovers.
    Leftovers,
    /// Casseroles.
    Casseroles,
}

/// The simplified product a raw 10-bit value denotes, if any.
pub open spec fn spec_simplified_product_from_raw(value: u16) -> Option<SimplifiedProduct> {
    if value == 0 {
        Some(SimplifiedProduct::Default)
    } else if value == 1 {
        Some(SimplifiedProduct::AnyPoultry)
    } else if value == 2 {
        Some(SimplifiedProduct::BeefCuts)
    } else if value == 3 {
        Some(SimplifiedProduct::PorkCuts)
    } else if value == 4 {
        Some(SimplifiedProduct::VealCuts)
    } else if value == 5 {
        Some(SimplifiedProduct::LambCuts)
    } else if value == 6 {
        Some(SimplifiedProduct::GroundMeats)
    } else if value == 7 {
        Some(SimplifiedProduct::HamFreshOrSmoked)
    } else if value == 8 {
        Some(SimplifiedProduct::HamCookedAndReheated)
    } else if value == 9 {
        Some(SimplifiedProduct::Eggs)
    } else if value == 10 {
        Some(SimplifiedProduct::FishAndShellfish)
    } else if value == 11 {
        Some(SimplifiedProduct::Leftovers)
    } else if value == 12 {
        Some(SimplifiedProduct::Casseroles)
    } else {
        None
    }
}

impl SimplifiedProduct {
    /// Decode a raw product value; values past the table yield `None`.
    pub fn from_raw(value: u16) -> (r: Option<Self>)
        ensures
            r == spec_simplified_product_from_raw(value),
    {
        match value {
            0 => Some(SimplifiedProduct::Default),
            1 => Some(SimplifiedProduct::AnyPoultry),
            2 => Some(SimplifiedProduct::BeefCuts),
            3 => Some(SimplifiedProduct::PorkCuts),
            4 => Some(SimplifiedProduct::VealCuts),
            5 => Some(SimplifiedProduct::LambCuts),
            6 => Some(SimplifiedProduct::GroundMeats),
            7 => Some(SimplifiedProduct::HamFreshOrSmoked),
            8 => Some(SimplifiedProduct::HamCookedAndReheated),
            9 => Some(SimplifiedProduct::Eggs),
            10 => Some(SimplifiedProduct::FishAndShellfish),
            11 => Some(SimplifiedProduct::Leftovers),
            12 => Some(SimplifiedProduct::Casseroles),
            _ => None,
        }
    }

    /// The 10-bit wire value of this product.
    pub fn to_raw(&self) -> (r: u16)
        ensures
            spec_simplified_product_from_raw(r) == Some(*self),
            r <= 12,
    {
        match self {
            SimplifiedProduct::Default => 0,
            SimplifiedProduct::AnyPoultry => 1,
            SimplifiedProduct::BeefCuts => 2,
            SimplifiedProduct::PorkCuts => 3,
            SimplifiedProduct::VealCuts => 4,
            SimplifiedProduct::LambCuts => 5,
            SimplifiedProduct::GroundMeats => 6,
            SimplifiedProduct::HamFreshOrSmoked => 7,
            SimplifiedProduct::HamCookedAndReheated => 8,
            SimplifiedProduct::Eggs => 9,
            SimplifiedProduct::FishAndShellfish => 10,
            SimplifiedProduct::Leftovers => 11,
            SimplifiedProduct::Casseroles => 12,
        }
    }

    /// The safe serving threshold of this product, in hundredths of a
    /// degree Celsius.
    pub fn safe_temperature_centi(&self) -> (r: i32)
        ensures
            r == spec_safe_temperature_centi(*self),
    {
        match self {
            SimplifiedProduct::Default => 7400,
            SimplifiedProduct::AnyPoultry => 7400,
            SimplifiedProduct::BeefCuts => 6300,
            SimplifiedProduct::PorkCuts => 6300,
            SimplifiedProduct::VealCuts => 6300,
            SimplifiedProduct::LambCuts => 6300,
            SimplifiedProduct::GroundMeats => 7100,
            SimplifiedProduct::HamFreshOrSmoked => 6300,
            SimplifiedProduct::HamCookedAndReheated => 7400,
            SimplifiedProduct::Eggs => 7100,
            SimplifiedProduct::FishAndShellfish => 6300,
            SimplifiedProduct::Leftovers => 7400,
            SimplifiedProduct::Casseroles => 7400,
        }
    }
}

/// The safe serving threshold of a simplified product, in hundredths of a
/// degree Celsius.
pub open spec fn spec_safe_temperature_centi(p: SimplifiedProduct) -> i32 {
    match p {
        SimplifiedProduct::Default => 7400,
        SimplifiedProduct::AnyPoultry => 7400,
        SimplifiedProduct::BeefCuts => 6300,
        SimplifiedProduct::PorkCuts => 6300,
        SimplifiedProduct::VealCuts => 6300,
        SimplifiedProduct::LambCuts => 6300,
        SimplifiedProduct::GroundMeats => 7100,
        SimplifiedProduct::HamFreshOrSmoked => 6300,
        SimplifiedProduct::HamCookedAndReheated => 7400,
        SimplifiedProduct::Eggs => 7100,
        SimplifiedProduct::FishAndShellfish => 6300,
        SimplifiedProduct::Leftovers => 7400,
        SimplifiedProduct::Casseroles => 7400,
    }
}

impl Default for SimplifiedProduct {
    /// The default product class.
    fn default() -> (r: Self)
        ensures
            r == SimplifiedProduct::Default,
    {
        SimplifiedProduct::Default
    }
}

/// Product classes of the integrated mode. The firmware stores the value
/// only for synchronisation; the client interprets it.
#[derive(Debug, Clone, Copy, PartialEq, Eq, Hash, Structural)]
pub enum IntegratedProduct {
    /// Poultry.
    Poultry,
    /// Whole-muscle meats.
    Meats,
    /// Ground, chopped or stuffed meats.
    MeatsGroundChoppedOrStuffed,
    /// Ground, chopped or stuffed poultry.
    PoultryGroundChoppedOrStuffed,
    /// Whole seafood.
    Seafood,
    /// Ground or chopped seafood.
    SeafoodGroundOrChopped,
    /// Milk under ten percent fat.
    DairyMilk,
    /// Other products.
    Other,
    /// Stuffed seafood.
    SeafoodStuffed,
    /// Whole eggs.
    Eggs,
    /// Egg yolk.
    EggsYolk,
    /// Egg white.
    EggsWhite,
    /// Creams over ten percent fat.
    DairyCreams,
    /// Ice-cream mix and eggnog.
    DairyIceCreamMixEggnog,
    /// Custom product with caller-chosen parameters.
    Custom,
}

/// The integrated product a raw 10-bit value denotes, if any.
pub open spec fn spec_integrated_product_from_raw(value: u16) -> Option<IntegratedProduct> {
    if value == 0 {
        Some(IntegratedProduct::Poultry)
    } else if value == 1 {
        Some(IntegratedProduct::Meats)
    } else if value == 2 {
        Some(IntegratedProduct::MeatsGroundChoppedOrStuffed)
    } else if value == 4 {
        Some(IntegratedProduct::PoultryGroundChoppedOrStuffed)
    } else if value == 13 {
        Some(IntegratedProduct::Seafood)
    } else if value == 14 {
        Some(IntegratedProduct::SeafoodGroundOrChopped)
    } else if value == 15 {
        Some(IntegratedProduct::DairyMilk)
    } else if value == 16 {
        Some(IntegratedProduct::Other)
    } else if value == 17 {
        Some(IntegratedProduct::SeafoodStuffed)
    } else if value == 18 {
        Some(IntegratedProduct::Eggs)
    } else if value == 19 {
        Some(IntegratedProduct::EggsYolk)
    } else if value == 20 {
        Some(IntegratedProduct::EggsWhite)
    } else if value == 21 {
        Some(IntegratedProduct::DairyCreams)
    } else if value == 22 {
        Some(IntegratedProduct::DairyIceCreamMixEggnog)
    } else if value == 1023 {
        Some(IntegratedProduct::Custom)
    } else {
        None
    }
}

impl IntegratedProduct {
    /// Decode a raw product value; unassigned values yield `None`.
    pub fn from_raw(value: u16) -> (r: Option<Self>)
        ensures
            r == spec_integrated_product_from_raw(value),
    {
        match value {
            0 => Some(IntegratedProduct::Poultry),
            1 => Some(IntegratedProduct::Meats),
            2 => Some(IntegratedProduct::MeatsGroundChoppedOrStuffed),
            4 => Some(IntegratedProduct::PoultryGroundChoppedOrStuffed),
            13 => Some(IntegratedProduct::Seafood),
            14 => Some(IntegratedProduct::SeafoodGroundOrChopped),
            15 => Some(IntegratedProduct::DairyMilk),
            16 => Some(IntegratedProduct::Other),
            17 => Some(IntegratedProduct::SeafoodStuffed),
            18 => Some(IntegratedProduct::Eggs),
            19 => Some(IntegratedProduct::EggsYolk),
            20 => Some(IntegratedProduct::EggsWhite),
            21 => Some(IntegratedProduct::DairyCreams),
            22 => Some(IntegratedProduct::DairyIceCreamMixEggnog),
            1023 => Some(IntegratedProduct::Custom),
            _ => None,
        }
    }

    /// The 10-bit wire value of this product.
    pub fn to_raw(&self) -> (r: u16)
        ensures
            spec_integrated_product_from_raw(r) == Some(*self),
            r <= 1023,
    {
        match self {
            IntegratedProduct::Poultry => 0,
            IntegratedProduct::Meats => 1,
            IntegratedProduct::MeatsGroundChoppedOrStuffed => 2,
            IntegratedProduct::PoultryGroundChoppedOrStuffed => 4,
            IntegratedProduct::Seafood => 13,
            IntegratedProduct::SeafoodGroundOrChopped => 14,
            IntegratedProduct::DairyMilk => 15,
            IntegratedProduct::Other => 16,
            IntegratedProduct::SeafoodStuffed => 17,
            IntegratedProduct::Eggs => 18,
            IntegratedProduct::EggsYolk => 19,
            IntegratedProduct::EggsWhite => 20,
            IntegratedProduct::DairyCreams => 21,
            IntegratedProduct::DairyIceCreamMixEggnog => 22,
            IntegratedProduct::Custom => 1023,
        }
    }

    /// The default Z-value of this product, in hundredths of a degree.
    pub fn default_z_centi(&self) -> (r: u16)
        ensures
            r == spec_default_z_centi(*self),
    {
        match self {
            IntegratedProduct::Poultry => 550,
            IntegratedProduct::PoultryGroundChoppedOrStuffed => 550,
            IntegratedProduct::Meats => 550,
            IntegratedProduct::MeatsGroundChoppedOrStuffed => 550,
            IntegratedProduct::Seafood => 600,
            IntegratedProduct::SeafoodGroundOrChopped => 600,
            IntegratedProduct::SeafoodStuffed => 600,
            IntegratedProduct::DairyMilk => 500,
            IntegratedProduct::DairyCreams => 500,
            IntegratedProduct::DairyIceCreamMixEggnog => 500,
            IntegratedProduct::Eggs => 450,
            IntegratedProduct::EggsYolk => 450,
            IntegratedProduct::EggsWhite => 450,
            IntegratedProduct::Other => 550,
            IntegratedProduct::Custom => 550,
        }
    }

    /// The default reference temperature of this product, in hundredths
    /// of a degree Celsius.
    pub fn default_reference_centi(&self) -> (r: u16)
        ensures
            r == spec_default_reference_centi(*self),
    {
        match self {
            IntegratedProduct::Poultry => 7000,
            IntegratedProduct::PoultryGroundChoppedOrStuffed => 7000,
            IntegratedProduct::Meats => 7000,
            IntegratedProduct::MeatsGroundChoppedOrStuffed => 7000,
            IntegratedProduct::Seafood => 6500,
            IntegratedProduct::SeafoodGroundOrChopped => 6500,
            IntegratedProduct::SeafoodStuffed => 6500,
            IntegratedProduct::DairyMilk => 7200,
            IntegratedProduct::DairyCreams => 7200,
            IntegratedProduct::DairyIceCreamMixEggnog => 7200,
            IntegratedProduct::Eggs => 7000,
            IntegratedProduct::EggsYolk => 7000,
            IntegratedProduct::EggsWhite => 7000,
            IntegratedProduct::Other => 7000,
            IntegratedProduct::Custom => 7000,
        }
    }

    /// The default D-value of this product at the reference temperature,
    /// in hundredths of a second.
    pub fn default_d_centi(&self) -> (r: u16)
        ensures
            r == spec_default_d_centi(*self),
    {
        match self {
            IntegratedProduct::Poultry => 100,
            IntegratedProduct::PoultryGroundChoppedOrStuffed => 100,
            IntegratedProduct::Meats => 500,
            IntegratedProduct::MeatsGroundChoppedOrStuffed => 500,
            IntegratedProduct::Seafood => 100,
            IntegratedProduct::SeafoodGroundOrChopped => 100,
            IntegratedProduct::SeafoodStuffed => 100,
            IntegratedProduct::DairyMilk => 50,
            IntegratedProduct::DairyCreams => 50,
            IntegratedProduct::DairyIceCreamMixEggnog => 50,
            IntegratedProduct::Eggs => 60,
            IntegratedProduct::EggsYolk => 60,
            IntegratedProduct::EggsWhite => 60,
            IntegratedProduct::Other => 500,
            IntegratedProduct::Custom => 500,
        }
    }

    /// The default target log reduction of this product, in tenths.
    pub fn default_target_log_reduction_deci(&self) -> (r: u8)
        ensures
            r == spec_default_target_log_reduction_deci(*self),
    {
        match self {
            IntegratedProduct::Poultry => 70,
            IntegratedProduct::PoultryGroundChoppedOrStuffed => 70,
            IntegratedProduct::Meats => 50,
            IntegratedProduct::MeatsGroundChoppedOrStuffed => 65,
            IntegratedProduct::Seafood => 60,
            IntegratedProduct::SeafoodGroundOrChopped => 60,
            IntegratedProduct::SeafoodStuffed => 60,
            IntegratedProduct::DairyMilk => 50,
            IntegratedProduct::DairyCreams => 50,
            IntegratedProduct::DairyIceCreamMixEggnog => 50,
            IntegratedProduct::Eggs => 50,
            IntegratedProduct::EggsYolk => 50,
            IntegratedProduct::EggsWhite => 50,
            IntegratedProduct::Other => 65,
            IntegratedProduct::Custom => 65,
        }
    }
}

/// The default Z-value of an integrated product, in hundredths.
pub open spec fn spec_default_z_centi(p: IntegratedProduct) -> u16 {
    match p {
        IntegratedProduct::Seafood => 600,
        IntegratedProduct::SeafoodGroundOrChopped => 600,
        IntegratedProduct::SeafoodStuffed => 600,
        IntegratedProduct::DairyMilk => 500,
        IntegratedProduct::DairyCreams => 500,
        IntegratedProduct::DairyIceCreamMixEggnog => 500,
        IntegratedProduct::Eggs => 450,
        IntegratedProduct::EggsYolk => 450,
        IntegratedProduct::EggsWhite => 450,
        _ => 550,
    }
}

/// The default reference temperature of an integrated product, in
/// hundredths of a degree Celsius.
pub open spec fn spec_default_reference_centi(p: IntegratedProduct) -> u16 {
    match p {
        IntegratedProduct::Seafood => 6500,
        IntegratedProduct::SeafoodGroundOrChopped => 6500,
        IntegratedProduct::SeafoodStuffed => 6500,
        IntegratedProduct::DairyMilk => 7200,
        IntegratedProduct::DairyCreams => 7200,
        IntegratedProduct::DairyIceCreamMixEggnog => 7200,
        _ => 7000,
    }
}

/// The default D-value of an integrated product, in hundredths of a
/// second.
pub open spec fn spec_default_d_centi(p: IntegratedProduct) -> u16 {
    match p {
        IntegratedProduct::Poultry => 100,
        IntegratedProduct::PoultryGroundChoppedOrStuffed => 100,
        IntegratedProduct::Seafood => 100,
        IntegratedProduct::SeafoodGroundOrChopped => 100,
        IntegratedProduct::SeafoodStuffed => 100,
        IntegratedProduct::DairyMilk => 50,
        IntegratedProduct::DairyCreams => 50,
        IntegratedProduct::DairyIceCreamMixEggnog => 50,
        IntegratedProduct::Eggs => 60,
        IntegratedProduct::EggsYolk => 60,
        IntegratedProduct::EggsWhite => 60,
        _ => 500,
    }
}

/// The default target log reduction of an integrated product, in tenths.
pub open spec fn spec_default_target_log_reduction_deci(p: IntegratedProduct) -> u8 {
    match p {
        IntegratedProduct::Poultry => 70,
        IntegratedProduct::PoultryGroundChoppedOrStuffed => 70,
        IntegratedProduct::Meats => 50,
        IntegratedProduct::MeatsGroundChoppedOrStuffed => 65,
        IntegratedProduct::Seafood => 60,
        IntegratedProduct::SeafoodGroundOrChopped => 60,
        IntegratedProduct::SeafoodStuffed => 60,
        IntegratedProduct::DairyMilk => 50,
        IntegratedProduct::DairyCreams => 50,
        IntegratedProduct::DairyIceCreamMixEggnog => 50,
        IntegratedProduct::Eggs => 50,
        IntegratedProduct::EggsYolk => 50,
        IntegratedProduct::EggsWhite => 50,
        IntegratedProduct::Other => 65,
        IntegratedProduct::Custom => 65,
    }
}

impl Default for IntegratedProduct {
    /// Poultry is the default integrated product.
    fn default() -> (r: Self)
        ensures
            r == IntegratedProduct::Poultry,
    {
        IntegratedProduct::Poultry
    }
}

/// How the food will be served after cooking.
#[derive(Debug, Clone, Copy, PartialEq, Eq, Hash, Structural)]
pub enum Serving {
    /// Served immediately after cooking.
    ServedImmediately,
    /// Cooked, then chilled for later use.
    CookedAndChilled,
}

/// The serving mode a raw 3-bit value denotes; reserved values fall back
/// to immediate serving.
pub open spec fn spec_serving_from_raw(value: u8) -> Serving {
    if value & 0x07 == 1 {
        Serving::CookedAndChilled
    } else {
        Serving::ServedImmediately
    }
}

impl Serving {
    /// Decode the low three bits of a raw value.
    pub fn from_raw(value: u8) -> (r: Self)
        ensures
            r == spec_serving_from_raw(value),
    {
        match value & 0x07 {
            1 => Serving::CookedAndChilled,
            _ => Serving::ServedImmediately,
        }
    }

    /// The three-bit wire value of this serving mode.
    pub fn to_raw(&self) -> (r: u8)
        ensures
            spec_serving_from_raw(r) == *self,
            r <= 1,
    {
        proof {
            crate::bits::lemma_small_masks();
        }
        match self {
            Serving::ServedImmediately => 0,
            Serving::CookedAndChilled => 1,
        }
    }
}

impl Default for Serving {
    /// Immediate serving is the default.
    fn default() -> (r: Self)
        ensures
            r == Serving::ServedImmediately,
    {
        Serving::ServedImmediately
    }
}

/// The state of a running food-safety program.
#[derive(Debug, Clone, Copy, PartialEq, Eq, Hash, Structural)]
pub enum FoodSafeState {
    /// Safe serving criteria not yet reached.
    NotSafe,
    /// Safe to serve.
    Safe,
    /// Safety can no longer be achieved this session.
    SafetyImpossible,
}

/// The state a raw 3-bit value denotes; reserved values fall back to
/// not-safe.
pub open spec fn spec_food_safe_state_from_raw(value: u8) -> FoodSafeState {
    if value & 0x07 == 1 {
        FoodSafeState::Safe
    } else if value & 0x07 == 2 {
        FoodSafeState::SafetyImpossible
    } else {
        FoodSafeState::NotSafe
    }
}

impl FoodSafeState {
    /// Decode the low three bits of a raw value.
    pub fn from_raw(value: u8) -> (r: Self)
        ensures
            r == spec_food_safe_state_from_raw(value),
    {
        match value & 0x07 {
            1 => FoodSafeState::Safe,
            2 => FoodSafeState::SafetyImpossible,
            _ => FoodSafeState::NotSafe,
        }
    }

    /// The three-bit wire value of this state.
    pub fn to_raw(&self) -> (r: u8)
        ensures
            spec_food_safe_state_from_raw(r) == *self,
            r <= 2,
    {
        proof {
            crate::bits::lemma_small_masks();
        }
        match self {
            FoodSafeState::NotSafe => 0,
            FoodSafeState::Safe => 1,
            FoodSafeState::SafetyImpossible => 2,
        }
    }

    /// Whether the food is safe to serve.
    pub fn is_safe(&self) -> (r: bool)
        ensures
            r == (*self == FoodSafeState::Safe),
    {
        matches!(self, FoodSafeState::Safe)
    }

    /// Whether safety can still be achieved.
    pub fn is_achievable(&self) -> (r: bool)
        ensures
            r == (*self != FoodSafeState::SafetyImpossible),
    {
        !matches!(self, FoodSafeState::SafetyImpossible)
    }
}

impl Default for FoodSafeState {
    /// A program starts not safe.
    fn default() -> (r: Self)
        ensures
            r == FoodSafeState::NotSafe,
    {
        FoodSafeState::NotSafe
    }
}

/// The 13-bit wire encoding of a scalar in hundredths: rounded to the
/// 0.05-unit wire step and clamped to the field rather than wrapping.
pub open spec fn spec_scalar_raw(centi: u16) -> u16 {
    if (centi + 2) / 5 > 0x1FFF {
        0x1FFFu16
    } else {
        (((centi + 2) / 5) as u16)
    }
}

/// The packed ten-byte food-safety configuration.
#[derive(Debug, Clone, Copy, PartialEq, Eq, Structural)]
pub struct FoodSafeConfig {
    /// Simplified or integrated judging.
    pub mode: FoodSafeMode,
    /// Raw 10-bit product value, interpreted per mode.
    pub product: u16,
    /// How the food will be served.
    pub serving: Serving,
    /// Threshold temperature, in hundredths of a degree Celsius.
    pub threshold_centi: u16,
    /// Z-value, in hundredths of a degree.
    pub z_centi: u16,
    /// Reference temperature, in hundredths of a degree Celsius.
    pub reference_centi: u16,
    /// D-value at the reference temperature, in hundredths of a second.
    pub d_centi: u16,
    /// Target log reduction, in tenths.
    pub target_log_reduction_deci: u8,
}

/// The configuration encoded in a ten-byte buffer: mode, product and
/// serving in the first sixteen bits, then four 13-bit scalars and the
/// eight-bit target log reduction, none of them byte aligned.
pub open spec fn spec_config_from_bits(bytes: Seq<u8>) -> FoodSafeConfig {
    FoodSafeConfig {
        mode: spec_food_safe_mode_from_raw(bits_value(bytes, 0, 3) as u8),
        product: bits_value(bytes, 3, 10) as u16,
        serving: spec_serving_from_raw(bits_value(bytes, 13, 3) as u8),
        threshold_centi: (bits_value(bytes, 16, 13) * 5) as u16,
        z_centi: (bits_value(bytes, 29, 13) * 5) as u16,
        reference_centi: (bits_value(bytes, 42, 13) * 5) as u16,
        d_centi: (bits_value(bytes, 55, 13) * 5) as u16,
        target_log_reduction_deci: bits_value(bytes, 68, 8) as u8,
    }
}

/// What survives one encode of a configuration: the product masked to its
/// ten bits and each scalar rounded to the wire step, everything else
/// unchanged.
pub open spec fn spec_config_clamp(c: FoodSafeConfig) -> FoodSafeConfig {
    FoodSafeConfig {
        mode: c.mode,
        product: c.product & 0x3FF,
        serving: c.serving,
        threshold_centi: (spec_scalar_raw(c.threshold_centi) * 5) as u16,
        z_centi: (spec_scalar_raw(c.z_centi) * 5) as u16,
        reference_centi: (spec_scalar_raw(c.reference_centi) * 5) as u16,
        d_centi: (spec_scalar_raw(c.d_centi) * 5) as u16,
        target_log_reduction_deci: c.target_log_reduction_deci,
    }
}

/// Encoding a configuration and decoding it again is the identity
/// whenever the product fits its ten bits and every scalar is a whole
/// multiple of the 0.05-unit wire step within the representable range.
pub proof fn lemma_config_round_trip(c: FoodSafeConfig)
    requires
        c.product <= 0x3FF,
        c.threshold_centi % 5 == 0 && c.threshold_centi <= 40955,
        c.z_centi % 5 == 0 && c.z_centi <= 40955,
        c.reference_centi % 5 == 0 && c.reference_centi <= 40955,
        c.d_centi % 5 == 0 && c.d_centi <= 40955,
    ensures
        spec_config_clamp(c) == c,
{
    lemma_scalar_round_trip(c.threshold_centi);
    lemma_scalar_round_trip(c.z_centi);
    lemma_scalar_round_trip(c.reference_centi);
    lemma_scalar_round_trip(c.d_centi);
    let p = c.product;
    assert(p <= 0x3FF ==> p & 0x3FF == p) by (bit_vector);
}

/// Rounding a scalar that is already a whole multiple of the wire step
/// and re-scaling gives the scalar back.
pub proof fn lemma_scalar_round_trip(centi: u16)
    requires
        centi % 5 == 0,
        centi <= 40955,
    ensures
        spec_scalar_raw(centi) * 5 == centi,
{
    let q = (centi as int) / 5;
    assert(centi == 5 * q);
    assert((centi + 2) / 5 == q);
}

impl FoodSafeConfig {
    /// A simplified-mode configuration for one product: the product's own
    /// threshold, and the stock integration parameters.
    pub fn simplified(product: SimplifiedProduct, serving: Serving) -> (r: Self)
        ensures
            r.mode == FoodSafeMode::Simplified,
            r.product == product.to_raw_spec(),
            r.serving == serving,
            r.threshold_centi == spec_safe_temperature_centi(product),
            r.z_centi == 550 && r.reference_centi == 7000 && r.d_centi == 500,
            r.target_log_reduction_deci == 65,
    {
        let threshold = product.safe_temperature_centi();
        FoodSafeConfig {
            mode: FoodSafeMode::Simplified,
            product: product.to_raw(),
            serving,
            threshold_centi: threshold as u16,
            z_centi: 550,
            reference_centi: 7000,
            d_centi: 500,
            target_log_reduction_deci: 65,
        }
    }

    /// An integrated-mode configuration for one product, with the
    /// product's default pathogen parameters and the standard integration
    /// threshold of 54.40 degrees Celsius.
    pub fn integrated(product: IntegratedProduct, serving: Serving) -> (r: Self)
        ensures
            r.mode == FoodSafeMode::Integrated,
            r.product == product.to_raw_spec(),
            r.serving == serving,
            r.threshold_centi == 5440,
            r.z_centi == spec_default_z_centi(product),
            r.reference_centi == spec_default_reference_centi(product),
            r.d_centi == spec_default_d_centi(product),
            r.target_log_reduction_deci == spec_default_target_log_reduction_deci(product),
    {
        FoodSafeConfig {
            mode: FoodSafeMode::Integrated,
            product: product.to_raw(),
            serving,
            threshold_centi: 5440,
            z_centi: product.default_z_centi(),
            reference_centi: product.default_reference_centi(),
            d_centi: product.default_d_centi(),
            target_log_reduction_deci: product.default_target_log_reduction_deci(),
        }
    }

    /// A custom integrated-mode configuration with explicit parameters.
    pub fn custom(
        threshold_centi: u16,
        z_centi: u16,
        reference_centi: u16,
        d_centi: u16,
        target_log_reduction_deci: u8,
        serving: Serving,
    ) -> (r: Self)
        ensures
            r.mode == FoodSafeMode::Integrated,
            r.product == 1023,
            r.serving == serving,
            r.threshold_centi == threshold_centi,
            r.z_centi == z_centi,
            r.reference_centi == reference_centi,
            r.d_centi == d_centi,
            r.target_log_reduction_deci == target_log_reduction_deci,
    {
        FoodSafeConfig {
            mode: FoodSafeMode::Integrated,
            product: IntegratedProduct::Custom.to_raw(),
            serving,
            threshold_centi,
            z_centi,
            reference_centi,
            d_centi,
            target_log_reduction_deci,
        }
    }

    /// Encode into the packed ten-byte wire form. Every field of the
    /// result decodes back to the clamp of this configuration.
    pub fn to_bytes(&self) -> (r: Vec<u8>)
        ensures
            r@.len() == 10,
            spec_config_from_bits(r@) == spec_config_clamp(*self),
    {
        let mut fields: Vec<(usize, usize, u32)> = Vec::new();
        fields.push((0, 3, self.mode.to_raw() as u32));
        fields.push((3, 10, (self.product & 0x3FF) as u32));
        fields.push((13, 3, self.serving.to_raw() as u32));
        fields.push((16, 13, Self::scalar_raw(self.threshold_centi)));
        fields.push((29, 13, Self::scalar_raw(self.z_centi)));
        fields.push((42, 13, Self::scalar_raw(self.reference_centi)));
        fields.push((55, 13, Self::scalar_raw(self.d_centi)));
        fields.push((68, 8, self.target_log_reduction_deci as u32));
        let mut out: Vec<u8> = vec![0u8; 10];
        proof {
            lemma_shift_constants();
            lemma_and_bound(self.product as u32, 0x3FF);
            let p = self.product;
            assert((p & 0x3FF) as u32 == (p as u32) & 0x3FF) by (bit_vector);
            assert((p as u32) & 0x3FF <= 0x3FF);
        }
        write_fields(&mut out, &fields);
        proof {
            assert(bits_value(out@, fields@[0].0 as int, fields@[0].1 as int) == fields@[0].2);
            assert(bits_value(out@, fields@[1].0 as int, fields@[1].1 as int) == fields@[1].2);
            assert(bits_value(out@, fields@[2].0 as int, fields@[2].1 as int) == fields@[2].2);
            assert(bits_value(out@, fields@[3].0 as int, fields@[3].1 as int) == fields@[3].2);
            assert(bits_value(out@, fields@[4].0 as int, fields@[4].1 as int) == fields@[4].2);
            assert(bits_value(out@, fields@[5].0 as int, fields@[5].1 as int) == fields@[5].2);
            assert(bits_value(out@, fields@[6].0 as int, fields@[6].1 as int) == fields@[6].2);
            assert(bits_value(out@, fields@[7].0 as int, fields@[7].1 as int) == fields@[7].2);
        }
        out
    }

    /// The rounded, clamped 13-bit wire value of one scalar.
    fn scalar_raw(centi: u16) -> (r: u32)
        ensures
            r == spec_scalar_raw(centi),
            r <= 0x1FFF,
    {
        let q: u32 = (centi as u32 + 2) / 5;
        if q > 0x1FFF {
            0x1FFF
        } else {
            q
        }
    }

    /// Decode the packed ten-byte form. Succeeds exactly when ten bytes
    /// are present; only the first ten are read.
    pub fn from_bytes(bytes: &[u8]) -> (r: Option<Self>)
        ensures
            r is Some <==> bytes@.len() >= 10,
            r is Some ==> r == Some(spec_config_from_bits(bytes@)),
    {
        if bytes.len() < 10 {
            return None;
        }
        let w = vstd::slice::slice_subrange(bytes, 0, 10);
        let mode_raw = read_bits(w, 0, 3);
        let product = read_bits(w, 3, 10);
        let serving_raw = read_bits(w, 13, 3);
        let threshold = read_bits(w, 16, 13);
        let z = read_bits(w, 29, 13);
        let reference = read_bits(w, 42, 13);
        let d = read_bits(w, 55, 13);
        let log_red = read_bits(w, 68, 8);
        proof {
            lemma_config_windows(bytes@);
            lemma_bits_value_bound(w@, 0, 3);
            lemma_bits_value_bound(w@, 3, 10);
            lemma_bits_value_bound(w@, 13, 3);
            lemma_bits_value_bound(w@, 16, 13);
            lemma_bits_value_bound(w@, 29, 13);
            lemma_bits_value_bound(w@, 42, 13);
            lemma_bits_value_bound(w@, 55, 13);
            lemma_bits_value_bound(w@, 68, 8);
            lemma_shift_constants();
        }
        Some(
            FoodSafeConfig {
                mode: FoodSafeMode::from_raw(mode_raw as u8),
                product: product as u16,
                serving: Serving::from_raw(serving_raw as u8),
                threshold_centi: (threshold as u16) * 5,
                z_centi: (z as u16) * 5,
                reference_centi: (reference as u16) * 5,
                d_centi: (d as u16) * 5,
                target_log_reduction_deci: log_red as u8,
            },
        )
    }
}

impl Default for FoodSafeConfig {
    /// The stock configuration: simplified mode, default product, the
    /// typical 54.40 degree pathogen threshold and stock integration
    /// parameters.
    fn default() -> (r: Self)
        ensures
            r.mode == FoodSafeMode::Simplified,
            r.product == 0,
            r.serving == Serving::ServedImmediately,
            r.threshold_centi == 5440,
            r.z_centi == 550 && r.reference_centi == 7000 && r.d_centi == 500,
            r.target_log_reduction_deci == 65,
    {
        FoodSafeConfig {
            mode: FoodSafeMode::Simplified,
            product: 0,
            serving: Serving::ServedImmediately,
            threshold_centi: 5440,
            z_centi: 550,
            reference_centi: 7000,
            d_centi: 500,
            target_log_reduction_deci: 65,
        }
    }
}

/// Reading a configuration field from the first ten bytes of a longer
/// buffer gives the same value as reading it from the whole buffer.
proof fn lemma_config_windows(bytes: Seq<u8>)
    requires
        bytes.len() >= 10,
    ensures
        forall|off: int, w: int|
            0 <= off && 0 < w && off + w <= 80 ==> #[trigger] bits_value(
                bytes.subrange(0, 10),
                off,
                w,
            ) == bits_value(bytes, off, w),
{
    assert forall|off: int, w: int| 0 <= off && 0 < w && off + w <= 80 implies #[trigger] bits_value(
        bytes.subrange(0, 10),
        off,
        w,
    ) == bits_value(bytes, off, w) by {
        lemma_bits_value_in_window(bytes, 0, 10, off, w);
    }
}

/// SimplifiedProduct's wire value as a spec-level function.
impl SimplifiedProduct {
    /// The value [`SimplifiedProduct::to_raw`] returns.
    pub open spec fn to_raw_spec(self) -> u16 {
        match self {
            SimplifiedProduct::Default => 0,
            SimplifiedProduct::AnyPoultry => 1,
            SimplifiedProduct::BeefCuts => 2,
            SimplifiedProduct::PorkCuts => 3,
            SimplifiedProduct::VealCuts => 4,
            SimplifiedProduct::LambCuts => 5,
            SimplifiedProduct::GroundMeats => 6,
            SimplifiedProduct::HamFreshOrSmoked => 7,
            SimplifiedProduct::HamCookedAndReheated => 8,
            SimplifiedProduct::Eggs => 9,
            SimplifiedProduct::FishAndShellfish => 10,
            SimplifiedProduct::Leftovers => 11,
            SimplifiedProduct::Casseroles => 12,
        }
    }
}

/// IntegratedProduct's wire value as a spec-level function.
impl IntegratedProduct {
    /// The value [`IntegratedProduct::to_raw`] returns.
    pub open spec fn to_raw_spec(self) -> u16 {
        match self {
            IntegratedProduct::Poultry => 0,
            IntegratedProduct::Meats => 1,
            IntegratedProduct::MeatsGroundChoppedOrStuffed => 2,
            IntegratedProduct::PoultryGroundChoppedOrStuffed => 4,
            IntegratedProduct::Seafood => 13,
            IntegratedProduct::SeafoodGroundOrChopped => 14,
            IntegratedProduct::DairyMilk => 15,
            IntegratedProduct::Other => 16,
            IntegratedProduct::SeafoodStuffed => 17,
            IntegratedProduct::Eggs => 18,
            IntegratedProduct::EggsYolk => 19,
            IntegratedProduct::EggsWhite => 20,
            IntegratedProduct::DairyCreams => 21,
            IntegratedProduct::DairyIceCreamMixEggnog => 22,
            IntegratedProduct::Custom => 1023,
        }
    }
}

/// The live status of a food-safety program, decoded from its packed
/// eight-byte block.
#[derive(Debug, Clone, Copy, PartialEq, Eq, Structural)]
pub struct FoodSafeStatus {
    /// State of the program.
    pub state: FoodSafeState,
    /// Log reduction achieved so far, in tenths.
    pub log_reduction_deci: u8,
    /// Seconds the core temperature has been above the threshold.
    pub seconds_above_threshold: u32,
    /// Log sequence number when the program started.
    pub sequence_number: u32,
}

/// The status encoded in an eight-byte buffer: three state bits, eight
/// log-reduction bits, sixteen seconds bits and a 32-bit sequence anchor.
pub open spec fn spec_status_from_bits(bytes: Seq<u8>) -> FoodSafeStatus {
    FoodSafeStatus {
        state: spec_food_safe_state_from_raw(bits_value(bytes, 0, 3) as u8),
        log_reduction_deci: bits_value(bytes, 3, 8) as u8,
        seconds_above_threshold: bits_value(bytes, 11, 16),
        sequence_number: bits_value(bytes, 27, 32),
    }
}

impl FoodSafeStatus {
    /// Decode the packed eight-byte status. Succeeds exactly when eight
    /// bytes are present; only the first eight are read.
    pub fn from_bytes(bytes: &[u8]) -> (r: Option<Self>)
        ensures
            r is Some <==> bytes@.len() >= 8,
            r is Some ==> r == Some(spec_status_from_bits(bytes@)),
    {
        if bytes.len() < 8 {
            return None;
        }
        let w = vstd::slice::slice_subrange(bytes, 0, 8);
        let state_raw = read_bits(w, 0, 3);
        let log_red = read_bits(w, 3, 8);
        let seconds = read_bits(w, 11, 16);
        let sequence = read_bits(w, 27, 32);
        proof {
            lemma_bits_value_in_window(bytes@, 0, 8, 0, 3);
            lemma_bits_value_in_window(bytes@, 0, 8, 3, 8);
            lemma_bits_value_in_window(bytes@, 0, 8, 11, 16);
            lemma_bits_value_in_window(bytes@, 0, 8, 27, 32);
            lemma_bits_value_bound(w@, 0, 3);
            lemma_bits_value_bound(w@, 3, 8);
            lemma_shift_constants();
        }
        Some(
            FoodSafeStatus {
                state: FoodSafeState::from_raw(state_raw as u8),
                log_reduction_deci: log_red as u8,
                seconds_above_threshold: seconds,
                sequence_number: sequence,
            },
        )
    }

    /// Whether the food is safe to serve.
    pub fn is_safe(&self) -> (r: bool)
        ensures
            r == (self.state == FoodSafeState::Safe),
    {
        self.state.is_safe()
    }

    /// Whether safety can still be achieved.
    pub fn is_achievable(&self) -> (r: bool)
        ensures
            r == (self.state != FoodSafeState::SafetyImpossible),
    {
        self.state.is_achievable()
    }
}

/// A cookable product in the coarse, client-side model. This coexists
/// with the wire-level product tables: the simplified and integrated
/// tables say what the firmware stores, this type is what callers pick
/// from, and it maps onto both.
#[derive(Debug, Clone, Copy, PartialEq, Eq, Structural)]
pub enum FoodSafeProduct {
    /// Beef steak.
    BeefSteak,
    /// Beef roast.
    BeefRoast,
    /// Ground beef.
    GroundBeef,
    /// Pork chop.
    PorkChop,
    /// Pork roast.
    PorkRoast,
    /// Ground pork.
    GroundPork,
    /// Chicken breast.
    ChickenBreast,
    /// Whole chicken.
    ChickenWhole,
    /// Turkey.
    Turkey,
    /// Generic fish.
    Fish,
    /// Salmon.
    Salmon,
    /// Custom parameters chosen by the caller.
    Custom {
        /// Target log reduction, in tenths.
        log_reduction_deci: u8,
        /// Reference temperature, in hundredths of a degree Celsius.
        reference_centi: u16,
        /// Z-value, in hundredths of a degree.
        z_centi: u16,
    },
}

/// The default target log reduction of a product, in tenths.
pub open spec fn spec_product_log_reduction_deci(p: FoodSafeProduct) -> u8 {
    match p {
        FoodSafeProduct::ChickenBreast => 70,
        FoodSafeProduct::ChickenWhole => 70,
        FoodSafeProduct::Turkey => 70,
        FoodSafeProduct::Fish => 60,
        FoodSafeProduct::Salmon => 60,
        FoodSafeProduct::Custom { log_reduction_deci, .. } => log_reduction_deci,
        _ => 65,
    }
}

/// The reference temperature of a product, in hundredths of a degree.
pub open spec fn spec_product_reference_centi(p: FoodSafeProduct) -> u16 {
    match p {
        FoodSafeProduct::ChickenBreast => 7400,
        FoodSafeProduct::ChickenWhole => 7400,
        FoodSafeProduct::Turkey => 7400,
        FoodSafeProduct::Fish => 6300,
        FoodSafeProduct::Salmon => 6300,
        FoodSafeProduct::Custom { reference_centi, .. } => reference_centi,
        _ => 7000,
    }
}

/// The Z-value of a product, in hundredths of a degree.
pub open spec fn spec_product_z_centi(p: FoodSafeProduct) -> u16 {
    match p {
        FoodSafeProduct::Fish => 600,
        FoodSafeProduct::Salmon => 600,
        FoodSafeProduct::Custom { z_centi, .. } => z_centi,
        _ => 550,
    }
}

/// The coarse product a simplified wire class decodes to. The mapping is
/// lossy: several wire classes share one coarse stand-in.
pub open spec fn spec_simplified_to_product(p: SimplifiedProduct) -> FoodSafeProduct {
    match p {
        SimplifiedProduct::Default => FoodSafeProduct::BeefSteak,
        SimplifiedProduct::AnyPoultry => FoodSafeProduct::ChickenBreast,
        SimplifiedProduct::BeefCuts => FoodSafeProduct::BeefSteak,
        SimplifiedProduct::PorkCuts => FoodSafeProduct::PorkChop,
        SimplifiedProduct::VealCuts => FoodSafeProduct::BeefSteak,
        SimplifiedProduct::LambCuts => FoodSafeProduct::BeefSteak,
        SimplifiedProduct::GroundMeats => FoodSafeProduct::GroundBeef,
        SimplifiedProduct::HamFreshOrSmoked => FoodSafeProduct::PorkRoast,
        SimplifiedProduct::HamCookedAndReheated => FoodSafeProduct::PorkRoast,
        SimplifiedProduct::Eggs => FoodSafeProduct::ChickenBreast,
        SimplifiedProduct::FishAndShellfish => FoodSafeProduct::Fish,
        SimplifiedProduct::Leftovers => FoodSafeProduct::ChickenBreast,
        SimplifiedProduct::Casseroles => FoodSafeProduct::ChickenBreast,
    }
}

/// The simplified product class a coarse product maps onto.
pub open spec fn spec_product_to_simplified(p: FoodSafeProduct) -> SimplifiedProduct {
    match p {
        FoodSafeProduct::ChickenBreast => SimplifiedProduct::AnyPoultry,
        FoodSafeProduct::ChickenWhole => SimplifiedProduct::AnyPoultry,
        FoodSafeProduct::Turkey => SimplifiedProduct::AnyPoultry,
        FoodSafeProduct::BeefSteak => SimplifiedProduct::BeefCuts,
        FoodSafeProduct::BeefRoast => SimplifiedProduct::BeefCuts,
        FoodSafeProduct::PorkChop => SimplifiedProduct::PorkCuts,
        FoodSafeProduct::PorkRoast => SimplifiedProduct::PorkCuts,
        FoodSafeProduct::GroundBeef => SimplifiedProduct::GroundMeats,
        FoodSafeProduct::GroundPork => SimplifiedProduct::GroundMeats,
        FoodSafeProduct::Fish => SimplifiedProduct::FishAndShellfish,
        FoodSafeProduct::Salmon => SimplifiedProduct::FishAndShellfish,
        FoodSafeProduct::Custom { .. } => SimplifiedProduct::Default,
    }
}

/// The integrated product class a coarse product maps onto.
pub open spec fn spec_product_to_integrated(p: FoodSafeProduct) -> IntegratedProduct {
    match p {
        FoodSafeProduct::ChickenBreast => IntegratedProduct::Poultry,
        FoodSafeProduct::ChickenWhole => IntegratedProduct::Poultry,
        FoodSafeProduct::Turkey => IntegratedProduct::Poultry,
        FoodSafeProduct::BeefSteak => IntegratedProduct::Meats,
        FoodSafeProduct::BeefRoast => IntegratedProduct::Meats,
        FoodSafeProduct::PorkChop => IntegratedProduct::Meats,
        FoodSafeProduct::PorkRoast => IntegratedProduct::Meats,
        FoodSafeProduct::GroundBeef => IntegratedProduct::MeatsGroundChoppedOrStuffed,
        FoodSafeProduct::GroundPork => IntegratedProduct::MeatsGroundChoppedOrStuffed,
        FoodSafeProduct::Fish => IntegratedProduct::Seafood,
        FoodSafeProduct::Salmon => IntegratedProduct::Seafood,
        FoodSafeProduct::Custom { .. } => IntegratedProduct::Custom,
    }
}

impl FoodSafeProduct {
    /// The default target log reduction of this product, in tenths.
    pub fn default_log_reduction_deci(&self) -> (r: u8)
        ensures
            r == spec_product_log_reduction_deci(*self),
    {
        match self {
            FoodSafeProduct::ChickenBreast => 70,
            FoodSafeProduct::ChickenWhole => 70,
            FoodSafeProduct::Turkey => 70,
            FoodSafeProduct::Fish => 60,
            FoodSafeProduct::Salmon => 60,
            FoodSafeProduct::Custom { log_reduction_deci, .. } => *log_reduction_deci,
            _ => 65,
        }
    }

    /// The reference temperature of this product, in hundredths of a
    /// degree Celsius.
    pub fn reference_temperature_centi(&self) -> (r: u16)
        ensures
            r == spec_product_reference_centi(*self),
    {
        match self {
            FoodSafeProduct::ChickenBreast => 7400,
            FoodSafeProduct::ChickenWhole => 7400,
            FoodSafeProduct::Turkey => 7400,
            FoodSafeProduct::Fish => 6300,
            FoodSafeProduct::Salmon => 6300,
            FoodSafeProduct::Custom { reference_centi, .. } => *reference_centi,
            _ => 7000,
        }
    }

    /// The Z-value of this product, in hundredths of a degree.
    pub fn z_value_centi(&self) -> (r: u16)
        ensures
            r == spec_product_z_centi(*self),
    {
        match self {
            FoodSafeProduct::Fish => 600,
            FoodSafeProduct::Salmon => 600,
            FoodSafeProduct::Custom { z_centi, .. } => *z_centi,
            _ => 550,
        }
    }

    /// The simplified product class this product maps onto.
    pub fn to_simplified(&self) -> (r: SimplifiedProduct)
        ensures
            r == spec_product_to_simplified(*self),
    {
        match self {
            FoodSafeProduct::ChickenBreast => SimplifiedProduct::AnyPoultry,
            FoodSafeProduct::ChickenWhole => SimplifiedProduct::AnyPoultry,
            FoodSafeProduct::Turkey => SimplifiedProduct::AnyPoultry,
            FoodSafeProduct::BeefSteak => SimplifiedProduct::BeefCuts,
            FoodSafeProduct::BeefRoast => SimplifiedProduct::BeefCuts,
            FoodSafeProduct::PorkChop => SimplifiedProduct::PorkCuts,
            FoodSafeProduct::PorkRoast => SimplifiedProduct::PorkCuts,
            FoodSafeProduct::GroundBeef => SimplifiedProduct::GroundMeats,
            FoodSafeProduct::GroundPork => SimplifiedProduct::GroundMeats,
            FoodSafeProduct::Fish => SimplifiedProduct::FishAndShellfish,
            FoodSafeProduct::Salmon => SimplifiedProduct::FishAndShellfish,
            FoodSafeProduct::Custom { .. } => SimplifiedProduct::Default,
        }
    }

    /// The integrated product class this product maps onto.
    pub fn to_integrated(&self) -> (r: IntegratedProduct)
        ensures
            r == spec_product_to_integrated(*self),
    {
        match self {
            FoodSafeProduct::ChickenBreast => IntegratedProduct::Poultry,
            FoodSafeProduct::ChickenWhole => IntegratedProduct::Poultry,
            FoodSafeProduct::Turkey => IntegratedProduct::Poultry,
            FoodSafeProduct::BeefSteak => IntegratedProduct::Meats,
            FoodSafeProduct::BeefRoast => IntegratedProduct::Meats,
            FoodSafeProduct::PorkChop => IntegratedProduct::Meats,
            FoodSafeProduct::PorkRoast => IntegratedProduct::Meats,
            FoodSafeProduct::GroundBeef => IntegratedProduct::MeatsGroundChoppedOrStuffed,
            FoodSafeProduct::GroundPork => IntegratedProduct::MeatsGroundChoppedOrStuffed,
            FoodSafeProduct::Fish => IntegratedProduct::Seafood,
            FoodSafeProduct::Salmon => IntegratedProduct::Seafood,
            FoodSafeProduct::Custom { .. } => IntegratedProduct::Custom,
        }
    }

    /// The simplified-mode wire value of this product, as one byte.
    pub fn to_raw(&self) -> (r: u8)
        ensures
            r == spec_product_to_simplified(*self).to_raw_spec(),
    {
        let s = self.to_simplified();
        let v = s.to_raw();
        proof {
            assert(v <= 12);
        }
        v as u8
    }

    /// A simplified-mode configuration for this product.
    pub fn to_config(&self, serving: Serving) -> (r: FoodSafeConfig)
        ensures
            r.mode == FoodSafeMode::Simplified,
            r.product == spec_product_to_simplified(*self).to_raw_spec(),
            r.serving == serving,
            r.threshold_centi == spec_safe_temperature_centi(spec_product_to_simplified(*self)),
    {
        FoodSafeConfig::simplified(self.to_simplified(), serving)
    }

    /// An integrated-mode configuration for this product: custom
    /// parameters where the product carries its own, the product's
    /// defaults otherwise.
    pub fn to_integrated_config(&self, serving: Serving) -> (r: FoodSafeConfig)
        ensures
            r.mode == FoodSafeMode::Integrated,
            r.serving == serving,
            (*self matches FoodSafeProduct::Custom {
                log_reduction_deci,
                reference_centi,
                z_centi,
            }) ==> {
                &&& r.product == 1023
                &&& r.threshold_centi == 5440
                &&& r.z_centi == spec_product_z_centi(*self)
                &&& r.reference_centi == spec_product_reference_centi(*self)
                &&& r.d_centi == 500
                &&& r.target_log_reduction_deci == spec_product_log_reduction_deci(*self)
            },
            !(*self matches FoodSafeProduct::Custom { .. }) ==> {
                let ip = spec_product_to_integrated(*self);
                &&& r.product == ip.to_raw_spec()
                &&& r.threshold_centi == 5440
                &&& r.z_centi == spec_default_z_centi(ip)
                &&& r.reference_centi == spec_default_reference_centi(ip)
                &&& r.d_centi == spec_default_d_centi(ip)
                &&& r.target_log_reduction_deci == spec_default_target_log_reduction_deci(ip)
            },
    {
        match self {
            FoodSafeProduct::Custom { log_reduction_deci, reference_centi, z_centi } => {
                FoodSafeConfig::custom(
                    5440,
                    *z_centi,
                    *reference_centi,
                    500,
                    *log_reduction_deci,
                    serving,
                )
            },
            _ => FoodSafeConfig::integrated(self.to_integrated(), serving),
        }
    }

    /// Decode a simplified-mode wire value into the coarse model; values
    /// past the simplified table yield `None`.
    pub fn from_raw(value: u8) -> (r: Option<Self>)
        ensures
            r == (match spec_simplified_product_from_raw(value as u16) {
                Some(p) => Some(spec_simplified_to_product(p)),
                None => None,
            }),
    {
        match SimplifiedProduct::from_raw(value as u16) {
            None => None,
            Some(p) => Some(
                match p {
                    SimplifiedProduct::Default => FoodSafeProduct::BeefSteak,
                    SimplifiedProduct::AnyPoultry => FoodSafeProduct::ChickenBreast,
                    SimplifiedProduct::BeefCuts => FoodSafeProduct::BeefSteak,
                    SimplifiedProduct::PorkCuts => FoodSafeProduct::PorkChop,
                    SimplifiedProduct::VealCuts => FoodSafeProduct::BeefSteak,
                    SimplifiedProduct::LambCuts => FoodSafeProduct::BeefSteak,
                    SimplifiedProduct::GroundMeats => FoodSafeProduct::GroundBeef,
                    SimplifiedProduct::HamFreshOrSmoked => FoodSafeProduct::PorkRoast,
                    SimplifiedProduct::HamCookedAndReheated => FoodSafeProduct::PorkRoast,
                    SimplifiedProduct::Eggs => FoodSafeProduct::ChickenBreast,
                    SimplifiedProduct::FishAndShellfish => FoodSafeProduct::Fish,
                    SimplifiedProduct::Leftovers => FoodSafeProduct::ChickenBreast,
                    SimplifiedProduct::Casseroles => FoodSafeProduct::ChickenBreast,
                },
            ),
        }
    }
}

impl Default for FoodSafeProduct {
    /// Beef steak is the default coarse product.
    fn default() -> (r: Self)
        ensures
            r == FoodSafeProduct::BeefSteak,
    {
        FoodSafeProduct::BeefSteak
    }
}

/// The coarse serving verdict of the client-side model.
#[derive(Debug, Clone, Copy, PartialEq, Eq, Hash, Structural)]
pub enum FoodSafeServingState {
    /// Safe serving criteria not yet reached.
    NotSafe,
    /// Safe to serve.
    SafeToServe,
}

impl FoodSafeServingState {
    /// The verdict implied by a program state: only `Safe` serves.
    pub fn from_state(state: FoodSafeState) -> (r: Self)
        ensures
            r == (if state == FoodSafeState::Safe {
                FoodSafeServingState::SafeToServe
            } else {
                FoodSafeServingState::NotSafe
            }),
    {
        match state {
            FoodSafeState::Safe => FoodSafeServingState::SafeToServe,
            _ => FoodSafeServingState::NotSafe,
        }
    }

    /// Decode a raw value: one means safe, anything else not.
    pub fn from_raw(value: u8) -> (r: Self)
        ensures
            r == (if value == 1 {
                FoodSafeServingState::SafeToServe
            } else {
                FoodSafeServingState::NotSafe
            }),
    {
        match value {
            1 => FoodSafeServingState::SafeToServe,
            _ => FoodSafeServingState::NotSafe,
        }
    }

    /// The wire value of this verdict.
    pub fn to_raw(&self) -> (r: u8)
        ensures
            r == (if *self == FoodSafeServingState::SafeToServe {
                1u8
            } else {
                0u8
            }),
    {
        match self {
            FoodSafeServingState::NotSafe => 0,
            FoodSafeServingState::SafeToServe => 1,
        }
    }

    /// Whether the food is safe to serve.
    pub fn is_safe(&self) -> (r: bool)
        ensures
            r == (*self == FoodSafeServingState::SafeToServe),
    {
        matches!(self, FoodSafeServingState::SafeToServe)
    }
}

impl Default for FoodSafeServingState {
    /// Food starts not safe.
    fn default() -> (r: Self)
        ensures
            r == FoodSafeServingState::NotSafe,
    {
        FoodSafeServingState::NotSafe
    }
}

/// Everything the client knows about one probe's food-safety program.
#[derive(Debug, Clone, Copy, PartialEq, Eq, Structural)]
pub struct FoodSafeData {
    /// The coarse product being monitored.
    pub product: FoodSafeProduct,
    /// The coarse serving verdict.
    pub serving_state: FoodSafeServingState,
    /// Log reduction achieved so far, in tenths.
    pub log_reduction_deci: u8,
    /// Seconds the food has been above the minimum safe temperature.
    pub seconds_above_threshold: u32,
    /// The configuration sent to or echoed by the probe, when known.
    pub config: Option<FoodSafeConfig>,
    /// The live status last received from the probe, when known.
    pub status: Option<FoodSafeStatus>,
}

/// The target log reduction in force, in tenths: the configuration's
/// target when a configuration is known, the product default otherwise.
pub open spec fn spec_target_deci(d: FoodSafeData) -> u8 {
    match d.config {
        Some(c) => c.target_log_reduction_deci,
        None => spec_product_log_reduction_deci(d.product),
    }
}

/// Progress towards the target as a whole percentage capped at 100; a
/// zero target counts as complete.
pub open spec fn spec_progress_percent(d: FoodSafeData) -> u8 {
    let target = spec_target_deci(d);
    if target == 0 {
        100u8
    } else {
        let p = (d.log_reduction_deci * 100) / (target as int);
        if p > 100 {
            100u8
        } else {
            (p as u8)
        }
    }
}

impl FoodSafeData {
    /// Begin monitoring a product: nothing accumulated, no configuration
    /// or status yet.
    pub fn new(product: FoodSafeProduct) -> (r: Self)
        ensures
            r.product == product,
            r.serving_state == FoodSafeServingState::NotSafe,
            r.log_reduction_deci == 0 && r.seconds_above_threshold == 0,
            r.config is None && r.status is None,
    {
        FoodSafeData {
            product,
            serving_state: FoodSafeServingState::NotSafe,
            log_reduction_deci: 0,
            seconds_above_threshold: 0,
            config: None,
            status: None,
        }
    }

    /// Begin monitoring under an explicit configuration.
    pub fn with_config(config: FoodSafeConfig) -> (r: Self)
        ensures
            r.product == FoodSafeProduct::BeefSteak,
            r.serving_state == FoodSafeServingState::NotSafe,
            r.log_reduction_deci == 0 && r.seconds_above_threshold == 0,
            r.config == Some(config),
            r.status is None,
    {
        FoodSafeData {
            product: FoodSafeProduct::BeefSteak,
            serving_state: FoodSafeServingState::NotSafe,
            log_reduction_deci: 0,
            seconds_above_threshold: 0,
            config: Some(config),
            status: None,
        }
    }

    /// Assemble from a configuration and status that arrived from
    /// outside, for example set by another client.
    pub fn from_config_and_status(config: FoodSafeConfig, status: FoodSafeStatus) -> (r: Self)
        ensures
            r.product == FoodSafeProduct::BeefSteak,
            r.serving_state == (if status.state == FoodSafeState::Safe {
                FoodSafeServingState::SafeToServe
            } else {
                FoodSafeServingState::NotSafe
            }),
            r.log_reduction_deci == status.log_reduction_deci,
            r.seconds_above_threshold == status.seconds_above_threshold,
            r.config == Some(config),
            r.status == Some(status),
    {
        let serving_state = FoodSafeServingState::from_state(status.state);
        FoodSafeData {
            product: FoodSafeProduct::BeefSteak,
            serving_state,
            log_reduction_deci: status.log_reduction_deci,
            seconds_above_threshold: status.seconds_above_threshold,
            config: Some(config),
            status: Some(status),
        }
    }

    /// Replace the known configuration, for example after an external
    /// change.
    pub fn update_config(&mut self, config: FoodSafeConfig)
        ensures
            *final(self) == (FoodSafeData { config: Some(config), ..*old(self) }),
    {
        self.config = Some(config);
    }

    /// Fold one status notification in: the verdict, the accumulated
    /// numbers and the stored status all follow the notification.
    pub fn update_from_status(&mut self, status: FoodSafeStatus)
        ensures
            *final(self) == (FoodSafeData {
                serving_state: if status.state == FoodSafeState::Safe {
                    FoodSafeServingState::SafeToServe
                } else {
                    FoodSafeServingState::NotSafe
                },
                log_reduction_deci: status.log_reduction_deci,
                seconds_above_threshold: status.seconds_above_threshold,
                status: Some(status),
                ..*old(self)
            }),
    {
        self.serving_state = FoodSafeServingState::from_state(status.state);
        self.log_reduction_deci = status.log_reduction_deci;
        self.seconds_above_threshold = status.seconds_above_threshold;
        self.status = Some(status);
    }

    /// Progress towards the safe-serving target as a whole percentage
    /// capped at 100; a zero target counts as complete.
    pub fn progress_percent(&self) -> (r: u8)
        ensures
            r == spec_progress_percent(*self),
    {
        let target = match &self.config {
            Some(c) => c.target_log_reduction_deci,
            None => self.product.default_log_reduction_deci(),
        };
        if target == 0 {
            return 100;
        }
        let p: u32 = (self.log_reduction_deci as u32 * 100) / (target as u32);
        if p > 100 {
            100
        } else {
            p as u8
        }
    }

    /// Whether the food is safe to serve.
    pub fn is_safe(&self) -> (r: bool)
        ensures
            r == (self.serving_state == FoodSafeServingState::SafeToServe),
    {
        self.serving_state.is_safe()
    }

    /// The log reduction still missing towards the target, in tenths;
    /// zero once the target is met.
    pub fn remaining_reduction_deci(&self) -> (r: u8)
        ensures
            r == (if spec_target_deci(*self) >= self.log_reduction_deci {
                (spec_target_deci(*self) - self.log_reduction_deci) as u8
            } else {
                0u8
            }),
    {
        let target = match &self.config {
            Some(c) => c.target_log_reduction_deci,
            None => self.product.default_log_reduction_deci(),
        };
        if target >= self.log_reduction_deci {
            target - self.log_reduction_deci
        } else {
            0
        }
    }

    /// The program state last reported, or not-safe before any report.
    pub fn state(&self) -> (r: FoodSafeState)
        ensures
            r == (match self.status {
                Some(s) => s.state,
                None => FoodSafeState::NotSafe,
            }),
    {
        match &self.status {
            Some(s) => s.state,
            None => FoodSafeState::NotSafe,
        }
    }
}

impl Default for FoodSafeData {
    /// Same as monitoring the default product.
    fn default() -> (r: Self)
        ensures
            r.product == FoodSafeProduct::BeefSteak,
            r.serving_state == FoodSafeServingState::NotSafe,
            r.log_reduction_deci == 0 && r.seconds_above_threshold == 0,
            r.config is None && r.status is None,
    {
        FoodSafeData::new(FoodSafeProduct::BeefSteak)
    }
}

impl Default for FoodSafeStatus {
    /// A program starts not safe with nothing accumulated.
    fn default() -> (r: Self)
        ensures
            r == (FoodSafeStatus {
                state: FoodSafeState::NotSafe,
                log_reduction_deci: 0,
                seconds_above_threshold: 0,
                sequence_number: 0,
            }),
    {
        FoodSafeStatus {
            state: FoodSafeState::NotSafe,
            log_reduction_deci: 0,
            seconds_above_threshold: 0,
            sequence_number: 0,
        }
    }
}

} // verus!
