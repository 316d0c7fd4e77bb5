//! Client-side protocol stack for a family of wireless temperature probes.
//!
//! The crate decodes and encodes the bit-packed binary messages the probes
//! exchange over a short-range wireless transport, and maintains one
//! reconciled state snapshot per probe even though updates arrive from two
//! independent sources (broadcast advertisements and session notifications).

pub mod advertising;
pub mod alarms;
pub mod bits;
pub mod connection;
pub mod crc;
pub mod error;
pub mod food_safety;
pub mod log;
pub mod prediction;
pub mod preferences;
pub mod probe_state;
pub mod session;
pub mod status;
pub mod temperature;
pub mod uart;
pub mod uuids;

pub use advertising::{
    AdvertisingData, BatteryStatus, Overheating, ProbeColor, ProbeId, ProbeMode, ProductType,
};
pub use alarms::{AlarmConfig, AlarmStatus, ALARM_ARRAY_SIZE, ALARM_COUNT};
pub use connection::{ConnectDecision, ConnectionEvent, ConnectionState};
pub use crc::{append_crc, calculate_crc, verify_crc};
pub use error::Error;
pub use food_safety::{
    FoodSafeConfig, FoodSafeData, FoodSafeMode, FoodSafeProduct, FoodSafeServingState,
    FoodSafeState, FoodSafeStatus, IntegratedProduct, Serving, SimplifiedProduct,
};
pub use log::{LoggedDataPoint, PredictionLog, TemperatureLog};
pub use prediction::{PredictionInfo, PredictionMode, PredictionState, PredictionType};
pub use preferences::{PowerMode, ThermometerPreferences};
pub use probe_state::{DiscoveryOutcome, ProbeEvent, ProbeRegistry, ProbeState, MAX_PROBES};
pub use session::SessionInfo;
pub use status::ProbeStatus;
pub use temperature::{
    ProbeTemperatures, RawTemperature, VirtualSensorSelection, VirtualTemperatures,
};
pub use uart::{UartMessage, UartMessageHeader, UartMessageType};
