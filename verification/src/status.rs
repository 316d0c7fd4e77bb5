//! Decoding the session-status notification payload.
//!
//! While subscribed, a probe pushes a richer payload than its broadcasts:
//! the log sequence range, the eight samples, mode and battery bytes, a
//! packed prediction block, and optional trailing sections. A section is
//! present purely when the payload is long enough to hold it; callers
//! must tolerate any truncation point, and absent sections decode to
//! absent values rather than errors. Payloads under the 30-byte minimum
//! are rejected with a length error and decode nothing.

use crate::advertising::{
    spec_probe_color_from_raw, spec_probe_mode_from_raw, BatteryStatus, Overheating, ProbeColor,
    ProbeId, ProbeMode,
};
use crate::alarms::{spec_alarm_from_bits, AlarmConfig};
use crate::bits::{bits_value, le32, lemma_bits_value_in_window, read_bits};
use crate::error::Error;
use crate::food_safety::{spec_config_from_bits, spec_status_from_bits, FoodSafeConfig,
    FoodSafeStatus};
use crate::prediction::{
    spec_prediction_mode_from_raw, spec_prediction_state_from_raw, spec_prediction_type_from_raw,
    PredictionInfo,
};
use crate::preferences::{spec_power_mode_from_raw, ThermometerPreferences};
use crate::temperature::{
    spec_celsius_centi, spec_selection_from_byte, ProbeTemperatures, VirtualSensorSelection,
    VirtualTemperatures,
};
use vstd::prelude::*;

verus! {

/// The prediction block encoded at bit `off`: four state bits, two mode
/// bits, two type bits, two 10-bit temperatures in tenths of a degree, a
/// 17-bit seconds field and an 11-bit offset-encoded core estimate.
pub open spec fn spec_prediction_from_bits(bytes: Seq<u8>, off: int) -> PredictionInfo {
    PredictionInfo {
        state: spec_prediction_state_from_raw(bits_value(bytes, off, 4) as u8),
        mode: spec_prediction_mode_from_raw(bits_value(bytes, off + 4, 2) as u8),
        prediction_type: spec_prediction_type_from_raw(bits_value(bytes, off + 6, 2) as u8),
        set_point_deci: bits_value(bytes, off + 8, 10) as u16,
        heat_start_deci: bits_value(bytes, off + 18, 10) as u16,
        prediction_value_seconds: bits_value(bytes, off + 28, 17),
        estimated_core_deci: (bits_value(bytes, off + 45, 11) - 200) as i32,
        seconds_since_prediction_start: 0,
        core_sensor_index: 0,
    }
}

/// The virtual readings a session payload implies. Unlike the broadcast
/// rule, the session rule accepts any in-range core selection; a channel
/// is absent exactly when its sensor reports the sentinel.
pub open spec fn spec_status_virtual(
    temps: ProbeTemperatures,
    config_byte: u8,
) -> VirtualTemperatures {
    let sel = spec_selection_from_byte(config_byte >> 1);
    VirtualTemperatures {
        core: if sel.core_sensor < 8 {
            spec_celsius_centi(temps.values[sel.core_sensor as int].0)
        } else {
            None
        },
        surface: if sel.surface_sensor < 8 {
            spec_celsius_centi(temps.values[sel.surface_sensor as int].0)
        } else {
            None
        },
        ambient: if sel.ambient_sensor < 8 {
            spec_celsius_centi(temps.values[sel.ambient_sensor as int].0)
        } else {
            None
        },
        sensor_selection: sel,
    }
}

/// One decoded session-status observation.
#[derive(Debug, Clone, Copy, PartialEq, Eq)]
pub struct ProbeStatus {
    /// Lowest log sequence number still held on the probe.
    pub min_sequence_number: u32,
    /// Highest log sequence number on the probe.
    pub max_sequence_number: u32,
    /// All eight sensor samples.
    pub temperatures: ProbeTemperatures,
    /// Operating mode.
    pub mode: ProbeMode,
    /// Display number 1 through 8.
    pub probe_id: ProbeId,
    /// Ring colour.
    pub color: ProbeColor,
    /// Battery condition.
    pub battery_status: BatteryStatus,
    /// Derived core, surface and ambient readings.
    pub virtual_temperatures: VirtualTemperatures,
    /// The decoded prediction block.
    pub prediction: Option<PredictionInfo>,
    /// Food-safety configuration, when the payload reaches it.
    pub food_safe_config: Option<FoodSafeConfig>,
    /// Live food-safety status, when the payload reaches it.
    pub food_safe_status: Option<FoodSafeStatus>,
    /// Overheat bitmask; all clear when the payload omits it.
    pub overheating: Overheating,
    /// Thermometer preferences, when the payload reaches them.
    pub thermometer_preferences: Option<ThermometerPreferences>,
    /// The alarm table, when the payload reaches it.
    pub alarm_config: Option<AlarmConfig>,
}

impl ProbeStatus {
    /// The fixed minimum payload length in bytes, through the prediction
    /// block.
    pub const MIN_SIZE: usize = 30;

    /// Decode a session-status payload. Exactly the payloads of at least
    /// 30 bytes decode; each optional trailing section is present exactly
    /// when the payload is long enough to hold it in full, and a missing
    /// section leaves its field absent rather than failing.
    pub fn parse(data: &[u8]) -> (r: Result<Self, Error>)
        ensures
            r is Ok <==> data@.len() >= 30,
            r is Err ==> r == Err::<Self, Error>(
                Error::LengthError { length: data@.len() as usize, minimum: 30 },
            ),
            r matches Ok(s) ==> {
                &&& s.min_sequence_number == le32(data@[0], data@[1], data@[2], data@[3])
                &&& s.max_sequence_number == le32(data@[4], data@[5], data@[6], data@[7])
                &&& forall|i: int|
                    0 <= i < 8 ==> s.temperatures.values[i].0 == bits_value(
                        data@,
                        64 + 13 * i,
                        13,
                    )
                &&& s.mode == spec_probe_mode_from_raw(data@[21])
                &&& s.color == spec_probe_color_from_raw((data@[21] >> 2) & 0x07)
                &&& s.probe_id.0 == ((data@[21] >> 5) & 0x07) + 1
                &&& s.battery_status == (if data@[22] & 0x01 == 0 {
                    BatteryStatus::Okay
                } else {
                    BatteryStatus::Low
                })
                &&& s.virtual_temperatures == spec_status_virtual(s.temperatures, data@[22])
                &&& s.prediction == Some(spec_prediction_from_bits(data@, 184))
                &&& s.food_safe_config == (if data@.len() >= 40 {
                    Some(spec_config_from_bits(data@.subrange(30, 40)))
                } else {
                    Option::<FoodSafeConfig>::None
                })
                &&& s.food_safe_status == (if data@.len() >= 48 {
                    Some(spec_status_from_bits(data@.subrange(40, 48)))
                } else {
                    Option::<FoodSafeStatus>::None
                })
                &&& s.overheating.overheating_sensors == (if data@.len() > 48 {
                    data@[48]
                } else {
                    0u8
                })
                &&& s.thermometer_preferences == (if data@.len() > 49 {
                    Some(
                        ThermometerPreferences {
                            power_mode: spec_power_mode_from_raw(data@[49]),
                            reserved: (data@[49] >> 2) & 0x3F,
                        },
                    )
                } else {
                    Option::<ThermometerPreferences>::None
                })
                &&& (data@.len() >= 94 ==> (s.alarm_config matches Some(c) && forall|i: int|
                    0 <= i < 11 ==> (#[trigger] c.high_alarms[i]) == spec_alarm_from_bits(
                        data@.subrange(50, 94),
                        16 * i,
                    ) && c.low_alarms[i] == spec_alarm_from_bits(data@.subrange(50, 94), 176 + 16
                        * i)))
                &&& (data@.len() < 94 ==> s.alarm_config is None)
            },
    {
        if data.len() < Self::MIN_SIZE {
            return Err(Error::LengthError { length: data.len(), minimum: 30 });
        }
        let min_sequence_number = (data[0] as u32) | ((data[1] as u32) << 8) | ((data[2] as u32)
            << 16) | ((data[3] as u32) << 24);
        let max_sequence_number = (data[4] as u32) | ((data[5] as u32) << 8) | ((data[6] as u32)
            << 16) | ((data[7] as u32) << 24);
        let tblock = vstd::slice::slice_subrange(data, 8, 21);
        let temperatures = match ProbeTemperatures::from_packed_bytes(tblock) {
            Some(t) => t,
            None => {
                return Err(Error::LengthError { length: data.len(), minimum: 30 });
            },
        };
        proof {
            assert forall|i: int| 0 <= i < 8 implies temperatures.values[i].0 == bits_value(
                data@,
                64 + 13 * i,
                13,
            ) by {
                lemma_bits_value_in_window(data@, 8, 21, 13 * i, 13);
            }
        }
        let mode_id_byte = data[21];
        let mode = ProbeMode::from_raw(mode_id_byte & 0x03);
        let color = ProbeColor::from_raw((mode_id_byte >> 2) & 0x07);
        let probe_id = ProbeId::from_raw((mode_id_byte >> 5) & 0x07);
        let config_byte = data[22];
        let battery_status = BatteryStatus::from_raw(config_byte & 0x01);
        let virtual_temperatures = compute_status_virtual(&temperatures, config_byte);
        let prediction = Some(Self::parse_prediction(data));
        let food_safe_config = if data.len() >= 40 {
            FoodSafeConfig::from_bytes(vstd::slice::slice_subrange(data, 30, 40))
        } else {
            None
        };
        let food_safe_status = if data.len() >= 48 {
            FoodSafeStatus::from_bytes(vstd::slice::slice_subrange(data, 40, 48))
        } else {
            None
        };
        let overheating = if data.len() > 48 {
            Overheating::new(data[48])
        } else {
            Overheating::new(0)
        };
        let thermometer_preferences = if data.len() > 49 {
            Some(ThermometerPreferences::from_byte(data[49]))
        } else {
            None
        };
        let alarm_config = if data.len() >= 94 {
            AlarmConfig::from_bytes(vstd::slice::slice_subrange(data, 50, 94))
        } else {
            None
        };
        proof {
            crate::bits::lemma_and_bound_u8(mode_id_byte & 0x03, 0x03);
            crate::bits::lemma_and_bound_u8((mode_id_byte >> 5), 0x07);
            assert((mode_id_byte & 0x03) & 0x03 == mode_id_byte & 0x03) by (bit_vector);
            assert(((mode_id_byte >> 5) & 0x07) & 0x07 == (mode_id_byte >> 5) & 0x07)
                by (bit_vector);
        }
        Ok(
            ProbeStatus {
                min_sequence_number,
                max_sequence_number,
                temperatures,
                mode,
                probe_id,
                color,
                battery_status,
                virtual_temperatures,
                prediction,
                food_safe_config,
                food_safe_status,
                overheating,
                thermometer_preferences,
                alarm_config,
            },
        )
    }

    /// Decode the packed seven-byte prediction block at bytes 23 through
    /// 29.
    fn parse_prediction(data: &[u8]) -> (r: PredictionInfo)
        requires
            data@.len() >= 30,
        ensures
            r == spec_prediction_from_bits(data@, 184),
    {
        let w = vstd::slice::slice_subrange(data, 23, 30);
        let state_raw = read_bits(w, 0, 4);
        let mode_raw = read_bits(w, 4, 2);
        let type_raw = read_bits(w, 6, 2);
        let set_point = read_bits(w, 8, 10);
        let heat_start = read_bits(w, 18, 10);
        let seconds = read_bits(w, 28, 17);
        let est_core = read_bits(w, 45, 11);
        proof {
            lemma_bits_value_in_window(data@, 23, 30, 0, 4);
            lemma_bits_value_in_window(data@, 23, 30, 4, 2);
            lemma_bits_value_in_window(data@, 23, 30, 6, 2);
            lemma_bits_value_in_window(data@, 23, 30, 8, 10);
            lemma_bits_value_in_window(data@, 23, 30, 18, 10);
            lemma_bits_value_in_window(data@, 23, 30, 28, 17);
            lemma_bits_value_in_window(data@, 23, 30, 45, 11);
            crate::bits::lemma_bits_value_bound(w@, 0, 4);
            crate::bits::lemma_bits_value_bound(w@, 4, 2);
            crate::bits::lemma_bits_value_bound(w@, 6, 2);
            crate::bits::lemma_bits_value_bound(w@, 8, 10);
            crate::bits::lemma_bits_value_bound(w@, 18, 10);
            crate::bits::lemma_bits_value_bound(w@, 45, 11);
            crate::bits::lemma_shift_constants();
        }
        PredictionInfo {
            state: crate::prediction::PredictionState::from_raw(state_raw as u8),
            mode: crate::prediction::PredictionMode::from_raw(mode_raw as u8),
            prediction_type: crate::prediction::PredictionType::from_raw(type_raw as u8),
            set_point_deci: set_point as u16,
            heat_start_deci: heat_start as u16,
            prediction_value_seconds: seconds,
            estimated_core_deci: est_core as i32 - 200,
            seconds_since_prediction_start: 0,
            core_sensor_index: 0,
        }
    }

    /// How many log entries the probe holds, by its sequence bounds.
    pub fn available_log_count(&self) -> (r: u32)
        ensures
            self.max_sequence_number >= self.min_sequence_number ==> r == (
            if self.max_sequence_number - self.min_sequence_number < u32::MAX {
                self.max_sequence_number - self.min_sequence_number + 1
            } else {
                u32::MAX as int
            }),
            self.max_sequence_number < self.min_sequence_number ==> r == 1,
    {
        if self.max_sequence_number >= self.min_sequence_number {
            if self.max_sequence_number - self.min_sequence_number == u32::MAX {
                u32::MAX
            } else {
                self.max_sequence_number - self.min_sequence_number + 1
            }
        } else {
            1
        }
    }

    /// Whether the probe holds any log entries.
    pub fn has_logs(&self) -> (r: bool)
        ensures
            r == (self.max_sequence_number >= self.min_sequence_number),
    {
        self.max_sequence_number >= self.min_sequence_number
    }
}

/// Derive the virtual readings for a session payload from the sensor
/// samples and the battery/selection byte.
pub fn compute_status_virtual(
    temperatures: &ProbeTemperatures,
    config_byte: u8,
) -> (r: VirtualTemperatures)
    ensures
        r == spec_status_virtual(*temperatures, config_byte),
{
    let sensor_selection = VirtualSensorSelection::from_byte(config_byte >> 1);
    let core = if sensor_selection.core_sensor < 8 {
        temperatures.values[sensor_selection.core_sensor as usize].to_celsius_centi()
    } else {
        None
    };
    let surface = if sensor_selection.surface_sensor < 8 {
        temperatures.values[sensor_selection.surface_sensor as usize].to_celsius_centi()
    } else {
        None
    };
    let ambient = if sensor_selection.ambient_sensor < 8 {
        temperatures.values[sensor_selection.ambient_sensor as usize].to_celsius_centi()
    } else {
        None
    };
    VirtualTemperatures::with_selection(core, surface, ambient, sensor_selection)
}

} // verus!
