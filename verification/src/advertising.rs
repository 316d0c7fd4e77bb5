//! Decoding the broadcast advertising payload.
//!
//! A probe broadcasts its identity and all eight samples without any
//! session: one product-type byte, a 4-byte serial, the packed 13-byte
//! sensor run, a mode/color/id byte, a battery/virtual-selection byte and,
//! when present, a trailing overheat bitmask. Payloads shorter than 20
//! bytes are rejected with a length error; once the length is validated no
//! field can fail, reserved values fall back to defined variants.

use crate::bits::{bits_value, le32, lemma_bits_value_in_window};
use crate::error::Error;
use crate::temperature::{
    spec_celsius_centi, spec_selection_from_byte, ProbeTemperatures, VirtualSensorSelection,
    VirtualTemperatures,
};
use vstd::prelude::*;

verus! {

/// What kind of device sent a broadcast.
#[derive(Debug, Clone, Copy, PartialEq, Eq, Hash, Structural)]
pub enum ProductType {
    /// An unrecognised product byte.
    Unknown,
    /// The predictive thermometer probe this stack manages.
    PredictiveProbe,
    /// A repeater node.
    MeatNetRepeater,
    /// A grill-mounted gauge.
    GiantGrillGauge,
    /// A kitchen display.
    Display,
    /// A charging booster.
    Booster,
}

/// The product type a raw advertising byte denotes.
pub open spec fn spec_product_type_from_raw(value: u8) -> ProductType {
    if value == 1 {
        ProductType::PredictiveProbe
    } else if value == 2 {
        ProductType::MeatNetRepeater
    } else if value == 3 {
        ProductType::GiantGrillGauge
    } else if value == 4 {
        ProductType::Display
    } else if value == 5 {
        ProductType::Booster
    } else {
        ProductType::Unknown
    }
}

impl ProductType {
    /// Decode the product-type byte; unrecognised values become `Unknown`.
    pub fn from_raw(value: u8) -> (r: Self)
        ensures
            r == spec_product_type_from_raw(value),
    {
        match value {
            1 => ProductType::PredictiveProbe,
            2 => ProductType::MeatNetRepeater,
            3 => ProductType::GiantGrillGauge,
            4 => ProductType::Display,
            5 => ProductType::Booster,
            _ => ProductType::Unknown,
        }
    }

    /// Whether this device is a predictive probe.
    pub fn is_predictive_probe(&self) -> (r: bool)
        ensures
            r == (*self == ProductType::PredictiveProbe),
    {
        matches!(self, ProductType::PredictiveProbe)
    }

    /// Older name for [`ProductType::is_predictive_probe`].
    pub fn is_probe(&self) -> (r: bool)
        ensures
            r == (*self == ProductType::PredictiveProbe),
    {
        self.is_predictive_probe()
    }
}

/// The probe's operating mode, from two bits of the mode/id byte.
#[derive(Debug, Clone, Copy, PartialEq, Eq, Hash, Structural)]
pub enum ProbeMode {
    /// Normal cooking mode.
    Normal,
    /// Instant-read mode with fast updates.
    InstantRead,
    /// Reserved for future use.
    Reserved,
    /// Error state.
    Error,
}

/// The mode the low two bits of a raw byte denote.
pub open spec fn spec_probe_mode_from_raw(value: u8) -> ProbeMode {
    if value & 0x03 == 0 {
        ProbeMode::Normal
    } else if value & 0x03 == 1 {
        ProbeMode::InstantRead
    } else if value & 0x03 == 2 {
        ProbeMode::Reserved
    } else {
        ProbeMode::Error
    }
}

impl ProbeMode {
    /// Decode the low two bits of a raw byte.
    pub fn from_raw(value: u8) -> (r: Self)
        ensures
            r == spec_probe_mode_from_raw(value),
    {
        match value & 0x03 {
            0 => ProbeMode::Normal,
            1 => ProbeMode::InstantRead,
            2 => ProbeMode::Reserved,
            _ => ProbeMode::Error,
        }
    }

    /// The two-bit wire value of this mode.
    pub fn to_raw(&self) -> (r: u8)
        ensures
            spec_probe_mode_from_raw(r) == *self,
            r <= 3,
    {
        proof {
            crate::bits::lemma_small_masks();
        }
        match self {
            ProbeMode::Normal => 0,
            ProbeMode::InstantRead => 1,
            ProbeMode::Reserved => 2,
            ProbeMode::Error => 3,
        }
    }
}

impl Default for ProbeMode {
    /// A probe starts in normal mode.
    fn default() -> (r: Self)
        ensures
            r == ProbeMode::Normal,
    {
        ProbeMode::Normal
    }
}

/// Battery condition, from one bit of the battery/selection byte.
#[derive(Debug, Clone, Copy, PartialEq, Eq, Hash, Structural)]
pub enum BatteryStatus {
    /// Battery is fine.
    Okay,
    /// Battery is low.
    Low,
}

impl BatteryStatus {
    /// Decode the battery bit: zero is fine, anything else is low.
    pub fn from_raw(value: u8) -> (r: Self)
        ensures
            r == (if value == 0 {
                BatteryStatus::Okay
            } else {
                BatteryStatus::Low
            }),
    {
        if value == 0 {
            BatteryStatus::Okay
        } else {
            BatteryStatus::Low
        }
    }

    /// Whether the battery is low.
    pub fn is_low(&self) -> (r: bool)
        ensures
            r == (*self == BatteryStatus::Low),
    {
        matches!(self, BatteryStatus::Low)
    }
}

impl Default for BatteryStatus {
    /// Assume a fine battery until told otherwise.
    fn default() -> (r: Self)
        ensures
            r == BatteryStatus::Okay,
    {
        BatteryStatus::Okay
    }
}

/// A probe's display number, 1 through 8.
#[derive(Debug, Clone, Copy, PartialEq, Eq, Hash, Structural)]
pub struct ProbeId(pub u8);

/// A display number clamped into 1 through 8.
pub open spec fn spec_probe_id_clamp(value: u8) -> u8 {
    if value < 1 {
        1u8
    } else if value > 8 {
        8u8
    } else {
        value
    }
}

impl ProbeId {
    /// Smallest display number.
    pub const MIN: u8 = 1;

    /// Largest display number.
    pub const MAX: u8 = 8;

    /// Wrap a display number, clamping into the valid range.
    pub fn new(value: u8) -> (r: Self)
        ensures
            r.0 == spec_probe_id_clamp(value),
    {
        if value < 1 {
            ProbeId(1)
        } else if value > 8 {
            ProbeId(8)
        } else {
            ProbeId(value)
        }
    }

    /// Decode the three-bit wire value, which counts from zero.
    pub fn from_raw(value: u8) -> (r: Self)
        ensures
            r.0 == (value & 0x07) + 1,
    {
        proof {
            crate::bits::lemma_and_bound_u8(value, 0x07);
        }
        ProbeId::new((value & 0x07) + 1)
    }

    /// The three-bit wire value, counting from zero.
    pub fn to_raw(&self) -> (r: u8)
        ensures
            r == (if self.0 >= 1 {
                ((self.0 - 1) as u8) & 0x07
            } else {
                0u8
            }),
    {
        if self.0 >= 1 {
            (self.0 - 1) & 0x07
        } else {
            0
        }
    }

    /// The display number itself.
    pub fn as_u8(&self) -> (r: u8)
        ensures
            r == self.0,
    {
        self.0
    }
}

impl Default for ProbeId {
    /// Probes ship as number 1.
    fn default() -> (r: Self)
        ensures
            r.0 == 1,
    {
        ProbeId(1)
    }
}

/// The colour of the probe's silicone ring.
#[derive(Debug, Clone, Copy, PartialEq, Eq, Hash, Structural)]
pub enum ProbeColor {
    /// Yellow ring.
    Yellow,
    /// Grey ring.
    Grey,
    /// Red ring.
    Red,
    /// Orange ring.
    Orange,
    /// Blue ring.
    Blue,
    /// Green ring.
    Green,
    /// Purple ring.
    Purple,
    /// Pink ring.
    Pink,
}

/// The colour the low three bits of a raw byte denote.
pub open spec fn spec_probe_color_from_raw(value: u8) -> ProbeColor {
    let v = value & 0x07;
    if v == 0 {
        ProbeColor::Yellow
    } else if v == 1 {
        ProbeColor::Grey
    } else if v == 2 {
        ProbeColor::Red
    } else if v == 3 {
        ProbeColor::Orange
    } else if v == 4 {
        ProbeColor::Blue
    } else if v == 5 {
        ProbeColor::Green
    } else if v == 6 {
        ProbeColor::Purple
    } else {
        ProbeColor::Pink
    }
}

impl ProbeColor {
    /// Decode the low three bits of a raw byte.
    pub fn from_raw(value: u8) -> (r: Self)
        ensures
            r == spec_probe_color_from_raw(value),
    {
        match value & 0x07 {
            0 => ProbeColor::Yellow,
            1 => ProbeColor::Grey,
            2 => ProbeColor::Red,
            3 => ProbeColor::Orange,
            4 => ProbeColor::Blue,
            5 => ProbeColor::Green,
            6 => ProbeColor::Purple,
            _ => ProbeColor::Pink,
        }
    }

    /// The three-bit wire value of this colour.
    pub fn to_raw(&self) -> (r: u8)
        ensures
            spec_probe_color_from_raw(r) == *self,
            r <= 7,
    {
        proof {
            crate::bits::lemma_small_masks();
        }
        match self {
            ProbeColor::Yellow => 0,
            ProbeColor::Grey => 1,
            ProbeColor::Red => 2,
            ProbeColor::Orange => 3,
            ProbeColor::Blue => 4,
            ProbeColor::Green => 5,
            ProbeColor::Purple => 6,
            ProbeColor::Pink => 7,
        }
    }

    /// The colour's display name.
    pub fn name(&self) -> (r: &'static str)
        ensures
            *self == ProbeColor::Yellow ==> r@ == "Yellow"@,
            *self == ProbeColor::Grey ==> r@ == "Grey"@,
            *self == ProbeColor::Red ==> r@ == "Red"@,
            *self == ProbeColor::Orange ==> r@ == "Orange"@,
            *self == ProbeColor::Blue ==> r@ == "Blue"@,
            *self == ProbeColor::Green ==> r@ == "Green"@,
            *self == ProbeColor::Purple ==> r@ == "Purple"@,
            *self == ProbeColor::Pink ==> r@ == "Pink"@,
    {
        match self {
            ProbeColor::Yellow => "Yellow",
            ProbeColor::Grey => "Grey",
            ProbeColor::Red => "Red",
            ProbeColor::Orange => "Orange",
            ProbeColor::Blue => "Blue",
            ProbeColor::Green => "Green",
            ProbeColor::Purple => "Purple",
            ProbeColor::Pink => "Pink",
        }
    }
}

impl Default for ProbeColor {
    /// Probes ship with a yellow ring.
    fn default() -> (r: Self)
        ensures
            r == ProbeColor::Yellow,
    {
        ProbeColor::Yellow
    }
}

/// The bitmask of sensors currently over their thermal limit; bit 0 is the
/// tip sensor, bit 7 the handle sensor.
#[derive(Debug, Clone, Copy, PartialEq, Eq, Structural)]
pub struct Overheating {
    /// One bit per sensor, set while that sensor overheats.
    pub overheating_sensors: u8,
}

/// The ascending list of sensor indices whose bits are set among the low
/// `n` bits of `mask`.
pub open spec fn spec_overheating_indices(mask: u8, n: int) -> Seq<usize>
    decreases n,
{
    if n <= 0 {
        Seq::empty()
    } else {
        spec_overheating_indices(mask, n - 1) + (if crate::bits::byte_bit(mask, n - 1) {
            seq![(n - 1) as usize]
        } else {
            Seq::empty()
        })
    }
}

impl Overheating {
    /// Wrap an overheat bitmask.
    pub fn new(sensors: u8) -> (r: Self)
        ensures
            r.overheating_sensors == sensors,
    {
        Overheating { overheating_sensors: sensors }
    }

    /// Whether the given sensor overheats; indices past the last sensor
    /// never do.
    pub fn is_sensor_overheating(&self, sensor_index: usize) -> (r: bool)
        ensures
            r == (sensor_index <= 7 && crate::bits::byte_bit(
                self.overheating_sensors,
                sensor_index as int,
            )),
    {
        if sensor_index > 7 {
            return false;
        }
        (self.overheating_sensors >> (sensor_index as u8)) & 1 == 1
    }

    /// Whether any of the four tip-side sensors overheats.
    pub fn is_internal_overheating(&self) -> (r: bool)
        ensures
            r == (self.overheating_sensors & 0x0F != 0),
    {
        (self.overheating_sensors & 0x0F) != 0
    }

    /// Whether any of the four handle-side sensors overheats.
    pub fn is_handle_overheating(&self) -> (r: bool)
        ensures
            r == (self.overheating_sensors & 0xF0 != 0),
    {
        (self.overheating_sensors & 0xF0) != 0
    }

    /// Whether any sensor at all overheats.
    pub fn is_any_overheating(&self) -> (r: bool)
        ensures
            r == (self.overheating_sensors != 0),
    {
        self.overheating_sensors != 0
    }

    /// The ascending list of overheating sensor indices.
    pub fn overheating_indices(&self) -> (r: Vec<usize>)
        ensures
            r@ == spec_overheating_indices(self.overheating_sensors, 8),
    {
        let mut out: Vec<usize> = Vec::new();
        let mut i: usize = 0;
        while i < 8
            invariant
                i <= 8,
                out@ == spec_overheating_indices(self.overheating_sensors, i as int),
            decreases 8 - i,
        {
            if (self.overheating_sensors >> (i as u8)) & 1 == 1 {
                out.push(i);
                proof {
                    assert(out@ =~= spec_overheating_indices(
                        self.overheating_sensors,
                        i as int + 1,
                    ));
                }
            } else {
                proof {
                    assert(out@ =~= spec_overheating_indices(
                        self.overheating_sensors,
                        i as int + 1,
                    ));
                }
            }
            i += 1;
        }
        out
    }
}

impl Default for Overheating {
    /// No sensor overheats until a payload says so.
    fn default() -> (r: Self)
        ensures
            r.overheating_sensors == 0,
    {
        Overheating { overheating_sensors: 0 }
    }
}

/// The virtual readings an advertising payload implies: the broadcast rule
/// accepts core selections 0 through 5 and any in-range surface or ambient
/// selection, and a selected sensor that reports the sentinel leaves its
/// channel absent.
pub open spec fn spec_advertising_virtual(
    temps: ProbeTemperatures,
    sel_byte: u8,
) -> VirtualTemperatures {
    let sel = spec_selection_from_byte(sel_byte);
    VirtualTemperatures {
        core: if sel.core_sensor < 6 {
            spec_celsius_centi(temps.values[sel.core_sensor as int].0)
        } else {
            None
        },
        surface: if sel.surface_sensor < 8 {
            spec_celsius_centi(temps.values[sel.surface_sensor as int].0)
        } else {
            None
        },
        ambient: if sel.ambient_sensor < 8 {
            spec_celsius_centi(temps.values[sel.ambient_sensor as int].0)
        } else {
            None
        },
        sensor_selection: sel,
    }
}

/// Derive the virtual readings for an advertising payload from the sensor
/// samples and the 7-bit selection field.
pub fn compute_virtual_temps(
    temperatures: &ProbeTemperatures,
    virtual_sensors_byte: u8,
) -> (r: VirtualTemperatures)
    ensures
        r == spec_advertising_virtual(*temperatures, virtual_sensors_byte),
{
    let sensor_selection = VirtualSensorSelection::from_byte(virtual_sensors_byte);
    let core = if sensor_selection.core_sensor < 6 {
        temperatures.values[sensor_selection.core_sensor as usize].to_celsius_centi()
    } else {
        None
    };
    let surface = if sensor_selection.surface_sensor < 8 {
        temperatures.values[sensor_selection.surface_sensor as usize].to_celsius_centi()
    } else {
        None
    };
    let ambient = if sensor_selection.ambient_sensor < 8 {
        temperatures.values[sensor_selection.ambient_sensor as usize].to_celsius_centi()
    } else {
        None
    };
    VirtualTemperatures::with_selection(core, surface, ambient, sensor_selection)
}

/// One decoded broadcast observation.
#[derive(Debug, Clone, Copy, PartialEq, Eq)]
pub struct AdvertisingData {
    /// What kind of device broadcast this.
    pub product_type: ProductType,
    /// The device's unique serial number.
    pub serial_number: u32,
    /// All eight sensor samples.
    pub temperatures: ProbeTemperatures,
    /// Operating mode.
    pub mode: ProbeMode,
    /// Display number 1 through 8.
    pub probe_id: ProbeId,
    /// Ring colour.
    pub color: ProbeColor,
    /// Battery condition.
    pub battery_status: BatteryStatus,
    /// Derived core, surface and ambient readings.
    pub virtual_temperatures: VirtualTemperatures,
    /// Bitmask of overheating sensors; zero when the payload omits it.
    pub overheating_sensors: u8,
}

impl AdvertisingData {
    /// The fixed minimum advertising payload length in bytes.
    pub const MIN_SIZE: usize = 20;

    /// Decode a broadcast payload. Exactly the payloads of at least 20
    /// bytes decode; shorter ones are rejected with a length error before
    /// any field is read. The trailing overheat byte is used only when the
    /// payload reaches 22 bytes.
    pub fn parse(data: &[u8]) -> (r: Result<Self, Error>)
        ensures
            r is Ok <==> data@.len() >= 20,
            r is Err ==> r == Err::<Self, Error>(
                Error::LengthError { length: data@.len() as usize, minimum: 20 },
            ),
            r matches Ok(adv) ==> {
                &&& adv.product_type == spec_product_type_from_raw(data@[0])
                &&& adv.serial_number == le32(data@[1], data@[2], data@[3], data@[4])
                &&& forall|i: int|
                    0 <= i < 8 ==> adv.temperatures.values[i].0 == bits_value(
                        data@,
                        40 + 13 * i,
                        13,
                    )
                &&& adv.mode == spec_probe_mode_from_raw(data@[18])
                &&& adv.color == spec_probe_color_from_raw((data@[18] >> 2) & 0x07)
                &&& adv.probe_id.0 == ((data@[18] >> 5) & 0x07) + 1
                &&& adv.battery_status == (if data@[19] & 0x01 == 0 {
                    BatteryStatus::Okay
                } else {
                    BatteryStatus::Low
                })
                &&& adv.virtual_temperatures == spec_advertising_virtual(
                    adv.temperatures,
                    data@[19] >> 1,
                )
                &&& adv.overheating_sensors == (if data@.len() >= 22 {
                    data@[21]
                } else {
                    0u8
                })
            },
    {
        if data.len() < 20 {
            return Err(Error::LengthError { length: data.len(), minimum: 20 });
        }
        let product_type = ProductType::from_raw(data[0]);
        let serial_number = (data[1] as u32) | ((data[2] as u32) << 8) | ((data[3] as u32) << 16)
            | ((data[4] as u32) << 24);
        let block = vstd::slice::slice_subrange(data, 5, 18);
        let temperatures = match ProbeTemperatures::from_packed_bytes(block) {
            Some(t) => t,
            None => {
                return Err(Error::LengthError { length: data.len(), minimum: 20 });
            },
        };
        proof {
            assert forall|i: int| 0 <= i < 8 implies temperatures.values[i].0 == bits_value(
                data@,
                40 + 13 * i,
                13,
            ) by {
                lemma_bits_value_in_window(data@, 5, 18, 13 * i, 13);
            }
        }
        let mode_id_byte = data[18];
        let mode = ProbeMode::from_raw(mode_id_byte & 0x03);
        let color = ProbeColor::from_raw((mode_id_byte >> 2) & 0x07);
        let probe_id = ProbeId::from_raw((mode_id_byte >> 5) & 0x07);
        let status_byte = data[19];
        let battery_status = BatteryStatus::from_raw(status_byte & 0x01);
        let virtual_temperatures = compute_virtual_temps(&temperatures, status_byte >> 1);
        let overheating_sensors = if data.len() >= 22 {
            data[21]
        } else {
            0
        };
        proof {
            crate::bits::lemma_and_bound_u8(mode_id_byte & 0x03, 0x03);
            crate::bits::lemma_and_bound_u8((mode_id_byte >> 5), 0x07);
            assert((mode_id_byte & 0x03) & 0x03 == mode_id_byte & 0x03) by (bit_vector);
            assert(((mode_id_byte >> 5) & 0x07) & 0x07 == (mode_id_byte >> 5) & 0x07)
                by (bit_vector);
        }
        Ok(
            AdvertisingData {
                product_type,
                serial_number,
                temperatures,
                mode,
                probe_id,
                color,
                battery_status,
                virtual_temperatures,
                overheating_sensors,
            },
        )
    }

    /// Whether any sensor is over its thermal limit.
    pub fn is_any_overheating(&self) -> (r: bool)
        ensures
            r == (self.overheating_sensors != 0),
    {
        self.overheating_sensors != 0
    }

    /// Whether the given sensor is over its thermal limit; indices past the
    /// last sensor never are.
    pub fn is_sensor_overheating(&self, index: usize) -> (r: bool)
        ensures
            r == (index <= 7 && crate::bits::byte_bit(self.overheating_sensors, index as int)),
    {
        if index > 7 {
            return false;
        }
        (self.overheating_sensors >> (index as u8)) & 1 == 1
    }
}

} // verus!
