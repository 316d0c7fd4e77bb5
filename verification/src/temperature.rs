//! Raw 13-bit sensor readings and the virtual sensors derived from them.
//!
//! A probe reports eight 13-bit samples, tip to handle. The value `0x1FFF`
//! is the sentinel for "no valid reading"; every other value maps to a
//! physical temperature through `celsius = raw * 0.05 - 20`. This crate
//! carries physical temperatures as exact integers in hundredths of a
//! degree Celsius ("centi"), so that scale maps to `raw * 5 - 2000`.

use crate::bits::{
    bits_value, lemma_and_bound, lemma_bits_value_bound, lemma_bits_value_in_window,
    lemma_field_holds_value, lemma_shift_constants, read_bits, value_bit, write_bits,
};
use vstd::prelude::*;

verus! {

/// The 13-bit sentinel meaning "no valid reading".
pub const RAW_INVALID: u16 = 0x1FFF;

/// The temperature of a raw sample, in hundredths of a degree Celsius;
/// `None` for the sentinel.
pub open spec fn spec_celsius_centi(raw: u16) -> Option<i32> {
    if raw == RAW_INVALID {
        None
    } else {
        Some((raw * 5 - 2000) as i32)
    }
}

/// The raw sample nearest a temperature given in hundredths of a degree,
/// clamped to the valid 13-bit range.
pub open spec fn spec_centi_to_raw(centi: int) -> u16 {
    let scaled = centi + 2000;
    if scaled <= 0 {
        0u16
    } else if (scaled + 2) / 5 > 0x1FFE {
        0x1FFEu16
    } else {
        ((scaled + 2) / 5) as u16
    }
}

/// Encoding a temperature and decoding it again is exact for every
/// temperature the wire format can represent: whole multiples of 0.05
/// degrees from -20.00 to 389.50 Celsius.
pub proof fn lemma_temperature_round_trip(centi: int)
    requires
        -2000 <= centi <= 38950,
        centi % 5 == 0,
    ensures
        spec_celsius_centi(spec_centi_to_raw(centi)) == Some(centi as i32),
{
    let scaled = centi + 2000;
    if scaled > 0 {
        let q = scaled / 5;
        assert(scaled == 5 * q);
        assert((scaled + 2) / 5 == q);
    }
}

/// Decoding the sentinel always yields "no reading", never a number.
pub proof fn lemma_sentinel_preserved()
    ensures
        spec_celsius_centi(RAW_INVALID) is None,
{
}

/// One 13-bit sensor sample as it appears on the wire.
#[derive(Debug, Clone, Copy, PartialEq, Eq, Hash, Structural)]
pub struct RawTemperature(pub u16);

impl RawTemperature {
    /// The largest raw value that still denotes a temperature.
    pub const MAX_VALUE: u16 = 0x1FFE;

    /// Wrap a raw 13-bit value, masking anything above 13 bits away.
    pub fn new(value: u16) -> (r: Self)
        ensures
            r.0 == value & 0x1FFF,
    {
        RawTemperature(value & 0x1FFF)
    }

    /// The sentinel sample.
    pub fn invalid() -> (r: Self)
        ensures
            r.0 == RAW_INVALID,
    {
        RawTemperature(RAW_INVALID)
    }

    /// Whether this sample denotes a temperature at all.
    pub fn is_valid(&self) -> (r: bool)
        ensures
            r == (self.0 != RAW_INVALID),
    {
        self.0 != RAW_INVALID
    }

    /// The temperature in hundredths of a degree Celsius, or `None` for
    /// the sentinel.
    pub fn to_celsius_centi(&self) -> (r: Option<i32>)
        ensures
            r == spec_celsius_centi(self.0),
    {
        if self.0 == RAW_INVALID {
            None
        } else {
            Some((self.0 as i32) * 5 - 2000)
        }
    }

    /// The sample nearest a temperature in hundredths of a degree Celsius,
    /// rounded to the wire resolution and clamped to the representable
    /// range rather than overflowing.
    pub fn from_celsius_centi(centi: i32) -> (r: Self)
        ensures
            r.0 == spec_centi_to_raw(centi as int),
    {
        let scaled: i64 = centi as i64 + 2000;
        if scaled <= 0 {
            RawTemperature(0)
        } else {
            let q = (scaled + 2) / 5;
            if q > 0x1FFE {
                RawTemperature(0x1FFE)
            } else {
                RawTemperature(q as u16)
            }
        }
    }

    /// The raw 13-bit value.
    pub fn raw_value(&self) -> (r: u16)
        ensures
            r == self.0,
    {
        self.0
    }
}

impl Default for RawTemperature {
    /// A fresh sample is the sentinel until a reading arrives.
    fn default() -> (r: Self)
        ensures
            r.0 == RAW_INVALID,
    {
        RawTemperature(RAW_INVALID)
    }
}

/// All eight sensor samples of one probe, index 0 at the tip through
/// index 7 at the handle.
#[derive(Debug, Clone, Copy, PartialEq, Eq)]
pub struct ProbeTemperatures {
    /// Raw samples for sensors 0 through 7.
    pub values: [RawTemperature; 8],
}

impl ProbeTemperatures {
    /// All sensors start at the sentinel.
    pub fn new() -> (r: Self)
        ensures
            forall|i: int| 0 <= i < 8 ==> r.values[i].0 == RAW_INVALID,
    {
        ProbeTemperatures { values: [RawTemperature(RAW_INVALID);8] }
    }

    /// Wrap eight raw values, masking each to 13 bits.
    pub fn from_raw(values: [u16; 8]) -> (r: Self)
        ensures
            forall|i: int| 0 <= i < 8 ==> r.values[i].0 == values[i] & 0x1FFF,
    {
        ProbeTemperatures {
            values: [
                RawTemperature::new(values[0]),
                RawTemperature::new(values[1]),
                RawTemperature::new(values[2]),
                RawTemperature::new(values[3]),
                RawTemperature::new(values[4]),
                RawTemperature::new(values[5]),
                RawTemperature::new(values[6]),
                RawTemperature::new(values[7]),
            ],
        }
    }

    /// The sample of one sensor, or `None` past the last sensor.
    pub fn sensor(&self, index: usize) -> (r: Option<&RawTemperature>)
        ensures
            index < 8 ==> r == Some(&self.values[index as int]),
            index >= 8 ==> r is None,
    {
        if index < 8 {
            Some(&self.values[index])
        } else {
            None
        }
    }

    /// Decode the packed run of eight 13-bit samples that both the
    /// advertising and the session-status payload carry. Succeeds exactly
    /// when at least 13 bytes are present; only the first 13 are read.
    pub fn from_packed_bytes(data: &[u8]) -> (r: Option<Self>)
        ensures
            r is Some <==> data@.len() >= 13,
            r is Some ==> forall|i: int|
                0 <= i < 8 ==> r->Some_0.values[i].0 == bits_value(data@, 13 * i, 13),
    {
        if data.len() < 13 {
            return None;
        }
        let block = vstd::slice::slice_subrange(data, 0, 13);
        let mut values = [RawTemperature(RAW_INVALID);8];
        let mut i: usize = 0;
        while i < 8
            invariant
                i <= 8,
                block@ == data@.subrange(0, 13),
                data@.len() >= 13,
                forall|f: int| 0 <= f < i ==> values[f].0 == bits_value(data@, 13 * f, 13),
            decreases 8 - i,
        {
            let raw = read_bits(block, 13 * i, 13);
            proof {
                lemma_bits_value_bound(block@, 13 * i as int, 13);
                lemma_shift_constants();
                lemma_bits_value_in_window(data@, 0, 13, 13 * i as int, 13);
            }
            values[i] = RawTemperature(raw as u16);
            i += 1;
        }
        Some(ProbeTemperatures { values })
    }

    /// Encode the eight samples into the packed 13-byte wire run. Each
    /// sample lands in its 13-bit field, masked to 13 bits.
    pub fn to_packed_bytes(&self) -> (r: Vec<u8>)
        ensures
            r@.len() == 13,
            forall|i: int| 0 <= i < 8 ==> bits_value(r@, 13 * i, 13) == self.values[i].0 & 0x1FFF,
    {
        let mut out: Vec<u8> = vec![0u8; 13];
        let mut i: usize = 0;
        while i < 8
            invariant
                i <= 8,
                out@.len() == 13,
                forall|f: int| 0 <= f < i ==> bits_value(out@, 13 * f, 13) == self.values[f].0 & 0x1FFF,
            decreases 8 - i,
        {
            let v: u32 = (self.values[i].0 & 0x1FFF) as u32;
            let ghost before = out@;
            write_bits(&mut out, 13 * i, 13, v);
            proof {
                lemma_and_bound(self.values[i as int].0 as u32, 0x1FFF);
                lemma_shift_constants();
                assert(v < (1u32 << 13u32));
                assert forall|k: int| 0 <= k < 13 implies crate::bits::bit_of(
                    out@,
                    13 * (i as int) + k,
                ) == value_bit(v, k) by {}
                lemma_field_holds_value(out@, 13 * i as int, 13, v);
                assert forall|f: int| 0 <= f < i implies #[trigger] bits_value(out@, 13 * f, 13)
                    == bits_value(before, 13 * f, 13) by {
                    crate::bits::lemma_bits_value_congruence(out@, before, 13 * f, 13);
                }
            }
            i += 1;
        }
        out
    }
}

impl Default for ProbeTemperatures {
    /// Same as [`ProbeTemperatures::new`]: all sensors at the sentinel.
    fn default() -> (r: Self)
        ensures
            forall|i: int| 0 <= i < 8 ==> r.values[i].0 == RAW_INVALID,
    {
        ProbeTemperatures::new()
    }
}

/// Which physical sensor feeds each derived channel. The probe selects
/// these from insertion depth.
#[derive(Debug, Clone, Copy, PartialEq, Eq, Structural)]
pub struct VirtualSensorSelection {
    /// Sensor index feeding the core channel; chosen from 0 through 5.
    pub core_sensor: u8,
    /// Sensor index feeding the surface channel; chosen from 3 through 6.
    pub surface_sensor: u8,
    /// Sensor index feeding the ambient channel; chosen from 4 through 7.
    pub ambient_sensor: u8,
}

/// The selection encoded in the 7-bit wire field: a 3-bit core index, a
/// 2-bit surface offset from sensor 3, and a 2-bit ambient offset from
/// sensor 4.
pub open spec fn spec_selection_from_byte(byte: u8) -> VirtualSensorSelection {
    VirtualSensorSelection {
        core_sensor: byte & 0x07,
        surface_sensor: (((byte >> 3) & 0x03) + 3) as u8,
        ambient_sensor: (((byte >> 5) & 0x03) + 4) as u8,
    }
}

impl VirtualSensorSelection {
    /// Assemble a selection from three explicit sensor indices.
    pub fn new(core_sensor: u8, surface_sensor: u8, ambient_sensor: u8) -> (r: Self)
        ensures
            r.core_sensor == core_sensor,
            r.surface_sensor == surface_sensor,
            r.ambient_sensor == ambient_sensor,
    {
        VirtualSensorSelection { core_sensor, surface_sensor, ambient_sensor }
    }

    /// Decode the packed selection byte.
    pub fn from_byte(byte: u8) -> (r: Self)
        ensures
            r == spec_selection_from_byte(byte),
    {
        proof {
            crate::bits::lemma_and_bound_u8(byte >> 3, 0x03);
            crate::bits::lemma_and_bound_u8(byte >> 5, 0x03);
        }
        VirtualSensorSelection {
            core_sensor: byte & 0x07,
            surface_sensor: ((byte >> 3) & 0x03) + 3,
            ambient_sensor: ((byte >> 5) & 0x03) + 4,
        }
    }

    /// The display name of the core sensor, counted from 1.
    pub fn core_sensor_name(&self) -> (r: String)
        ensures
            self.core_sensor < 8 ==> r@ == spec_sensor_label(self.core_sensor as int),
    {
        sensor_label(self.core_sensor)
    }

    /// The display name of the surface sensor, counted from 1.
    pub fn surface_sensor_name(&self) -> (r: String)
        ensures
            self.surface_sensor < 8 ==> r@ == spec_sensor_label(self.surface_sensor as int),
    {
        sensor_label(self.surface_sensor)
    }

    /// The display name of the ambient sensor, counted from 1.
    pub fn ambient_sensor_name(&self) -> (r: String)
        ensures
            self.ambient_sensor < 8 ==> r@ == spec_sensor_label(self.ambient_sensor as int),
    {
        sensor_label(self.ambient_sensor)
    }
}

impl Default for VirtualSensorSelection {
    /// All indices zero, as an unconfigured probe reports them.
    fn default() -> (r: Self)
        ensures
            r.core_sensor == 0 && r.surface_sensor == 0 && r.ambient_sensor == 0,
    {
        VirtualSensorSelection { core_sensor: 0, surface_sensor: 0, ambient_sensor: 0 }
    }
}

/// The display name of physical sensor `n`, counted from 1.
pub open spec fn spec_sensor_label(n: int) -> Seq<char> {
    if n == 0 {
        "T1"@
    } else if n == 1 {
        "T2"@
    } else if n == 2 {
        "T3"@
    } else if n == 3 {
        "T4"@
    } else if n == 4 {
        "T5"@
    } else if n == 5 {
        "T6"@
    } else if n == 6 {
        "T7"@
    } else {
        "T8"@
    }
}

/// Name a sensor index for display; indices past the last sensor fall back
/// to a question mark.
pub fn sensor_label(n: u8) -> (r: String)
    ensures
        n < 8 ==> r@ == spec_sensor_label(n as int),
{
    match n {
        0 => "T1".to_owned(),
        1 => "T2".to_owned(),
        2 => "T3".to_owned(),
        3 => "T4".to_owned(),
        4 => "T5".to_owned(),
        5 => "T6".to_owned(),
        6 => "T7".to_owned(),
        7 => "T8".to_owned(),
        _ => "T?".to_owned(),
    }
}

/// The derived core, surface and ambient temperatures, in hundredths of a
/// degree Celsius. A channel is `None` exactly when its selected sensor is
/// out of range or reports the sentinel.
#[derive(Debug, Clone, Copy, PartialEq, Eq)]
pub struct VirtualTemperatures {
    /// Core channel: the coldest part of the food.
    pub core: Option<i32>,
    /// Surface channel: where the food meets the cooking medium.
    pub surface: Option<i32>,
    /// Ambient channel: the cooking environment.
    pub ambient: Option<i32>,
    /// Which physical sensors fed the three channels.
    pub sensor_selection: VirtualSensorSelection,
}

impl VirtualTemperatures {
    /// Assemble readings with the default selection.
    pub fn new(core: Option<i32>, surface: Option<i32>, ambient: Option<i32>) -> (r: Self)
        ensures
            r.core == core && r.surface == surface && r.ambient == ambient,
            r.sensor_selection == (VirtualSensorSelection {
                core_sensor: 0,
                surface_sensor: 0,
                ambient_sensor: 0,
            }),
    {
        VirtualTemperatures {
            core,
            surface,
            ambient,
            sensor_selection: VirtualSensorSelection { core_sensor: 0, surface_sensor: 0, ambient_sensor: 0 },
        }
    }

    /// Assemble readings together with the selection that produced them.
    pub fn with_selection(
        core: Option<i32>,
        surface: Option<i32>,
        ambient: Option<i32>,
        sensor_selection: VirtualSensorSelection,
    ) -> (r: Self)
        ensures
            r.core == core && r.surface == surface && r.ambient == ambient,
            r.sensor_selection == sensor_selection,
    {
        VirtualTemperatures { core, surface, ambient, sensor_selection }
    }
}

impl Default for VirtualTemperatures {
    /// No channel has a reading before the first update.
    fn default() -> (r: Self)
        ensures
            r.core is None && r.surface is None && r.ambient is None,
            r.sensor_selection == (VirtualSensorSelection {
                core_sensor: 0,
                surface_sensor: 0,
                ambient_sensor: 0,
            }),
    {
        VirtualTemperatures::new(None, None, None)
    }
}

} // verus!
