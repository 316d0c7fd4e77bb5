//! High and low temperature alarms.
//!
//! Each alarm packs into two bytes: three flag bits and a 13-bit threshold
//! temperature at 0.1 degree resolution with a +20 degree offset. The full
//! table holds eleven high alarms followed by eleven low alarms, covering
//! the eight physical sensors and the three virtual channels, 44 bytes in
//! all. Temperatures are exact integers in tenths of a degree Celsius.

use crate::bits::{bits_value, lemma_bits_value_in_window, lemma_shift_constants, read_bits,
    write_fields};
use vstd::prelude::*;

verus! {

/// Number of alarms in each array: eight sensors plus core, surface and
/// ambient.
pub const ALARM_COUNT: usize = 11;

/// Bytes in one alarm array.
pub const ALARM_ARRAY_SIZE: usize = 22;

/// One high or low alarm.
#[derive(Debug, Clone, Copy, PartialEq, Eq, Structural)]
pub struct AlarmStatus {
    /// Whether the alarm is enabled.
    pub set: bool,
    /// Whether the alarm has been triggered.
    pub tripped: bool,
    /// Whether the alarm is currently sounding.
    pub alarming: bool,
    /// The threshold, in tenths of a degree Celsius.
    pub temperature_deci: i32,
}

/// The raw 13-bit threshold encoding of a temperature in tenths of a
/// degree: shifted by +200 and clamped to the field rather than wrapping.
pub open spec fn spec_alarm_temp_raw(deci: int) -> u16 {
    if deci + 200 <= 0 {
        0u16
    } else if deci + 200 > 0x1FFF {
        0x1FFFu16
    } else {
        ((deci + 200) as u16)
    }
}

/// The alarm encoded at bit `off` of a buffer.
pub open spec fn spec_alarm_from_bits(bytes: Seq<u8>, off: int) -> AlarmStatus {
    AlarmStatus {
        set: bits_value(bytes, off, 1) == 1,
        tripped: bits_value(bytes, off + 1, 1) == 1,
        alarming: bits_value(bytes, off + 2, 1) == 1,
        temperature_deci: (bits_value(bytes, off + 3, 13) - 200) as i32,
    }
}

/// What survives one encode of an alarm: the flags exactly, and the
/// threshold rounded into the representable range.
pub open spec fn spec_alarm_clamp(a: AlarmStatus) -> AlarmStatus {
    AlarmStatus {
        set: a.set,
        tripped: a.tripped,
        alarming: a.alarming,
        temperature_deci: (spec_alarm_temp_raw(a.temperature_deci as int) - 200) as i32,
    }
}

/// Encoding an alarm and decoding it again is the identity for every
/// threshold the 13-bit field can carry: -20.0 through 799.1 degrees
/// Celsius, in tenths.
pub proof fn lemma_alarm_round_trip(a: AlarmStatus)
    requires
        -200 <= a.temperature_deci <= 7991,
    ensures
        spec_alarm_clamp(a) == a,
{
}

impl AlarmStatus {
    /// Size of one encoded alarm in bytes.
    pub const SIZE: usize = 2;

    /// A fresh alarm with the given threshold, not yet tripped.
    pub fn new(temperature_deci: i32, enabled: bool) -> (r: Self)
        ensures
            r == (AlarmStatus { set: enabled, tripped: false, alarming: false, temperature_deci }),
    {
        AlarmStatus { set: enabled, tripped: false, alarming: false, temperature_deci }
    }

    /// A disabled alarm with a zero threshold.
    pub fn disabled() -> (r: Self)
        ensures
            r == (AlarmStatus {
                set: false,
                tripped: false,
                alarming: false,
                temperature_deci: 0,
            }),
    {
        AlarmStatus { set: false, tripped: false, alarming: false, temperature_deci: 0 }
    }

    /// Decode one packed alarm. Succeeds exactly when two bytes are
    /// present; only the first two are read.
    pub fn from_bytes(bytes: &[u8]) -> (r: Option<Self>)
        ensures
            r is Some <==> bytes@.len() >= 2,
            r is Some ==> r == Some(spec_alarm_from_bits(bytes@, 0)),
    {
        if bytes.len() < 2 {
            return None;
        }
        let window = vstd::slice::slice_subrange(bytes, 0, 2);
        let set = read_bits(window, 0, 1) == 1;
        let tripped = read_bits(window, 1, 1) == 1;
        let alarming = read_bits(window, 2, 1) == 1;
        let raw = read_bits(window, 3, 13);
        proof {
            lemma_bits_value_in_window(bytes@, 0, 2, 0, 1);
            lemma_bits_value_in_window(bytes@, 0, 2, 1, 1);
            lemma_bits_value_in_window(bytes@, 0, 2, 2, 1);
            lemma_bits_value_in_window(bytes@, 0, 2, 3, 13);
            crate::bits::lemma_bits_value_bound(window@, 3, 13);
            lemma_shift_constants();
        }
        Some(
            AlarmStatus {
                set,
                tripped,
                alarming,
                temperature_deci: raw as i32 - 200,
            },
        )
    }

    /// Encode into the packed two-byte form; the threshold is clamped to
    /// its field, never wrapped.
    pub fn to_bytes(&self) -> (r: Vec<u8>)
        ensures
            r@.len() == 2,
            spec_alarm_from_bits(r@, 0) == spec_alarm_clamp(*self),
    {
        let shifted: i64 = self.temperature_deci as i64 + 200;
        let raw: u32 = if shifted <= 0 {
            0
        } else if shifted > 0x1FFF {
            0x1FFF
        } else {
            shifted as u32
        };
        let mut fields: Vec<(usize, usize, u32)> = Vec::new();
        fields.push((0, 1, if self.set { 1 } else { 0 }));
        fields.push((1, 1, if self.tripped { 1 } else { 0 }));
        fields.push((2, 1, if self.alarming { 1 } else { 0 }));
        fields.push((3, 13, raw));
        let mut out: Vec<u8> = vec![0u8; 2];
        proof {
            lemma_shift_constants();
        }
        write_fields(&mut out, &fields);
        proof {
            assert(bits_value(out@, fields@[0].0 as int, fields@[0].1 as int) == fields@[0].2);
            assert(bits_value(out@, fields@[1].0 as int, fields@[1].1 as int) == fields@[1].2);
            assert(bits_value(out@, fields@[2].0 as int, fields@[2].1 as int) == fields@[2].2);
            assert(bits_value(out@, fields@[3].0 as int, fields@[3].1 as int) == fields@[3].2);
        }
        out
    }

    /// Whether the alarm is enabled.
    pub fn is_enabled(&self) -> (r: bool)
        ensures
            r == self.set,
    {
        self.set
    }

    /// Whether the alarm has been triggered.
    pub fn is_tripped(&self) -> (r: bool)
        ensures
            r == self.tripped,
    {
        self.tripped
    }

    /// Whether the alarm is currently sounding.
    pub fn is_alarming(&self) -> (r: bool)
        ensures
            r == self.alarming,
    {
        self.alarming
    }
}

impl Default for AlarmStatus {
    /// Same as [`AlarmStatus::disabled`].
    fn default() -> (r: Self)
        ensures
            r == (AlarmStatus {
                set: false,
                tripped: false,
                alarming: false,
                temperature_deci: 0,
            }),
    {
        AlarmStatus::disabled()
    }
}

/// The full alarm table: eleven high alarms then eleven low alarms.
/// Indices 0 through 7 are the physical sensors; 8, 9 and 10 are the
/// core, surface and ambient channels.
#[derive(Debug, Clone, Copy, PartialEq, Eq)]
pub struct AlarmConfig {
    /// High-temperature alarms.
    pub high_alarms: [AlarmStatus; 11],
    /// Low-temperature alarms.
    pub low_alarms: [AlarmStatus; 11],
}

/// Whether the alarm encoded at bit `off` decodes to the clamp of `a`.
pub open spec fn spec_alarm_encoded_at(bytes: Seq<u8>, off: int, a: AlarmStatus) -> bool {
    spec_alarm_from_bits(bytes, off) == spec_alarm_clamp(a)
}

/// Whether any entry of one alarm array has its `tripped` flag set.
pub open spec fn spec_any_tripped(c: AlarmConfig) -> bool {
    exists|i: int| 0 <= i < 11 && (#[trigger] c.high_alarms[i].tripped || c.low_alarms[i].tripped)
}

/// Whether any entry of one alarm array has its `alarming` flag set.
pub open spec fn spec_any_alarming(c: AlarmConfig) -> bool {
    exists|i: int| 0 <= i < 11 && (#[trigger] c.high_alarms[i].alarming || c.low_alarms[i].alarming)
}

/// Whether any entry of one alarm array is enabled.
pub open spec fn spec_any_enabled(c: AlarmConfig) -> bool {
    exists|i: int| 0 <= i < 11 && (#[trigger] c.high_alarms[i].set || c.low_alarms[i].set)
}

impl AlarmConfig {
    /// Total size of the encoded table in bytes.
    pub const SIZE: usize = 44;

    /// A table with every alarm disabled.
    pub fn new() -> (r: Self)
        ensures
            forall|i: int|
                0 <= i < 11 ==> r.high_alarms[i] == AlarmStatus::disabled_spec()
                    && r.low_alarms[i] == AlarmStatus::disabled_spec(),
    {
        AlarmConfig {
            high_alarms: [AlarmStatus::disabled();11],
            low_alarms: [AlarmStatus::disabled();11],
        }
    }

    /// Replace the high alarm of one sensor; indices past the table are
    /// ignored.
    pub fn set_high_alarm(&mut self, sensor_index: usize, temperature_deci: i32, enabled: bool)
        ensures
            sensor_index < 11 ==> final(self).high_alarms@ == old(self).high_alarms@.update(
                sensor_index as int,
                AlarmStatus {
                    set: enabled,
                    tripped: false,
                    alarming: false,
                    temperature_deci,
                },
            ),
            sensor_index >= 11 ==> final(self).high_alarms@ == old(self).high_alarms@,
            final(self).low_alarms@ == old(self).low_alarms@,
    {
        if sensor_index < ALARM_COUNT {
            self.high_alarms[sensor_index] = AlarmStatus::new(temperature_deci, enabled);
        }
    }

    /// Replace the low alarm of one sensor; indices past the table are
    /// ignored.
    pub fn set_low_alarm(&mut self, sensor_index: usize, temperature_deci: i32, enabled: bool)
        ensures
            sensor_index < 11 ==> final(self).low_alarms@ == old(self).low_alarms@.update(
                sensor_index as int,
                AlarmStatus {
                    set: enabled,
                    tripped: false,
                    alarming: false,
                    temperature_deci,
                },
            ),
            sensor_index >= 11 ==> final(self).low_alarms@ == old(self).low_alarms@,
            final(self).high_alarms@ == old(self).high_alarms@,
    {
        if sensor_index < ALARM_COUNT {
            self.low_alarms[sensor_index] = AlarmStatus::new(temperature_deci, enabled);
        }
    }

    /// Set the high alarm of the core channel.
    pub fn set_core_high_alarm(&mut self, temperature_deci: i32, enabled: bool)
        ensures
            final(self).high_alarms@ == old(self).high_alarms@.update(
                8,
                AlarmStatus { set: enabled, tripped: false, alarming: false, temperature_deci },
            ),
            final(self).low_alarms@ == old(self).low_alarms@,
    {
        self.set_high_alarm(8, temperature_deci, enabled);
    }

    /// Set the low alarm of the core channel.
    pub fn set_core_low_alarm(&mut self, temperature_deci: i32, enabled: bool)
        ensures
            final(self).low_alarms@ == old(self).low_alarms@.update(
                8,
                AlarmStatus { set: enabled, tripped: false, alarming: false, temperature_deci },
            ),
            final(self).high_alarms@ == old(self).high_alarms@,
    {
        self.set_low_alarm(8, temperature_deci, enabled);
    }

    /// Set the high alarm of the surface channel.
    pub fn set_surface_high_alarm(&mut self, temperature_deci: i32, enabled: bool)
        ensures
            final(self).high_alarms@ == old(self).high_alarms@.update(
                9,
                AlarmStatus { set: enabled, tripped: false, alarming: false, temperature_deci },
            ),
            final(self).low_alarms@ == old(self).low_alarms@,
    {
        self.set_high_alarm(9, temperature_deci, enabled);
    }

    /// Set the low alarm of the surface channel.
    pub fn set_surface_low_alarm(&mut self, temperature_deci: i32, enabled: bool)
        ensures
            final(self).low_alarms@ == old(self).low_alarms@.update(
                9,
                AlarmStatus { set: enabled, tripped: false, alarming: false, temperature_deci },
            ),
            final(self).high_alarms@ == old(self).high_alarms@,
    {
        self.set_low_alarm(9, temperature_deci, enabled);
    }

    /// Set the high alarm of the ambient channel.
    pub fn set_ambient_high_alarm(&mut self, temperature_deci: i32, enabled: bool)
        ensures
            final(self).high_alarms@ == old(self).high_alarms@.update(
                10,
                AlarmStatus { set: enabled, tripped: false, alarming: false, temperature_deci },
            ),
            final(self).low_alarms@ == old(self).low_alarms@,
    {
        self.set_high_alarm(10, temperature_deci, enabled);
    }

    /// Set the low alarm of the ambient channel.
    pub fn set_ambient_low_alarm(&mut self, temperature_deci: i32, enabled: bool)
        ensures
            final(self).low_alarms@ == old(self).low_alarms@.update(
                10,
                AlarmStatus { set: enabled, tripped: false, alarming: false, temperature_deci },
            ),
            final(self).high_alarms@ == old(self).high_alarms@,
    {
        self.set_low_alarm(10, temperature_deci, enabled);
    }

    /// The high alarm of one sensor, or `None` past the table.
    pub fn high_alarm(&self, sensor_index: usize) -> (r: Option<&AlarmStatus>)
        ensures
            sensor_index < 11 ==> r == Some(&self.high_alarms[sensor_index as int]),
            sensor_index >= 11 ==> r is None,
    {
        if sensor_index < ALARM_COUNT {
            Some(&self.high_alarms[sensor_index])
        } else {
            None
        }
    }

    /// The low alarm of one sensor, or `None` past the table.
    pub fn low_alarm(&self, sensor_index: usize) -> (r: Option<&AlarmStatus>)
        ensures
            sensor_index < 11 ==> r == Some(&self.low_alarms[sensor_index as int]),
            sensor_index >= 11 ==> r is None,
    {
        if sensor_index < ALARM_COUNT {
            Some(&self.low_alarms[sensor_index])
        } else {
            None
        }
    }

    /// The high alarm of the core channel.
    pub fn core_high_alarm(&self) -> (r: &AlarmStatus)
        ensures
            r == &self.high_alarms[8],
    {
        &self.high_alarms[8]
    }

    /// The low alarm of the core channel.
    pub fn core_low_alarm(&self) -> (r: &AlarmStatus)
        ensures
            r == &self.low_alarms[8],
    {
        &self.low_alarms[8]
    }

    /// Decode the 44-byte table. Succeeds exactly when 44 bytes are
    /// present; only the first 44 are read.
    pub fn from_bytes(bytes: &[u8]) -> (r: Option<Self>)
        ensures
            r is Some <==> bytes@.len() >= 44,
            r matches Some(c) ==> forall|i: int|
                0 <= i < 11 ==> (#[trigger] c.high_alarms[i]) == spec_alarm_from_bits(
                    bytes@,
                    16 * i,
                ) && c.low_alarms[i] == spec_alarm_from_bits(bytes@, 176 + 16 * i),
    {
        if bytes.len() < Self::SIZE {
            return None;
        }
        let mut high_alarms = [AlarmStatus::disabled();11];
        let mut low_alarms = [AlarmStatus::disabled();11];
        let mut i: usize = 0;
        while i < ALARM_COUNT
            invariant
                i <= 11,
                bytes@.len() >= 44,
                forall|f: int|
                    0 <= f < i ==> (#[trigger] high_alarms[f]) == spec_alarm_from_bits(
                        bytes@,
                        16 * f,
                    ) && low_alarms[f] == spec_alarm_from_bits(bytes@, 176 + 16 * f),
            decreases 11 - i,
        {
            let hw = vstd::slice::slice_subrange(bytes, 2 * i, 2 * i + 2);
            let high = match AlarmStatus::from_bytes(hw) {
                Some(a) => a,
                None => {
                    return None;
                },
            };
            let lw = vstd::slice::slice_subrange(bytes, 22 + 2 * i, 22 + 2 * i + 2);
            let low = match AlarmStatus::from_bytes(lw) {
                Some(a) => a,
                None => {
                    return None;
                },
            };
            proof {
                lemma_alarm_window(bytes@, 2 * (i as int));
                lemma_alarm_window(bytes@, 22 + 2 * (i as int));
                assert(high == spec_alarm_from_bits(bytes@, 16 * (i as int)));
                assert(low == spec_alarm_from_bits(bytes@, 176 + 16 * (i as int)));
            }
            let ghost oldh = high_alarms;
            let ghost oldl = low_alarms;
            high_alarms[i] = high;
            low_alarms[i] = low;
            proof {
                assert(high_alarms@ =~= oldh@.update(i as int, high));
                assert(low_alarms@ =~= oldl@.update(i as int, low));
                assert forall|f: int| 0 <= f < i + 1 implies (#[trigger] high_alarms[f])
                    == spec_alarm_from_bits(bytes@, 16 * f) && low_alarms[f]
                    == spec_alarm_from_bits(bytes@, 176 + 16 * f) by {
                    if f < i {
                        assert(high_alarms[f] == oldh[f]);
                        assert(low_alarms[f] == oldl[f]);
                    }
                }
            }
            i += 1;
        }
        Some(AlarmConfig { high_alarms, low_alarms })
    }

    /// Encode the table into its 44-byte wire form: eleven high alarms
    /// then eleven low alarms, each clamped to its field.
    pub fn to_bytes(&self) -> (r: Vec<u8>)
        ensures
            r@.len() == 44,
            forall|i: int|
                0 <= i < 11 ==> spec_alarm_encoded_at(r@, 16 * i, #[trigger] self.high_alarms[i])
                    && spec_alarm_encoded_at(r@, 176 + 16 * i, self.low_alarms[i]),
    {
        let mut out: Vec<u8> = Vec::new();
        let mut i: usize = 0;
        while i < ALARM_COUNT
            invariant
                i <= 11,
                out@.len() == 2 * i,
                forall|f: int|
                    0 <= f < i ==> spec_alarm_encoded_at(
                        out@,
                        16 * f,
                        #[trigger] self.high_alarms[f],
                    ),
            decreases 11 - i,
        {
            let ghost before = out@;
            let mut piece = self.high_alarms[i].to_bytes();
            let ghost piecev = piece@;
            out.append(&mut piece);
            proof {
                assert(out@.subrange(0, 2 * (i as int)) =~= before);
                assert(out@.subrange(2 * (i as int), 2 * (i as int) + 2) =~= piecev);
                assert(spec_alarm_from_bits(out@.subrange(2 * (i as int), 2 * (i as int) + 2), 0)
                    == spec_alarm_clamp(self.high_alarms[i as int]));
                lemma_alarm_append(before, out@, self.high_alarms@, i as int, 0);
            }
            i += 1;
        }
        let mut j: usize = 0;
        while j < ALARM_COUNT
            invariant
                j <= 11,
                out@.len() == 22 + 2 * j,
                forall|f: int|
                    0 <= f < 11 ==> spec_alarm_encoded_at(
                        out@,
                        16 * f,
                        #[trigger] self.high_alarms[f],
                    ),
                forall|f: int|
                    0 <= f < j ==> spec_alarm_encoded_at(
                        out@,
                        176 + 16 * f,
                        #[trigger] self.low_alarms[f],
                    ),
            decreases 11 - j,
        {
            let ghost before = out@;
            let mut piece = self.low_alarms[j].to_bytes();
            let ghost piecev = piece@;
            out.append(&mut piece);
            proof {
                assert(out@.subrange(0, 22 + 2 * (j as int)) =~= before);
                assert(out@.subrange(22 + 2 * (j as int), 22 + 2 * (j as int) + 2) =~= piecev);
                assert(spec_alarm_from_bits(
                    out@.subrange(22 + 2 * (j as int), 22 + 2 * (j as int) + 2),
                    0,
                ) == spec_alarm_clamp(self.low_alarms[j as int]));
                lemma_alarm_append_low(before, out@, self.high_alarms@, self.low_alarms@, j as int);
            }
            j += 1;
        }
        out
    }

    /// Whether any alarm in the table has been triggered.
    pub fn any_tripped(&self) -> (r: bool)
        ensures
            r == spec_any_tripped(*self),
    {
        let mut i: usize = 0;
        while i < ALARM_COUNT
            invariant
                i <= 11,
                forall|f: int| 0 <= f < i ==> !(#[trigger] self.high_alarms[f]).tripped,
                forall|f: int| 0 <= f < i ==> !(#[trigger] self.low_alarms[f]).tripped,
            decreases 11 - i,
        {
            if self.high_alarms[i].tripped || self.low_alarms[i].tripped {
                return true;
            }
            i += 1;
        }
        false
    }

    /// Whether any alarm in the table is currently sounding.
    pub fn any_alarming(&self) -> (r: bool)
        ensures
            r == spec_any_alarming(*self),
    {
        let mut i: usize = 0;
        while i < ALARM_COUNT
            invariant
                i <= 11,
                forall|f: int| 0 <= f < i ==> !(#[trigger] self.high_alarms[f]).alarming,
                forall|f: int| 0 <= f < i ==> !(#[trigger] self.low_alarms[f]).alarming,
            decreases 11 - i,
        {
            if self.high_alarms[i].alarming || self.low_alarms[i].alarming {
                return true;
            }
            i += 1;
        }
        false
    }

    /// Whether any alarm in the table is enabled.
    pub fn any_enabled(&self) -> (r: bool)
        ensures
            r == spec_any_enabled(*self),
    {
        let mut i: usize = 0;
        while i < ALARM_COUNT
            invariant
                i <= 11,
                forall|f: int|
                    0 <= f < i ==> !((#[trigger] self.high_alarms[f]).set) && !self.low_alarms[f].set,
            decreases 11 - i,
        {
            if self.high_alarms[i].set || self.low_alarms[i].set {
                return true;
            }
            i += 1;
        }
        false
    }

    /// The display name of an alarm slot.
    pub fn sensor_name(index: usize) -> (r: &'static str)
        ensures
            index == 8 ==> r@ == "Core"@,
            index == 9 ==> r@ == "Surface"@,
            index == 10 ==> r@ == "Ambient"@,
            index < 8 ==> r@ == crate::temperature::spec_sensor_label(index as int),
    {
        match index {
            0 => "T1",
            1 => "T2",
            2 => "T3",
            3 => "T4",
            4 => "T5",
            5 => "T6",
            6 => "T7",
            7 => "T8",
            8 => "Core",
            9 => "Surface",
            10 => "Ambient",
            _ => "Unknown",
        }
    }
}

impl Default for AlarmConfig {
    /// Same as [`AlarmConfig::new`]: every alarm disabled.
    fn default() -> (r: Self)
        ensures
            forall|i: int|
                0 <= i < 11 ==> r.high_alarms[i] == AlarmStatus::disabled_spec()
                    && r.low_alarms[i] == AlarmStatus::disabled_spec(),
    {
        AlarmConfig::new()
    }
}

impl AlarmStatus {
    /// The value [`AlarmStatus::disabled`] returns.
    pub open spec fn disabled_spec() -> AlarmStatus {
        AlarmStatus { set: false, tripped: false, alarming: false, temperature_deci: 0 }
    }
}

/// Decoding an alarm needs only its own two bytes, so the alarm at a
/// byte-aligned offset equals the alarm decoded from that two-byte window.
proof fn lemma_alarm_window(bytes: Seq<u8>, byte_off: int)
    requires
        0 <= byte_off,
        byte_off + 2 <= bytes.len(),
    ensures
        spec_alarm_from_bits(bytes.subrange(byte_off, byte_off + 2), 0) == spec_alarm_from_bits(
            bytes,
            8 * byte_off,
        ),
{
    lemma_bits_value_in_window(bytes, byte_off, byte_off + 2, 0, 1);
    lemma_bits_value_in_window(bytes, byte_off, byte_off + 2, 1, 1);
    lemma_bits_value_in_window(bytes, byte_off, byte_off + 2, 2, 1);
    lemma_bits_value_in_window(bytes, byte_off, byte_off + 2, 3, 13);
}

/// Appending one encoded high alarm keeps every alarm already in the
/// buffer and adds the new one at its slot.
proof fn lemma_alarm_append(
    before: Seq<u8>,
    after: Seq<u8>,
    high: Seq<AlarmStatus>,
    i: int,
    base: int,
)
    requires
        0 <= i < high.len(),
        before.len() == 2 * i,
        after.len() == 2 * i + 2,
        after.subrange(0, 2 * i) == before,
        spec_alarm_from_bits(after.subrange(2 * i, 2 * i + 2), 0) == spec_alarm_clamp(high[i]),
        forall|f: int|
            0 <= f < i ==> spec_alarm_from_bits(before, 16 * f) == spec_alarm_clamp(
                #[trigger] high[f],
            ),
        base == 0,
    ensures
        forall|f: int|
            0 <= f <= i ==> spec_alarm_from_bits(after, 16 * f) == spec_alarm_clamp(
                #[trigger] high[f],
            ),
{
    assert forall|f: int| 0 <= f <= i implies spec_alarm_from_bits(after, 16 * f)
        == spec_alarm_clamp(#[trigger] high[f]) by {
        if f < i {
            lemma_alarm_window(after, 2 * f);
            assert(after.subrange(2 * f, 2 * f + 2) =~= before.subrange(2 * f, 2 * f + 2));
            lemma_alarm_window_prefix(before, after, 2 * f);
        } else {
            lemma_alarm_window(after, 2 * i);
        }
    }
}

/// An alarm decoded from bytes that two buffers share decodes the same
/// from both.
proof fn lemma_alarm_window_prefix(before: Seq<u8>, after: Seq<u8>, byte_off: int)
    requires
        0 <= byte_off,
        byte_off + 2 <= before.len(),
        byte_off + 2 <= after.len(),
        after.subrange(byte_off, byte_off + 2) == before.subrange(byte_off, byte_off + 2),
    ensures
        spec_alarm_from_bits(after, 8 * byte_off) == spec_alarm_from_bits(before, 8 * byte_off),
{
    lemma_alarm_window(before, byte_off);
    lemma_alarm_window(after, byte_off);
}

/// Appending one encoded low alarm keeps all high alarms and the low
/// alarms already in the buffer, and adds the new one at its slot.
proof fn lemma_alarm_append_low(
    before: Seq<u8>,
    after: Seq<u8>,
    high: Seq<AlarmStatus>,
    low: Seq<AlarmStatus>,
    j: int,
)
    requires
        0 <= j < low.len(),
        high.len() == 11,
        before.len() == 22 + 2 * j,
        after.len() == 22 + 2 * j + 2,
        after.subrange(0, 22 + 2 * j) == before,
        spec_alarm_from_bits(after.subrange(22 + 2 * j, 22 + 2 * j + 2), 0) == spec_alarm_clamp(
            low[j],
        ),
        forall|f: int|
            0 <= f < 11 ==> spec_alarm_from_bits(before, 16 * f) == spec_alarm_clamp(
                #[trigger] high[f],
            ),
        forall|f: int|
            0 <= f < j ==> spec_alarm_from_bits(before, 176 + 16 * f) == spec_alarm_clamp(
                #[trigger] low[f],
            ),
    ensures
        forall|f: int|
            0 <= f < 11 ==> spec_alarm_from_bits(after, 16 * f) == spec_alarm_clamp(
                #[trigger] high[f],
            ),
        forall|f: int|
            0 <= f <= j ==> spec_alarm_from_bits(after, 176 + 16 * f) == spec_alarm_clamp(
                #[trigger] low[f],
            ),
{
    assert forall|f: int| 0 <= f < 11 implies spec_alarm_from_bits(after, 16 * f)
        == spec_alarm_clamp(#[trigger] high[f]) by {
        assert(after.subrange(2 * f, 2 * f + 2) =~= before.subrange(2 * f, 2 * f + 2));
        lemma_alarm_window_prefix(before, after, 2 * f);
    }
    assert forall|f: int| 0 <= f <= j implies spec_alarm_from_bits(after, 176 + 16 * f)
        == spec_alarm_clamp(#[trigger] low[f]) by {
        if f < j {
            assert(after.subrange(22 + 2 * f, 22 + 2 * f + 2) =~= before.subrange(
                22 + 2 * f,
                22 + 2 * f + 2,
            ));
            lemma_alarm_window_prefix(before, after, 22 + 2 * f);
        } else {
            lemma_alarm_window(after, 22 + 2 * j);
        }
    }
}

} // verus!
