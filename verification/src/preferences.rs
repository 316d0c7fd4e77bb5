//! The one-byte packed thermometer preferences structure.
//!
//! Two bits select the power mode; the remaining six are reserved and
//! carried through untouched. Reserved power-mode values decode to the
//! normal mode, never to an error.

use vstd::prelude::*;

verus! {

/// Whether the probe powers off automatically in its charger.
#[derive(Debug, Clone, Copy, PartialEq, Eq, Hash, Structural)]
pub enum PowerMode {
    /// Auto power-off when placed in the charger.
    Normal,
    /// Stay powered even in the charger.
    AlwaysOn,
}

/// The power mode the low two bits of a raw value denote; reserved values
/// fall back to the normal mode.
pub open spec fn spec_power_mode_from_raw(value: u8) -> PowerMode {
    if value & 0x03 == 1 {
        PowerMode::AlwaysOn
    } else {
        PowerMode::Normal
    }
}

impl PowerMode {
    /// Decode the low two bits of a raw value.
    pub fn from_raw(value: u8) -> (r: Self)
        ensures
            r == spec_power_mode_from_raw(value),
    {
        match value & 0x03 {
            1 => PowerMode::AlwaysOn,
            _ => PowerMode::Normal,
        }
    }

    /// The two-bit wire value of this mode.
    pub fn to_raw(&self) -> (r: u8)
        ensures
            spec_power_mode_from_raw(r) == *self,
            r <= 1,
    {
        proof {
            crate::bits::lemma_small_masks();
        }
        match self {
            PowerMode::Normal => 0,
            PowerMode::AlwaysOn => 1,
        }
    }

    /// Whether this is the always-on mode.
    pub fn is_always_on(&self) -> (r: bool)
        ensures
            r == (*self == PowerMode::AlwaysOn),
    {
        matches!(self, PowerMode::AlwaysOn)
    }

    /// A human-readable name for this mode.
    pub fn name(&self) -> (r: &'static str)
        ensures
            *self == PowerMode::Normal ==> r@ == "Normal"@,
            *self == PowerMode::AlwaysOn ==> r@ == "Always On"@,
    {
        match self {
            PowerMode::Normal => "Normal",
            PowerMode::AlwaysOn => "Always On",
        }
    }
}

impl Default for PowerMode {
    /// Probes ship in the normal mode.
    fn default() -> (r: Self)
        ensures
            r == PowerMode::Normal,
    {
        PowerMode::Normal
    }
}

/// The packed one-byte preferences structure.
#[derive(Debug, Clone, Copy, PartialEq, Eq, Structural)]
pub struct ThermometerPreferences {
    /// The selected power mode.
    pub power_mode: PowerMode,
    /// The six reserved bits, kept so an echo writes back what it read.
    pub reserved: u8,
}

impl ThermometerPreferences {
    /// Size of the structure on the wire, in bytes.
    pub const SIZE: usize = 1;

    /// Fresh preferences: normal power mode, reserved bits clear.
    pub fn new() -> (r: Self)
        ensures
            r.power_mode == PowerMode::Normal,
            r.reserved == 0,
    {
        ThermometerPreferences { power_mode: PowerMode::Normal, reserved: 0 }
    }

    /// Preferences selecting the given power mode, reserved bits clear.
    pub fn with_power_mode(power_mode: PowerMode) -> (r: Self)
        ensures
            r.power_mode == power_mode,
            r.reserved == 0,
    {
        ThermometerPreferences { power_mode, reserved: 0 }
    }

    /// Decode the packed byte: power mode in bits 0 and 1, reserved bits
    /// above.
    pub fn from_byte(byte: u8) -> (r: Self)
        ensures
            r.power_mode == spec_power_mode_from_raw(byte),
            r.reserved == (byte >> 2) & 0x3F,
    {
        proof {
            crate::bits::lemma_small_masks();
            assert((byte & 0x03) & 0x03 == byte & 0x03) by (bit_vector);
        }
        ThermometerPreferences {
            power_mode: PowerMode::from_raw(byte & 0x03),
            reserved: (byte >> 2) & 0x3F,
        }
    }

    /// Encode back into the packed byte.
    pub fn to_byte(&self) -> (r: u8)
        ensures
            spec_power_mode_from_raw(r) == self.power_mode,
            (r >> 2) & 0x3F == self.reserved & 0x3F,
    {
        let m = self.power_mode.to_raw();
        let b = (m & 0x03) | ((self.reserved & 0x3F) << 2);
        proof {
            crate::bits::lemma_small_masks();
            let rsv = self.reserved;
            assert(m <= 1 ==> ((m & 0x03) | ((rsv & 0x3F) << 2)) & 0x03 == m) by (bit_vector);
            assert(m <= 1 ==> (((m & 0x03) | ((rsv & 0x3F) << 2)) >> 2) & 0x3F == rsv & 0x3F)
                by (bit_vector);
        }
        b
    }

    /// Whether the probe stays powered in the charger.
    pub fn is_always_on(&self) -> (r: bool)
        ensures
            r == (self.power_mode == PowerMode::AlwaysOn),
    {
        self.power_mode.is_always_on()
    }
}

impl Default for ThermometerPreferences {
    /// Same as [`ThermometerPreferences::new`].
    fn default() -> (r: Self)
        ensures
            r.power_mode == PowerMode::Normal,
    {
        ThermometerPreferences::new()
    }
}

} // verus!
