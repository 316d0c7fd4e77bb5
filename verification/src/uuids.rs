//! Endpoint identifiers of the transport boundary.
//!
//! The codec layer never talks to a transport; it only names the
//! endpoints payloads travel through. Each identifier is the 128-bit
//! value of the endpoint's UUID.

use vstd::prelude::*;

verus! {

/// Device-information service.
pub const DEVICE_INFO_SERVICE_UUID: u128 = 0x0000_180a_0000_1000_8000_00805f9b34fb;

/// Manufacturer-name characteristic.
pub const MANUFACTURER_NAME_UUID: u128 = 0x0000_2a29_0000_1000_8000_00805f9b34fb;

/// Model-number characteristic.
pub const MODEL_NUMBER_UUID: u128 = 0x0000_2a24_0000_1000_8000_00805f9b34fb;

/// Serial-number characteristic.
pub const SERIAL_NUMBER_UUID: u128 = 0x0000_2a25_0000_1000_8000_00805f9b34fb;

/// Hardware-revision characteristic.
pub const HARDWARE_REVISION_UUID: u128 = 0x0000_2a27_0000_1000_8000_00805f9b34fb;

/// Firmware-revision characteristic.
pub const FIRMWARE_REVISION_UUID: u128 = 0x0000_2a26_0000_1000_8000_00805f9b34fb;

/// The probe-status service.
pub const PROBE_STATUS_SERVICE_UUID: u128 = 0x0000_0100_caab_3792_3d44_97ae51c1407a;

/// The probe-status characteristic, which notifies session-status
/// payloads.
pub const PROBE_STATUS_CHARACTERISTIC_UUID: u128 = 0x0000_0101_caab_3792_3d44_97ae51c1407a;

/// The serial service carrying framed messages.
pub const UART_SERVICE_UUID: u128 = 0x6e40_0001_b5a3_f393_e0a9_e50e24dcca9e;

/// The endpoint requests are written to.
pub const UART_RX_UUID: u128 = 0x6e40_0002_b5a3_f393_e0a9_e50e24dcca9e;

/// The endpoint responses are notified on.
pub const UART_TX_UUID: u128 = 0x6e40_0003_b5a3_f393_e0a9_e50e24dcca9e;

/// The firmware-update service.
pub const DFU_SERVICE_UUID: u128 = 0x0000_fe59_0000_1000_8000_00805f9b34fb;

/// The manufacturer identifier under which the advertising payload is
/// broadcast.
pub const COMBUSTION_MANUFACTURER_ID: u16 = 0x09C7;

/// Whether a service identifier is one of the vendor-specific services
/// this stack speaks to.
pub fn is_combustion_service(uuid: u128) -> (r: bool)
    ensures
        r == (uuid == PROBE_STATUS_SERVICE_UUID || uuid == UART_SERVICE_UUID),
{
    uuid == PROBE_STATUS_SERVICE_UUID || uuid == UART_SERVICE_UUID
}

/// Whether a service identifier marks the device as a probe.
pub fn is_probe_service(uuid: u128) -> (r: bool)
    ensures
        r == (uuid == PROBE_STATUS_SERVICE_UUID),
{
    uuid == PROBE_STATUS_SERVICE_UUID
}

} // verus!
