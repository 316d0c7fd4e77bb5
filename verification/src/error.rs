//! Error taxonomy for the protocol stack.
//!
//! Decode-time structural errors (length, framing, CRC) are returned to the
//! immediate caller; a rejected payload never partially updates probe state.
//! Field-level oddities (reserved enum values, out-of-range sensor indices)
//! are not errors: they resolve to defined fallback values.

use vstd::prelude::*;

verus! {

/// Everything that can go wrong in this library.
#[derive(Debug, Clone, PartialEq, Eq, Structural)]
pub enum Error {
    /// A payload was shorter than the format's fixed minimum.
    LengthError {
        /// How many bytes were actually available.
        length: usize,
        /// The minimum the format requires.
        minimum: usize,
    },
    /// A framed message carried a CRC that does not match its contents.
    CrcMismatch {
        /// The CRC computed over the received contents.
        expected: u16,
        /// The CRC found in the message.
        actual: u16,
    },
    /// A framed message did not start with the expected sync bytes.
    InvalidFraming {
        /// The first byte found where sync was expected.
        byte0: u8,
        /// The second byte found where sync was expected.
        byte1: u8,
    },
    /// A command was issued without an active session.
    NotConnected,
    /// No expected response arrived within the bound.
    Timeout,
    /// A caller-supplied value lies outside its sane physical bound.
    ParameterOutOfRange {
        /// The offending value, in the unit the parameter uses.
        value: i64,
    },
    /// Establishing a session failed after the bounded retry count.
    ConnectionFailed {
        /// How many attempts were made before giving up.
        attempts: u32,
    },
    /// The arena already holds the maximum number of probes.
    MaxProbesReached {
        /// The maximum number of probes allowed.
        max: usize,
    },
}

} // verus!
