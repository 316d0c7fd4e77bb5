//! The framed request/response message protocol.
//!
//! A message travels as `[sync0, sync1] [crc lo, crc hi] [type] [length]
//! [payload…]`, with the CRC covering exactly type, length and payload.
//! Parsing verifies the sync bytes first and the CRC second, before
//! exposing any payload; a CRC mismatch is a distinct error carrying both
//! values. Unknown message types decode to a tagged variant rather than
//! failing, so newer firmware messages never crash the decoder.

use crate::bits::le16;
use crate::crc::{calculate_crc, crc16, crc_hi, crc_lo, lemma_crc_le_split};
use crate::error::Error;
use vstd::prelude::*;

verus! {

/// First sync byte of every framed message.
pub const UART_SYNC_0: u8 = 0xCA;

/// Second sync byte of every framed message.
pub const UART_SYNC_1: u8 = 0xFE;

/// Every message type the protocol knows, requests and responses, plus a
/// tag for values this revision does not know.
#[derive(Debug, Clone, Copy, PartialEq, Eq, Hash, Structural)]
pub enum UartMessageType {
    /// Set probe display number.
    SetProbeId,
    /// Response to [`UartMessageType::SetProbeId`].
    SetProbeIdResponse,
    /// Set probe ring colour.
    SetProbeColor,
    /// Response to [`UartMessageType::SetProbeColor`].
    SetProbeColorResponse,
    /// Read session information.
    ReadSessionInfo,
    /// Response to [`UartMessageType::ReadSessionInfo`].
    ReadSessionInfoResponse,
    /// Read logged samples.
    ReadLogs,
    /// Response to [`UartMessageType::ReadLogs`].
    ReadLogsResponse,
    /// Start, change or cancel a prediction.
    SetPrediction,
    /// Response to [`UartMessageType::SetPrediction`].
    SetPredictionResponse,
    /// Read the over-temperature flags.
    ReadOverTemperature,
    /// Response to [`UartMessageType::ReadOverTemperature`].
    ReadOverTemperatureResponse,
    /// Configure the food-safety program.
    ConfigureFoodSafe,
    /// Response to [`UartMessageType::ConfigureFoodSafe`].
    ConfigureFoodSafeResponse,
    /// Reset the food-safety program.
    ResetFoodSafe,
    /// Response to [`UartMessageType::ResetFoodSafe`].
    ResetFoodSafeResponse,
    /// Set the power mode.
    SetPowerMode,
    /// Response to [`UartMessageType::SetPowerMode`].
    SetPowerModeResponse,
    /// Reset the thermometer to factory defaults.
    ResetThermometer,
    /// Response to [`UartMessageType::ResetThermometer`].
    ResetThermometerResponse,
    /// Set the high/low alarm table.
    SetHighLowAlarms,
    /// Response to [`UartMessageType::SetHighLowAlarms`].
    SetHighLowAlarmsResponse,
    /// Silence sounding alarms.
    SilenceAlarms,
    /// Response to [`UartMessageType::SilenceAlarms`].
    SilenceAlarmsResponse,
    /// A type byte this revision does not know.
    Unknown,
}

/// The message type a raw type byte denotes; unknown bytes map to the
/// `Unknown` tag, never to an error.
pub open spec fn spec_msg_type_from_raw(value: u8) -> UartMessageType {
    if value == 0x01 {
        UartMessageType::SetProbeId
    } else if value == 0x81 {
        UartMessageType::SetProbeIdResponse
    } else if value == 0x02 {
        UartMessageType::SetProbeColor
    } else if value == 0x82 {
        UartMessageType::SetProbeColorResponse
    } else if value == 0x03 {
        UartMessageType::ReadSessionInfo
    } else if value == 0x83 {
        UartMessageType::ReadSessionInfoResponse
    } else if value == 0x04 {
        UartMessageType::ReadLogs
    } else if value == 0x84 {
        UartMessageType::ReadLogsResponse
    } else if value == 0x05 {
        UartMessageType::SetPrediction
    } else if value == 0x85 {
        UartMessageType::SetPredictionResponse
    } else if value == 0x06 {
        UartMessageType::ReadOverTemperature
    } else if value == 0x86 {
        UartMessageType::ReadOverTemperatureResponse
    } else if value == 0x07 {
        UartMessageType::ConfigureFoodSafe
    } else if value == 0x87 {
        UartMessageType::ConfigureFoodSafeResponse
    } else if value == 0x08 {
        UartMessageType::ResetFoodSafe
    } else if value == 0x88 {
        UartMessageType::ResetFoodSafeResponse
    } else if value == 0x09 {
        UartMessageType::SetPowerMode
    } else if value == 0x89 {
        UartMessageType::SetPowerModeResponse
    } else if value == 0x0A {
        UartMessageType::ResetThermometer
    } else if value == 0x8A {
        UartMessageType::ResetThermometerResponse
    } else if value == 0x0B {
        UartMessageType::SetHighLowAlarms
    } else if value == 0x8B {
        UartMessageType::SetHighLowAlarmsResponse
    } else if value == 0x0C {
        UartMessageType::SilenceAlarms
    } else if value == 0x8C {
        UartMessageType::SilenceAlarmsResponse
    } else {
        UartMessageType::Unknown
    }
}

/// The wire byte of a message type; the `Unknown` tag carries `0xFF`.
pub open spec fn spec_msg_type_to_raw(t: UartMessageType) -> u8 {
    match t {
        UartMessageType::SetProbeId => 0x01,
        UartMessageType::SetProbeIdResponse => 0x81,
        UartMessageType::SetProbeColor => 0x02,
        UartMessageType::SetProbeColorResponse => 0x82,
        UartMessageType::ReadSessionInfo => 0x03,
        UartMessageType::ReadSessionInfoResponse => 0x83,
        UartMessageType::ReadLogs => 0x04,
        UartMessageType::ReadLogsResponse => 0x84,
        UartMessageType::SetPrediction => 0x05,
        UartMessageType::SetPredictionResponse => 0x85,
        UartMessageType::ReadOverTemperature => 0x06,
        UartMessageType::ReadOverTemperatureResponse => 0x86,
        UartMessageType::ConfigureFoodSafe => 0x07,
        UartMessageType::ConfigureFoodSafeResponse => 0x87,
        UartMessageType::ResetFoodSafe => 0x08,
        UartMessageType::ResetFoodSafeResponse => 0x88,
        UartMessageType::SetPowerMode => 0x09,
        UartMessageType::SetPowerModeResponse => 0x89,
        UartMessageType::ResetThermometer => 0x0A,
        UartMessageType::ResetThermometerResponse => 0x8A,
        UartMessageType::SetHighLowAlarms => 0x0B,
        UartMessageType::SetHighLowAlarmsResponse => 0x8B,
        UartMessageType::SilenceAlarms => 0x0C,
        UartMessageType::SilenceAlarmsResponse => 0x8C,
        UartMessageType::Unknown => 0xFF,
    }
}

/// Whether a message type is a response. The `Unknown` tag counts as one,
/// as its wire byte has the response bit set.
pub open spec fn spec_is_response(t: UartMessageType) -> bool {
    match t {
        UartMessageType::SetProbeIdResponse => true,
        UartMessageType::SetProbeColorResponse => true,
        UartMessageType::ReadSessionInfoResponse => true,
        UartMessageType::ReadLogsResponse => true,
        UartMessageType::SetPredictionResponse => true,
        UartMessageType::ReadOverTemperatureResponse => true,
        UartMessageType::ConfigureFoodSafeResponse => true,
        UartMessageType::ResetFoodSafeResponse => true,
        UartMessageType::SetPowerModeResponse => true,
        UartMessageType::ResetThermometerResponse => true,
        UartMessageType::SetHighLowAlarmsResponse => true,
        UartMessageType::SilenceAlarmsResponse => true,
        UartMessageType::Unknown => true,
        _ => false,
    }
}

/// The response type paired with a request; responses and the `Unknown`
/// tag pair with nothing.
pub open spec fn spec_response_type(t: UartMessageType) -> Option<UartMessageType> {
    match t {
        UartMessageType::SetProbeId => Some(UartMessageType::SetProbeIdResponse),
        UartMessageType::SetProbeColor => Some(UartMessageType::SetProbeColorResponse),
        UartMessageType::ReadSessionInfo => Some(UartMessageType::ReadSessionInfoResponse),
        UartMessageType::ReadLogs => Some(UartMessageType::ReadLogsResponse),
        UartMessageType::SetPrediction => Some(UartMessageType::SetPredictionResponse),
        UartMessageType::ReadOverTemperature => Some(UartMessageType::ReadOverTemperatureResponse),
        UartMessageType::ConfigureFoodSafe => Some(UartMessageType::ConfigureFoodSafeResponse),
        UartMessageType::ResetFoodSafe => Some(UartMessageType::ResetFoodSafeResponse),
        UartMessageType::SetPowerMode => Some(UartMessageType::SetPowerModeResponse),
        UartMessageType::ResetThermometer => Some(UartMessageType::ResetThermometerResponse),
        UartMessageType::SetHighLowAlarms => Some(UartMessageType::SetHighLowAlarmsResponse),
        UartMessageType::SilenceAlarms => Some(UartMessageType::SilenceAlarmsResponse),
        _ => None,
    }
}

/// The pairing rule of the protocol: a request's wire byte, OR'd with
/// `0x80`, decodes to exactly the request's paired response type.
pub proof fn lemma_request_response_pairing(t: UartMessageType)
    requires
        !spec_is_response(t),
    ensures
        spec_response_type(t) == Some(
            spec_msg_type_from_raw(spec_msg_type_to_raw(t) | 0x80),
        ),
{
    lemma_uart_or_constants();
}

/// The OR-with-`0x80` values of all request bytes.
proof fn lemma_uart_or_constants()
    by (bit_vector)
    ensures
        0x01u8 | 0x80 == 0x81,
        0x02u8 | 0x80 == 0x82,
        0x03u8 | 0x80 == 0x83,
        0x04u8 | 0x80 == 0x84,
        0x05u8 | 0x80 == 0x85,
        0x06u8 | 0x80 == 0x86,
        0x07u8 | 0x80 == 0x87,
        0x08u8 | 0x80 == 0x88,
        0x09u8 | 0x80 == 0x89,
        0x0Au8 | 0x80 == 0x8A,
        0x0Bu8 | 0x80 == 0x8B,
        0x0Cu8 | 0x80 == 0x8C,
{
}

impl UartMessageType {
    /// Decode a raw type byte; unknown bytes become the `Unknown` tag.
    pub fn from_raw(value: u8) -> (r: Self)
        ensures
            r == spec_msg_type_from_raw(value),
    {
        match value {
            0x01 => UartMessageType::SetProbeId,
            0x81 => UartMessageType::SetProbeIdResponse,
            0x02 => UartMessageType::SetProbeColor,
            0x82 => UartMessageType::SetProbeColorResponse,
            0x03 => UartMessageType::ReadSessionInfo,
            0x83 => UartMessageType::ReadSessionInfoResponse,
            0x04 => UartMessageType::ReadLogs,
            0x84 => UartMessageType::ReadLogsResponse,
            0x05 => UartMessageType::SetPrediction,
            0x85 => UartMessageType::SetPredictionResponse,
            0x06 => UartMessageType::ReadOverTemperature,
            0x86 => UartMessageType::ReadOverTemperatureResponse,
            0x07 => UartMessageType::ConfigureFoodSafe,
            0x87 => UartMessageType::ConfigureFoodSafeResponse,
            0x08 => UartMessageType::ResetFoodSafe,
            0x88 => UartMessageType::ResetFoodSafeResponse,
            0x09 => UartMessageType::SetPowerMode,
            0x89 => UartMessageType::SetPowerModeResponse,
            0x0A => UartMessageType::ResetThermometer,
            0x8A => UartMessageType::ResetThermometerResponse,
            0x0B => UartMessageType::SetHighLowAlarms,
            0x8B => UartMessageType::SetHighLowAlarmsResponse,
            0x0C => UartMessageType::SilenceAlarms,
            0x8C => UartMessageType::SilenceAlarmsResponse,
            _ => UartMessageType::Unknown,
        }
    }

    /// The wire byte of this type.
    pub fn to_raw(&self) -> (r: u8)
        ensures
            r == spec_msg_type_to_raw(*self),
    {
        match self {
            UartMessageType::SetProbeId => 0x01,
            UartMessageType::SetProbeIdResponse => 0x81,
            UartMessageType::SetProbeColor => 0x02,
            UartMessageType::SetProbeColorResponse => 0x82,
            UartMessageType::ReadSessionInfo => 0x03,
            UartMessageType::ReadSessionInfoResponse => 0x83,
            UartMessageType::ReadLogs => 0x04,
            UartMessageType::ReadLogsResponse => 0x84,
            UartMessageType::SetPrediction => 0x05,
            UartMessageType::SetPredictionResponse => 0x85,
            UartMessageType::ReadOverTemperature => 0x06,
            UartMessageType::ReadOverTemperatureResponse => 0x86,
            UartMessageType::ConfigureFoodSafe => 0x07,
            UartMessageType::ConfigureFoodSafeResponse => 0x87,
            UartMessageType::ResetFoodSafe => 0x08,
            UartMessageType::ResetFoodSafeResponse => 0x88,
            UartMessageType::SetPowerMode => 0x09,
            UartMessageType::SetPowerModeResponse => 0x89,
            UartMessageType::ResetThermometer => 0x0A,
            UartMessageType::ResetThermometerResponse => 0x8A,
            UartMessageType::SetHighLowAlarms => 0x0B,
            UartMessageType::SetHighLowAlarmsResponse => 0x8B,
            UartMessageType::SilenceAlarms => 0x0C,
            UartMessageType::SilenceAlarmsResponse => 0x8C,
            UartMessageType::Unknown => 0xFF,
        }
    }

    /// Whether this type is a response.
    pub fn is_response(&self) -> (r: bool)
        ensures
            r == spec_is_response(*self),
    {
        matches!(
            self,
            UartMessageType::SetProbeIdResponse
            | UartMessageType::SetProbeColorResponse
            | UartMessageType::ReadSessionInfoResponse
            | UartMessageType::ReadLogsResponse
            | UartMessageType::SetPredictionResponse
            | UartMessageType::ReadOverTemperatureResponse
            | UartMessageType::ConfigureFoodSafeResponse
            | UartMessageType::ResetFoodSafeResponse
            | UartMessageType::SetPowerModeResponse
            | UartMessageType::ResetThermometerResponse
            | UartMessageType::SetHighLowAlarmsResponse
            | UartMessageType::SilenceAlarmsResponse
            | UartMessageType::Unknown
        )
    }

    /// Whether this type is a request.
    pub fn is_request(&self) -> (r: bool)
        ensures
            r == !spec_is_response(*self),
    {
        !self.is_response()
    }

    /// The response type paired with this request, or `None` for
    /// responses and the `Unknown` tag.
    pub fn response_type(&self) -> (r: Option<Self>)
        ensures
            r == spec_response_type(*self),
    {
        if self.is_response() {
            return None;
        }
        proof {
            lemma_request_response_pairing(*self);
        }
        Some(Self::from_raw(self.to_raw() | 0x80))
    }
}

/// The parsed header of a framed message: its type and payload length.
#[derive(Debug, Clone, PartialEq, Eq, Structural)]
pub struct UartMessageHeader {
    /// The message type.
    pub message_type: UartMessageType,
    /// Length of the payload in bytes.
    pub payload_length: u8,
}

impl UartMessageHeader {
    /// Bytes before the payload: sync, CRC, type and length.
    pub const SIZE: usize = 6;

    /// Bytes the CRC covers besides the payload: type and length.
    pub const CRC_DATA_SIZE: usize = 2;

    /// Assemble a header.
    pub fn new(message_type: UartMessageType, payload_length: u8) -> (r: Self)
        ensures
            r.message_type == message_type,
            r.payload_length == payload_length,
    {
        UartMessageHeader { message_type, payload_length }
    }

    /// Parse the fixed six-byte prefix of a framed message, verifying the
    /// sync bytes. The CRC at bytes two and three is not checked here.
    pub fn parse(data: &[u8]) -> (r: Result<Self, Error>)
        ensures
            data@.len() < 6 ==> r == Err::<Self, Error>(
                Error::LengthError { length: data@.len() as usize, minimum: 6 },
            ),
            data@.len() >= 6 && !(data@[0] == 0xCA && data@[1] == 0xFE) ==> r == Err::<Self, Error>(
                Error::InvalidFraming { byte0: data@[0], byte1: data@[1] },
            ),
            data@.len() >= 6 && data@[0] == 0xCA && data@[1] == 0xFE ==> r == Ok::<Self, Error>(
                UartMessageHeader {
                    message_type: spec_msg_type_from_raw(data@[4]),
                    payload_length: data@[5],
                },
            ),
    {
        if data.len() < Self::SIZE {
            return Err(Error::LengthError { length: data.len(), minimum: 6 });
        }
        if data[0] != UART_SYNC_0 || data[1] != UART_SYNC_1 {
            return Err(Error::InvalidFraming { byte0: data[0], byte1: data[1] });
        }
        Ok(
            UartMessageHeader {
                message_type: UartMessageType::from_raw(data[4]),
                payload_length: data[5],
            },
        )
    }
}

/// The bytes a message's CRC covers: type byte, length byte, payload.
pub open spec fn spec_crc_body(t: u8, payload: Seq<u8>) -> Seq<u8> {
    seq![t, payload.len() as u8] + payload
}

/// A whole framed message as it travels on the wire.
pub open spec fn spec_envelope(t: u8, payload: Seq<u8>) -> Seq<u8> {
    let body = spec_crc_body(t, payload);
    seq![0xCAu8, 0xFEu8, crc_lo(crc16(body)), crc_hi(crc16(body))] + body
}

/// A framed message: header plus payload.
#[derive(Debug, Clone, PartialEq, Eq)]
pub struct UartMessage {
    /// The message header.
    pub header: UartMessageHeader,
    /// The message payload.
    pub payload: Vec<u8>,
}

impl UartMessage {
    /// A message is well formed when its header's length byte agrees with
    /// its payload.
    pub open spec fn wf(self) -> bool {
        self.header.payload_length == self.payload@.len()
    }

    /// Assemble a message whose length byte matches its payload.
    pub fn new(message_type: UartMessageType, payload: Vec<u8>) -> (r: Self)
        requires
            payload@.len() <= 255,
        ensures
            r.header.message_type == message_type,
            r.payload@ == payload@,
            r.wf(),
    {
        let len = payload.len() as u8;
        UartMessage { header: UartMessageHeader::new(message_type, len), payload }
    }

    /// Parse a framed message. The sync bytes are verified before the
    /// CRC is even computed, and the CRC before any payload is exposed;
    /// each failure is its own error. Exactly the buffers that carry the
    /// sync bytes, a complete declared payload and a matching CRC parse.
    pub fn parse(data: &[u8]) -> (r: Result<Self, Error>)
        ensures
            data@.len() < 6 ==> r == Err::<Self, Error>(
                Error::LengthError { length: data@.len() as usize, minimum: 6 },
            ),
            data@.len() >= 6 && !(data@[0] == 0xCA && data@[1] == 0xFE) ==> r == Err::<Self, Error>(
                Error::InvalidFraming { byte0: data@[0], byte1: data@[1] },
            ),
            data@.len() >= 6 && data@[0] == 0xCA && data@[1] == 0xFE && data@.len() < 6 + data@[5]
                ==> r == Err::<Self, Error>(
                Error::LengthError {
                    length: data@.len() as usize,
                    minimum: (6 + data@[5]) as usize,
                },
            ),
            (data@.len() >= 6 && data@[0] == 0xCA && data@[1] == 0xFE && data@.len() >= 6
                + data@[5]) ==> {
                let expected = crc16(spec_crc_body(data@[4], data@.subrange(6, 6 + data@[5])));
                let received = le16(data@[2], data@[3]);
                if expected != received {
                    r == Err::<Self, Error>(
                        Error::CrcMismatch { expected, actual: received },
                    )
                } else {
                    r matches Ok(m) && m == (UartMessage {
                        header: UartMessageHeader {
                            message_type: spec_msg_type_from_raw(data@[4]),
                            payload_length: data@[5],
                        },
                        payload: m.payload,
                    }) && m.payload@ == data@.subrange(6, 6 + data@[5]) && m.wf()
                }
            },
    {
        let header = match UartMessageHeader::parse(data) {
            Ok(h) => h,
            Err(e) => {
                return Err(e);
            },
        };
        let total = Self::header_size() + header.payload_length as usize;
        if data.len() < total {
            return Err(Error::LengthError { length: data.len(), minimum: total });
        }
        let received = (data[2] as u16) | ((data[3] as u16) << 8);
        let pay = vstd::slice::slice_subrange(data, 6, total);
        let mut crc_data: Vec<u8> = Vec::new();
        crc_data.push(data[4]);
        crc_data.push(data[5]);
        crc_data.extend_from_slice(pay);
        let expected = calculate_crc(crc_data.as_slice());
        proof {
            assert(crc_data@ =~= spec_crc_body(data@[4], data@.subrange(6, 6 + data@[5])));
        }
        if received != expected {
            return Err(Error::CrcMismatch { expected, actual: received });
        }
        let payload = vstd::slice::slice_to_vec(pay);
        Ok(UartMessage { header, payload })
    }

    /// The header size as a callable constant.
    fn header_size() -> (r: usize)
        ensures
            r == 6,
    {
        6
    }

    /// Serialise the message into its wire form.
    pub fn to_bytes(&self) -> (r: Vec<u8>)
        requires
            self.wf(),
        ensures
            r@ == spec_envelope(spec_msg_type_to_raw(self.header.message_type), self.payload@),
    {
        let t = self.header.message_type.to_raw();
        let mut crc_data: Vec<u8> = Vec::new();
        crc_data.push(t);
        crc_data.push(self.header.payload_length);
        crc_data.extend_from_slice(self.payload.as_slice());
        let crc = calculate_crc(crc_data.as_slice());
        proof {
            assert(crc_data@ =~= spec_crc_body(
                spec_msg_type_to_raw(self.header.message_type),
                self.payload@,
            ));
            lemma_crc_le_split(crc);
        }
        let mut out: Vec<u8> = Vec::new();
        out.push(UART_SYNC_0);
        out.push(UART_SYNC_1);
        out.push((crc & 0xFF) as u8);
        out.push(((crc >> 8) & 0xFF) as u8);
        let mut body = crc_data;
        out.append(&mut body);
        proof {
            assert(out@ =~= spec_envelope(
                spec_msg_type_to_raw(self.header.message_type),
                self.payload@,
            ));
        }
        out
    }

    /// The message type.
    pub fn message_type(&self) -> (r: UartMessageType)
        ensures
            r == self.header.message_type,
    {
        self.header.message_type
    }

    /// Whether this is a response whose status byte reports success. A
    /// response with an empty payload counts as successful.
    pub fn is_success(&self) -> (r: bool)
        ensures
            r == (spec_is_response(self.header.message_type) && (self.payload@.len() == 0
                || self.payload@[0] == 0)),
    {
        if !self.header.message_type.is_response() {
            return false;
        }
        if self.payload.len() == 0 {
            return true;
        }
        self.payload[0] == 0x00
    }
}

/// A serialised message always parses back: it is long enough, carries
/// the sync bytes, declares its exact payload length and carries the CRC
/// of its own type, length and payload.
pub proof fn lemma_envelope_well_framed(t: u8, payload: Seq<u8>)
    requires
        payload.len() <= 255,
    ensures
        ({
            let e = spec_envelope(t, payload);
            &&& e.len() == 6 + payload.len()
            &&& e[0] == 0xCA && e[1] == 0xFE
            &&& e[4] == t && e[5] == payload.len() as u8
            &&& e.subrange(6, e.len() as int) == payload
            &&& le16(e[2], e[3]) == crc16(spec_crc_body(e[4], e.subrange(6, 6 + (e[5] as int))))
        }),
{
    let e = spec_envelope(t, payload);
    assert(e.subrange(6, e.len() as int) =~= payload);
    assert(e.subrange(6, 6 + (e[5] as int)) =~= payload);
    lemma_crc_le_split(crc16(spec_crc_body(t, payload)));
}

/// Build a read-session-information request.
pub fn build_read_session_info_request() -> (r: UartMessage)
    ensures
        r.header.message_type == UartMessageType::ReadSessionInfo,
        r.payload@.len() == 0,
        r.wf(),
{
    UartMessage::new(UartMessageType::ReadSessionInfo, Vec::new())
}

/// Build a read-logs request for an inclusive sequence range, both bounds
/// little-endian.
pub fn build_read_logs_request(min_sequence: u32, max_sequence: u32) -> (r: UartMessage)
    ensures
        r.header.message_type == UartMessageType::ReadLogs,
        r.payload@.len() == 8,
        crate::bits::le32(r.payload@[0], r.payload@[1], r.payload@[2], r.payload@[3])
            == min_sequence,
        crate::bits::le32(r.payload@[4], r.payload@[5], r.payload@[6], r.payload@[7])
            == max_sequence,
        r.wf(),
{
    let mut payload: Vec<u8> = Vec::new();
    push_le32(&mut payload, min_sequence);
    push_le32(&mut payload, max_sequence);
    UartMessage::new(UartMessageType::ReadLogs, payload)
}

/// Append a 32-bit value to a buffer, little-endian.
fn push_le32(out: &mut Vec<u8>, value: u32)
    requires
        old(out)@.len() + 4 <= usize::MAX,
    ensures
        final(out)@.len() == old(out)@.len() + 4,
        final(out)@.subrange(0, old(out)@.len() as int) == old(out)@,
        crate::bits::le32(
            final(out)@[old(out)@.len() as int],
            final(out)@[old(out)@.len() as int + 1],
            final(out)@[old(out)@.len() as int + 2],
            final(out)@[old(out)@.len() as int + 3],
        ) == value,
{
    let b0 = (value & 0xFF) as u8;
    let b1 = ((value >> 8) & 0xFF) as u8;
    let b2 = ((value >> 16) & 0xFF) as u8;
    let b3 = ((value >> 24) & 0xFF) as u8;
    proof {
        lemma_le32_split(value);
    }
    out.push(b0);
    out.push(b1);
    out.push(b2);
    out.push(b3);
    proof {
        assert(final(out)@.subrange(0, old(out)@.len() as int) =~= old(out)@);
    }
}

/// Splitting a 32-bit value into bytes and reassembling them is the
/// identity.
proof fn lemma_le32_split(v: u32)
    by (bit_vector)
    ensures
        crate::bits::le32(
            (v & 0xFF) as u8,
            ((v >> 8) & 0xFF) as u8,
            ((v >> 16) & 0xFF) as u8,
            ((v >> 24) & 0xFF) as u8,
        ) == v,
{
}

/// Build a set-probe-id request; the payload carries the zero-based
/// three-bit wire value of the display number.
pub fn build_set_probe_id_request(id: u8) -> (r: UartMessage)
    ensures
        r.header.message_type == UartMessageType::SetProbeId,
        r.payload@.len() == 1,
        r.payload@[0] == (if id >= 1 {
            ((id - 1) as u8) & 0x07
        } else {
            0u8
        }),
        r.wf(),
{
    let raw = if id >= 1 {
        (id - 1) & 0x07
    } else {
        0
    };
    let mut payload: Vec<u8> = Vec::new();
    payload.push(raw);
    UartMessage::new(UartMessageType::SetProbeId, payload)
}

/// Build a set-probe-colour request carrying the three-bit colour value.
pub fn build_set_probe_color_request(color: u8) -> (r: UartMessage)
    ensures
        r.header.message_type == UartMessageType::SetProbeColor,
        r.payload@.len() == 1,
        r.payload@[0] == color & 0x07,
        r.wf(),
{
    let mut payload: Vec<u8> = Vec::new();
    payload.push(color & 0x07);
    UartMessage::new(UartMessageType::SetProbeColor, payload)
}

/// Build a set-prediction request: the low ten bits carry the set point
/// in tenths of a degree, bits ten and eleven the mode, little-endian.
pub fn build_set_prediction_request(mode: u8, set_point_raw: u16) -> (r: UartMessage)
    ensures
        r.header.message_type == UartMessageType::SetPrediction,
        r.payload@.len() == 2,
        le16(r.payload@[0], r.payload@[1]) == (set_point_raw & 0x03FF) | (((mode & 0x03) as u16)
            << 10),
        r.wf(),
{
    let packed: u16 = (set_point_raw & 0x03FF) | (((mode & 0x03) as u16) << 10);
    let mut payload: Vec<u8> = Vec::new();
    payload.push((packed & 0xFF) as u8);
    payload.push(((packed >> 8) & 0xFF) as u8);
    proof {
        lemma_le16_split(packed);
    }
    UartMessage::new(UartMessageType::SetPrediction, payload)
}

/// Splitting a 16-bit value into bytes and reassembling them is the
/// identity.
proof fn lemma_le16_split(v: u16)
    by (bit_vector)
    ensures
        le16((v & 0xFF) as u8, ((v >> 8) & 0xFF) as u8) == v,
{
}

/// Build a cancel-prediction request: a set-prediction request with mode
/// zero.
pub fn build_cancel_prediction_request() -> (r: UartMessage)
    ensures
        r.header.message_type == UartMessageType::SetPrediction,
        r.payload@.len() == 2,
        le16(r.payload@[0], r.payload@[1]) == 0,
        r.wf(),
{
    let r = build_set_prediction_request(0, 0);
    proof {
        assert((0u16 & 0x03FF) | (((0u8 & 0x03) as u16) << 10) == 0) by (bit_vector);
    }
    r
}

/// Build a configure-food-safe request carrying a packed ten-byte
/// configuration.
pub fn build_configure_food_safe_request(config_bytes: &Vec<u8>) -> (r: UartMessage)
    requires
        config_bytes@.len() == 10,
    ensures
        r.header.message_type == UartMessageType::ConfigureFoodSafe,
        r.payload@ == config_bytes@,
        r.wf(),
{
    let payload = vstd::slice::slice_to_vec(config_bytes.as_slice());
    UartMessage::new(UartMessageType::ConfigureFoodSafe, payload)
}

/// Build a minimal simplified-mode configure-food-safe request: mode
/// zero, the given product, and everything else zeroed as the simplified
/// mode ignores it.
pub fn build_configure_food_safe_simplified_request(product_type: u8) -> (r: UartMessage)
    ensures
        r.header.message_type == UartMessageType::ConfigureFoodSafe,
        r.payload@.len() == 10,
        r.payload@[0] == ((product_type & 0x1F) as u8) << 3,
        r.payload@[1] == (product_type >> 5) & 0x1F,
        forall|i: int| 2 <= i < 10 ==> r.payload@[i] == 0,
        r.wf(),
{
    let mut payload: Vec<u8> = vec![0u8; 10];
    let b0 = (product_type & 0x1F) << 3;
    let b1 = (product_type >> 5) & 0x1F;
    payload[0] = b0;
    payload[1] = b1;
    UartMessage::new(UartMessageType::ConfigureFoodSafe, payload)
}

/// Build a reset-food-safe request.
pub fn build_reset_food_safe_request() -> (r: UartMessage)
    ensures
        r.header.message_type == UartMessageType::ResetFoodSafe,
        r.payload@.len() == 0,
        r.wf(),
{
    UartMessage::new(UartMessageType::ResetFoodSafe, Vec::new())
}

/// Build a read-over-temperature request.
pub fn build_read_over_temperature_request() -> (r: UartMessage)
    ensures
        r.header.message_type == UartMessageType::ReadOverTemperature,
        r.payload@.len() == 0,
        r.wf(),
{
    UartMessage::new(UartMessageType::ReadOverTemperature, Vec::new())
}

/// Build a set-power-mode request carrying the two-bit power mode.
pub fn build_set_power_mode_request(power_mode: u8) -> (r: UartMessage)
    ensures
        r.header.message_type == UartMessageType::SetPowerMode,
        r.payload@.len() == 1,
        r.payload@[0] == power_mode & 0x03,
        r.wf(),
{
    let mut payload: Vec<u8> = Vec::new();
    payload.push(power_mode & 0x03);
    UartMessage::new(UartMessageType::SetPowerMode, payload)
}

/// Build a reset-thermometer request.
pub fn build_reset_thermometer_request() -> (r: UartMessage)
    ensures
        r.header.message_type == UartMessageType::ResetThermometer,
        r.payload@.len() == 0,
        r.wf(),
{
    UartMessage::new(UartMessageType::ResetThermometer, Vec::new())
}

/// Build a set-alarms request carrying the packed 44-byte alarm table.
pub fn build_set_high_low_alarms_request(alarm_config: &Vec<u8>) -> (r: UartMessage)
    requires
        alarm_config@.len() == 44,
    ensures
        r.header.message_type == UartMessageType::SetHighLowAlarms,
        r.payload@ == alarm_config@,
        r.wf(),
{
    let payload = vstd::slice::slice_to_vec(alarm_config.as_slice());
    UartMessage::new(UartMessageType::SetHighLowAlarms, payload)
}

/// Build a silence-alarms request.
pub fn build_silence_alarms_request() -> (r: UartMessage)
    ensures
        r.header.message_type == UartMessageType::SilenceAlarms,
        r.payload@.len() == 0,
        r.wf(),
{
    UartMessage::new(UartMessageType::SilenceAlarms, Vec::new())
}

} // verus!
