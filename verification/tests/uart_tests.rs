use combustion_ble::crc::calculate_crc;
use combustion_ble::error::Error;
use combustion_ble::uart::{
    build_cancel_prediction_request, build_configure_food_safe_request, build_read_logs_request,
    build_read_session_info_request, build_reset_thermometer_request,
    build_set_high_low_alarms_request, build_set_power_mode_request, build_set_prediction_request,
    build_set_probe_id_request, build_silence_alarms_request, UartMessage, UartMessageHeader,
    UartMessageType,
};

#[test]
fn test_message_type_from_raw() {
    assert_eq!(UartMessageType::from_raw(0x01), UartMessageType::SetProbeId);
    assert_eq!(UartMessageType::from_raw(0x81), UartMessageType::SetProbeIdResponse);
    assert_eq!(UartMessageType::from_raw(0x03), UartMessageType::ReadSessionInfo);
    assert_eq!(UartMessageType::from_raw(0x83), UartMessageType::ReadSessionInfoResponse);
    assert_eq!(UartMessageType::from_raw(0xFF), UartMessageType::Unknown);
}

#[test]
fn test_message_type_is_response() {
    assert!(!UartMessageType::SetProbeId.is_response());
    assert!(UartMessageType::SetProbeIdResponse.is_response());
    assert!(!UartMessageType::ReadSessionInfo.is_response());
    assert!(UartMessageType::ReadSessionInfoResponse.is_response());
}

#[test]
fn test_message_type_response_type() {
    assert_eq!(
        UartMessageType::SetProbeId.response_type(),
        Some(UartMessageType::SetProbeIdResponse)
    );
    assert_eq!(
        UartMessageType::ReadSessionInfo.response_type(),
        Some(UartMessageType::ReadSessionInfoResponse)
    );
    assert_eq!(UartMessageType::ReadSessionInfoResponse.response_type(), None);
}

#[test]
fn test_header_parse() {
    let crc_data = [0x01, 0x04];
    let crc = calculate_crc(&crc_data);
    let data = [
        0xCA,
        0xFE,
        crc.to_le_bytes()[0],
        crc.to_le_bytes()[1],
        0x01,
        0x04,
    ];
    let header = UartMessageHeader::parse(&data).unwrap();
    assert_eq!(header.message_type, UartMessageType::SetProbeId);
    assert_eq!(header.payload_length, 4);
}

#[test]
fn test_header_invalid_sync() {
    let data = [0x00, 0x01, 0x00, 0x00, 0x01, 0x04];
    let result = UartMessageHeader::parse(&data);
    assert!(result.is_err());
}

#[test]
fn test_message_roundtrip() {
    let original = UartMessage::new(UartMessageType::SetProbeId, vec![0x03]);
    let bytes = original.to_bytes();
    let parsed = UartMessage::parse(&bytes).unwrap();

    assert_eq!(original.header.message_type, parsed.header.message_type);
    assert_eq!(original.payload, parsed.payload);
}

#[test]
fn test_message_format() {
    let msg = build_set_probe_id_request(3);
    let bytes = msg.to_bytes();

    assert_eq!(bytes[0], 0xCA);
    assert_eq!(bytes[1], 0xFE);
    assert_eq!(bytes[4], 0x01);
    assert_eq!(bytes[5], 0x01);
    assert_eq!(bytes[6], 0x02);
    assert_eq!(bytes.len(), 7);
}

#[test]
fn test_build_requests() {
    let msg = build_read_session_info_request();
    assert_eq!(msg.message_type(), UartMessageType::ReadSessionInfo);

    let msg = build_read_logs_request(0, 100);
    assert_eq!(msg.message_type(), UartMessageType::ReadLogs);
    assert_eq!(msg.payload.len(), 8);

    let msg = build_set_probe_id_request(3);
    assert_eq!(msg.message_type(), UartMessageType::SetProbeId);
    assert_eq!(msg.payload[0], 2);
}

#[test]
fn test_new_message_types() {
    assert_eq!(UartMessageType::from_raw(0x09), UartMessageType::SetPowerMode);
    assert_eq!(UartMessageType::from_raw(0x89), UartMessageType::SetPowerModeResponse);

    assert_eq!(UartMessageType::from_raw(0x0A), UartMessageType::ResetThermometer);
    assert_eq!(UartMessageType::from_raw(0x8A), UartMessageType::ResetThermometerResponse);

    assert_eq!(UartMessageType::from_raw(0x0B), UartMessageType::SetHighLowAlarms);
    assert_eq!(UartMessageType::from_raw(0x8B), UartMessageType::SetHighLowAlarmsResponse);

    assert_eq!(UartMessageType::from_raw(0x0C), UartMessageType::SilenceAlarms);
    assert_eq!(UartMessageType::from_raw(0x8C), UartMessageType::SilenceAlarmsResponse);
}

#[test]
fn test_build_new_requests() {
    let msg = build_set_power_mode_request(1);
    assert_eq!(msg.message_type(), UartMessageType::SetPowerMode);
    assert_eq!(msg.payload.len(), 1);
    assert_eq!(msg.payload[0], 1);

    let msg = build_reset_thermometer_request();
    assert_eq!(msg.message_type(), UartMessageType::ResetThermometer);
    assert!(msg.payload.is_empty());

    let alarm_config = vec![0u8; 44];
    let msg = build_set_high_low_alarms_request(&alarm_config);
    assert_eq!(msg.message_type(), UartMessageType::SetHighLowAlarms);
    assert_eq!(msg.payload.len(), 44);

    let msg = build_silence_alarms_request();
    assert_eq!(msg.message_type(), UartMessageType::SilenceAlarms);
    assert!(msg.payload.is_empty());
}

#[test]
fn test_frame_rejected_on_sync_before_crc() {
    // A frame of correct length whose CRC is right but whose sync bytes are
    // wrong must fail with a framing error, proving the sync check comes
    // before the CRC check.
    let good = build_set_probe_id_request(3).to_bytes();
    let mut bad_sync = good.clone();
    bad_sync[0] = 0x00;
    match UartMessage::parse(&bad_sync) {
        Err(Error::InvalidFraming { byte0, byte1 }) => {
            assert_eq!(byte0, 0x00);
            assert_eq!(byte1, 0xFE);
        }
        other => panic!("expected a framing error, got {:?}", other),
    }
    // Even when the CRC is also wrong, the framing error wins.
    let mut bad_both = good.clone();
    bad_both[0] = 0x00;
    bad_both[2] ^= 0xFF;
    assert!(matches!(
        UartMessage::parse(&bad_both),
        Err(Error::InvalidFraming { .. })
    ));
}

#[test]
fn test_crc_mismatch_is_distinct_error() {
    let good = build_set_probe_id_request(3).to_bytes();
    let mut corrupted = good.clone();
    corrupted[6] ^= 0x01;
    match UartMessage::parse(&corrupted) {
        Err(Error::CrcMismatch { expected, actual }) => {
            assert_ne!(expected, actual);
        }
        other => panic!("expected a CRC mismatch, got {:?}", other),
    }
}

#[test]
fn test_message_too_short_errors() {
    match UartMessage::parse(&[0xCA, 0xFE, 0x00]) {
        Err(Error::LengthError { length, minimum }) => {
            assert_eq!(length, 3);
            assert_eq!(minimum, 6);
        }
        other => panic!("expected a length error, got {:?}", other),
    }
}

#[test]
fn test_cancel_prediction_uses_mode_zero() {
    let cancel = build_cancel_prediction_request();
    assert_eq!(cancel.message_type(), UartMessageType::SetPrediction);
    assert_eq!(cancel.payload, vec![0, 0]);

    let set = build_set_prediction_request(1, 630);
    assert_eq!(set.payload.len(), 2);
    let packed = u16::from_le_bytes([set.payload[0], set.payload[1]]);
    assert_eq!(packed & 0x03FF, 630);
    assert_eq!((packed >> 10) & 0x03, 1);
}

#[test]
fn test_configure_food_safe_request_payload() {
    let cfg = vec![1u8, 2, 3, 4, 5, 6, 7, 8, 9, 10];
    let msg = build_configure_food_safe_request(&cfg);
    assert_eq!(msg.message_type(), UartMessageType::ConfigureFoodSafe);
    assert_eq!(msg.payload, cfg);
}

#[test]
fn test_response_pairing_or_rule() {
    let requests = [
        UartMessageType::SetProbeId,
        UartMessageType::SetProbeColor,
        UartMessageType::ReadSessionInfo,
        UartMessageType::ReadLogs,
        UartMessageType::SetPrediction,
        UartMessageType::ReadOverTemperature,
        UartMessageType::ConfigureFoodSafe,
        UartMessageType::ResetFoodSafe,
        UartMessageType::SetPowerMode,
        UartMessageType::ResetThermometer,
        UartMessageType::SetHighLowAlarms,
        UartMessageType::SilenceAlarms,
    ];
    for t in requests {
        let paired = t.response_type().expect("request should pair");
        assert_eq!(paired.to_raw(), t.to_raw() | 0x80);
        assert_eq!(UartMessageType::from_raw(t.to_raw() | 0x80), paired);
    }
}
