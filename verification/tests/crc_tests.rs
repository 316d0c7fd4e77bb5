use combustion_ble::crc::{append_crc, calculate_crc, verify_crc};

#[test]
fn test_crc_empty() {
    let crc = calculate_crc(&[]);
    assert_eq!(crc, 0xFFFF);
}

#[test]
fn test_crc_known_value() {
    let data = [0xCA, 0x01, 0x00];
    let crc = calculate_crc(&data);
    assert_ne!(crc, 0);
}

#[test]
fn test_crc_different_data() {
    let data1 = [0x01, 0x02, 0x03];
    let data2 = [0x01, 0x02, 0x04];
    assert_ne!(calculate_crc(&data1), calculate_crc(&data2));
}

#[test]
fn test_verify_crc_valid() {
    let data = [0xCA, 0x01, 0x00];
    let with_crc = append_crc(&data);
    assert!(verify_crc(&with_crc));
}

#[test]
fn test_verify_crc_invalid() {
    let data = [0xCA, 0x01, 0x00, 0x00, 0x00];
    assert!(!verify_crc(&data));
}

#[test]
fn test_verify_crc_too_short() {
    let data = [0xCA, 0x01];
    assert!(!verify_crc(&data));
}

#[test]
fn test_append_crc() {
    let data = [0xCA, 0x01, 0x00];
    let with_crc = append_crc(&data);
    assert_eq!(with_crc.len(), data.len() + 2);
    assert!(verify_crc(&with_crc));
}

#[test]
fn test_crc_bit_flip_detected() {
    let data = [0x13, 0x57, 0x9B, 0xDF, 0x00, 0xFF];
    let with_crc = append_crc(&data);
    assert!(verify_crc(&with_crc));
    for byte in 0..with_crc.len() {
        for bit in 0..8 {
            let mut corrupted = with_crc.clone();
            corrupted[byte] ^= 1u8 << bit;
            assert!(
                !verify_crc(&corrupted),
                "flip of bit {} in byte {} went undetected",
                bit,
                byte
            );
        }
    }
}

#[test]
fn test_crc_round_trip_various_lengths() {
    for n in 1..40usize {
        let data: Vec<u8> = (0..n).map(|i| (i * 37 + 11) as u8).collect();
        assert!(verify_crc(&append_crc(&data)));
    }
}
