use combustion_ble::session::SessionInfo;
use std::time::Duration;

#[test]
fn test_session_info_new() {
    let session = SessionInfo::new(0x12345678, 1000);
    assert_eq!(session.session_id, 0x12345678);
    assert_eq!(session.sample_period_ms, 1000);
}

#[test]
fn test_session_info_sample_period() {
    let session = SessionInfo::new(0, 1000);
    assert_eq!(Duration::from_millis(session.sample_period()), Duration::from_millis(1000));
}

#[test]
fn test_max_probes_constant() {
    assert_eq!(combustion_ble::probe_state::MAX_PROBES, 8);
}
