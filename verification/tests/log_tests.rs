use combustion_ble::log::{LoggedDataPoint, TemperatureLog};
use combustion_ble::temperature::{ProbeTemperatures, RawTemperature};

fn make_temperatures(base: u16) -> ProbeTemperatures {
    ProbeTemperatures {
        values: [
            RawTemperature::new(base),
            RawTemperature::new(base + 10),
            RawTemperature::new(base + 20),
            RawTemperature::new(base + 30),
            RawTemperature::new(base + 40),
            RawTemperature::new(base + 50),
            RawTemperature::new(base + 60),
            RawTemperature::new(base + 70),
        ],
    }
}

#[test]
fn test_temperature_log_new() {
    let log = TemperatureLog::new(0x12345678, 1000);
    assert_eq!(log.session_id, 0x12345678);
    assert_eq!(log.sample_period_ms, 1000);
    assert!(log.is_empty());
}

#[test]
fn test_temperature_log_add_data_point() {
    let mut log = TemperatureLog::new(0, 1000);

    log.add_data_point(LoggedDataPoint::new(10, make_temperatures(1000)));
    log.add_data_point(LoggedDataPoint::new(5, make_temperatures(1100)));
    log.add_data_point(LoggedDataPoint::new(15, make_temperatures(1200)));

    assert_eq!(log.len(), 3);
    assert_eq!(log.data_points[0].sequence_number, 5);
    assert_eq!(log.data_points[1].sequence_number, 10);
    assert_eq!(log.data_points[2].sequence_number, 15);
}

#[test]
fn test_temperature_log_percent_synced() {
    let mut log = TemperatureLog::new(0, 1000);

    for i in 0..50 {
        log.add_data_point(LoggedDataPoint::new(i, make_temperatures(1000)));
    }

    assert_eq!(log.percent_synced(0, 99), 50);
    assert_eq!(log.percent_synced(0, 49), 100);
}

#[test]
fn test_temperature_log_missing_sequences() {
    let mut log = TemperatureLog::new(0, 1000);

    log.add_data_point(LoggedDataPoint::new(0, make_temperatures(1000)));
    log.add_data_point(LoggedDataPoint::new(2, make_temperatures(1000)));
    log.add_data_point(LoggedDataPoint::new(5, make_temperatures(1000)));

    let missing = log.missing_sequences(0, 5);
    assert_eq!(missing, vec![1, 3, 4]);
}

#[test]
fn test_temperature_log_duration() {
    let mut log = TemperatureLog::new(0, 1000);

    log.add_data_point(LoggedDataPoint::new(0, make_temperatures(1000)));
    log.add_data_point(LoggedDataPoint::new(60, make_temperatures(1000)));

    assert_eq!(log.duration_ms(), 60_000);
}

#[test]
fn test_temperature_log_duplicates_dropped() {
    let mut log = TemperatureLog::new(0, 1000);
    log.add_data_point(LoggedDataPoint::new(7, make_temperatures(1000)));
    log.add_data_point(LoggedDataPoint::new(7, make_temperatures(2000)));
    assert_eq!(log.len(), 1);
    assert_eq!(log.data_points[0].temperatures, make_temperatures(1000));
}
