use aht20_thermostat::environment_sensor::{
    decode_frame, EnvironmentSensor, EnvironmentSensorError, SENSOR_ADDRESS,
};
use aht20_thermostat::transport::{
    ScriptedReply, ScriptedTransport, SCRIPT_BAD_LENGTH, SCRIPT_EXHAUSTED,
};

#[test]
fn test_init() {
    let transport = ScriptedTransport::new(vec![ScriptedReply::Bytes(vec![0x18])]);
    let mut sensor = EnvironmentSensor::new(transport);
    assert!(sensor.init().is_ok());

    let transport = sensor.release();
    assert_eq!(transport.log.len(), 1);
    assert_eq!(transport.log[0].address, SENSOR_ADDRESS);
    assert_eq!(transport.log[0].command, vec![0x71]);
    assert_eq!(transport.log[0].read_len, 1);
}

#[test]
fn test_read_temperature_humidity() {
    let transport = ScriptedTransport::new(vec![ScriptedReply::Bytes(vec![
        0x00, 0x80, 0x00, 0x05, 0x99, 0x9A,
    ])]);
    let mut sensor = EnvironmentSensor::new(transport);
    let result = sensor.read_temperature_humidity();
    assert!(result.is_ok());
    let measurement = result.unwrap();
    let temperature = measurement.temperature_scaled as f64 / 1048576.0;
    let humidity = measurement.humidity_scaled as f64 / 1048576.0;
    assert!((temperature - 20.0).abs() < 0.01);
    assert!((humidity - 50.0).abs() < 0.01);

    let transport = sensor.release();
    assert_eq!(transport.log.len(), 1);
    assert_eq!(transport.log[0].address, SENSOR_ADDRESS);
    assert_eq!(transport.log[0].command, vec![0xAC, 0x33, 0x00]);
    assert_eq!(transport.log[0].read_len, 6);
}

#[test]
fn decode_matches_transfer_functions_exactly() {
    // raw humidity 0x80000 = 524288, raw temperature 0x5999A = 367002
    let frame = vec![0x00u8, 0x80, 0x00, 0x05, 0x99, 0x9A];
    let measurement = decode_frame(&frame).unwrap();
    assert_eq!(measurement.humidity_scaled, 524288 * 100);
    assert_eq!(measurement.temperature_scaled, 367002 * 200 - 52428800);
}

#[test]
fn measure_reports_sensor_fault_when_busy_bit_set() {
    let transport = ScriptedTransport::new(vec![ScriptedReply::Bytes(vec![
        0x80, 0xFF, 0x12, 0x34, 0x56, 0x78,
    ])]);
    let mut sensor = EnvironmentSensor::new(transport);
    let result = sensor.read_temperature_humidity();
    assert!(matches!(result, Err(EnvironmentSensorError::SensorError)));
}

#[test]
fn bus_error_is_propagated_with_cause() {
    let transport =
        ScriptedTransport::new(vec![ScriptedReply::Fault(77), ScriptedReply::Fault(99)]);
    let mut sensor = EnvironmentSensor::new(transport);
    assert!(matches!(sensor.init(), Err(EnvironmentSensorError::I2c(77))));
    assert!(matches!(
        sensor.read_temperature_humidity(),
        Err(EnvironmentSensorError::I2c(99))
    ));
}

#[test]
fn boundary_raw_extremes_decode_to_full_scale() {
    let transport = ScriptedTransport::new(vec![
        ScriptedReply::Bytes(vec![0x00, 0x00, 0x00, 0x00, 0x00, 0x00]),
        ScriptedReply::Bytes(vec![0x00, 0xFF, 0xFF, 0xFF, 0xFF, 0xFF]),
    ]);
    let mut sensor = EnvironmentSensor::new(transport);

    let low = sensor.read_temperature_humidity().unwrap();
    assert_eq!(low.humidity_scaled, 0);
    assert_eq!(low.temperature_scaled, -50 * 1048576);
    let low_humidity = low.humidity_scaled as f64 / 1048576.0;
    let low_temperature = low.temperature_scaled as f64 / 1048576.0;
    assert!((low_humidity - 0.0).abs() < 0.01);
    assert!((low_temperature - (-50.0)).abs() < 0.01);

    let high = sensor.read_temperature_humidity().unwrap();
    let high_humidity = high.humidity_scaled as f64 / 1048576.0;
    let high_temperature = high.temperature_scaled as f64 / 1048576.0;
    assert!((high_humidity - 100.0).abs() < 0.01);
    assert!((high_temperature - 150.0).abs() < 0.01);
}

#[test]
fn identical_responses_decode_identically() {
    let frame = vec![0x00u8, 0x12, 0x34, 0x56, 0x78, 0x9A];
    let transport = ScriptedTransport::new(vec![
        ScriptedReply::Bytes(frame.clone()),
        ScriptedReply::Bytes(frame),
    ]);
    let mut sensor = EnvironmentSensor::new(transport);
    let first = sensor.read_temperature_humidity().unwrap();
    let second = sensor.read_temperature_humidity().unwrap();
    assert_eq!(first, second);
}

#[test]
fn scripted_transport_reports_exhaustion_and_length_mismatch() {
    // the scripted reply holds 2 bytes while a measurement reads 6
    let transport = ScriptedTransport::new(vec![ScriptedReply::Bytes(vec![0x00, 0x00])]);
    let mut sensor = EnvironmentSensor::new(transport);
    assert!(matches!(
        sensor.read_temperature_humidity(),
        Err(EnvironmentSensorError::I2c(SCRIPT_BAD_LENGTH))
    ));
    assert!(matches!(
        sensor.init(),
        Err(EnvironmentSensorError::I2c(SCRIPT_EXHAUSTED))
    ));
}
