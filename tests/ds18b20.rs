use tosca_controller::ds18b20::{crc8, scratchpad_temperature, Ds18b20Error};

const TEMPERATURE_RESOLUTION_C_PER_LSB: f32 = 0.0625;

fn raw_to_temp(data: [u8; 9]) -> f32 {
    let raw = scratchpad_temperature::<()>(&data).unwrap();
    f32::from(raw) * TEMPERATURE_RESOLUTION_C_PER_LSB
}

#[test]
fn test_read_temperature_crc_mismatch() {
    // Simulate a scratchpad read with incorrect CRC.
    let data = [0x50, 0x05, 0, 0, 0, 0, 0, 0, 0x00];

    let crc_ok = crc8(&data[0..8]);
    assert_ne!(crc_ok, data[8]); // Confirms that CRC mismatch exists.
    assert!(matches!(
        scratchpad_temperature::<()>(&data),
        Err(Ds18b20Error::CrcMismatch)
    ));
}

#[test]
fn test_crc8_computation() {
    // Example data set with a known correct CRC-8 value.
    let data = [0x02, 0x4E, 0xB8, 0x1C, 0x46, 0x7F, 0xFF, 0x0C];

    let crc = crc8(&data);
    assert_eq!(crc, 0xBE); // Expected CRC known value.
}

#[test]
fn test_read_temperature_valid_data() {
    // Raw reading: 0x0550 = 85.0 °C.
    let mut data = [0x50, 0x05, 0, 0, 0, 0, 0, 0, 0];
    data[8] = crc8(&data[0..8]);

    // Test CRC correctness.
    let crc_ok = crc8(&data[0..8]);
    assert_eq!(crc_ok, data[8]);

    let temp = raw_to_temp(data);
    assert!((temp - 85.0).abs() < f32::EPSILON);
}

#[test]
fn test_read_temperature_negative_value() {
    // Raw reading: 0xFF90 = -7.0 °C.
    let mut data = [0x90, 0xFF, 0, 0, 0, 0, 0, 0, 0];
    data[8] = crc8(&data[0..8]);

    let temp = raw_to_temp(data);
    assert!((temp + 7.0).abs() < f32::EPSILON);
}

#[test]
fn raw_temperature_extremes() {
    let mut data = [0xFF, 0x7F, 0, 0, 0, 0, 0, 0, 0];
    data[8] = crc8(&data[0..8]);
    assert_eq!(scratchpad_temperature::<()>(&data).unwrap(), 32767);
    let mut data = [0x00, 0x80, 0, 0, 0, 0, 0, 0, 0];
    data[8] = crc8(&data[0..8]);
    assert_eq!(scratchpad_temperature::<()>(&data).unwrap(), -32768);
    assert_eq!(crc8(&[]), 0);
}
