use mqtt_sensor::reading::{
    read_sensor_data, Binary32, Celsius, SensorData, Timestamp, EXPONENT_MASK, NANOS_PER_SEC,
    SYNTHETIC_HUMIDITY, SYNTHETIC_TEMPERATURE,
};

fn at(secs: u64, nanos: u32) -> Timestamp {
    Timestamp { secs_since_epoch: secs, nanos_since_epoch: nanos }
}

#[test]
fn the_synthetic_values_are_twenty_and_forty_five() {
    assert_eq!(SYNTHETIC_TEMPERATURE, 20.0f32.to_bits());
    assert_eq!(SYNTHETIC_HUMIDITY, 45.0f32.to_bits());
    assert_eq!(f32::from_bits(SYNTHETIC_TEMPERATURE), 20.0);
    assert_eq!(f32::from_bits(SYNTHETIC_HUMIDITY), 45.0);
}

#[test]
fn the_sensor_reports_the_synthetic_values_at_the_given_time() {
    let now = at(1_700_000_000, 123_456_789);
    let reading = read_sensor_data(now);
    assert_eq!(
        reading,
        Ok(SensorData {
            temperature: Celsius(Binary32 { bits: 0x41A0_0000 }),
            humidity: Binary32 { bits: 0x4234_0000 },
            timestamp: now,
        })
    );
}

#[test]
fn the_sensor_reads_at_the_epoch() {
    let reading = read_sensor_data(at(0, 0));
    match reading {
        Ok(r) => {
            assert_eq!(f32::from_bits(r.temperature.0.bits), 20.0);
            assert_eq!(f32::from_bits(r.humidity.bits), 45.0);
            assert_eq!(r.timestamp, at(0, 0));
            assert!(r.is_valid());
        }
        Err(_) => unreachable!(),
    }
}

#[test]
fn two_reads_differ_in_the_time_only() {
    let first = read_sensor_data(at(10, 0));
    let second = read_sensor_data(at(14, 0));
    match (first, second) {
        (Ok(a), Ok(b)) => {
            assert_eq!(a.temperature, b.temperature);
            assert_eq!(a.humidity, b.humidity);
            assert_eq!(b.timestamp.secs_since_epoch - a.timestamp.secs_since_epoch, 4);
        }
        _ => unreachable!(),
    }
}

#[test]
fn a_timestamp_takes_the_nanoseconds_of_a_started_second() {
    assert_eq!(Timestamp::new(7, 0), Some(at(7, 0)));
    assert_eq!(Timestamp::new(7, 999_999_999), Some(at(7, 999_999_999)));
    assert_eq!(Timestamp::new(u64::MAX, 1), Some(at(u64::MAX, 1)));
}

#[test]
fn a_timestamp_refuses_a_whole_second_of_nanoseconds() {
    assert_eq!(NANOS_PER_SEC, 1_000_000_000);
    assert_eq!(Timestamp::new(7, 1_000_000_000), None);
    assert_eq!(Timestamp::new(7, u32::MAX), None);
}

#[test]
fn finite_numbers_are_told_from_the_others() {
    assert_eq!(EXPONENT_MASK, 0x7F80_0000);
    assert!(Binary32 { bits: 20.0f32.to_bits() }.is_finite());
    assert!(Binary32 { bits: 0.0f32.to_bits() }.is_finite());
    assert!(Binary32 { bits: (-0.0f32).to_bits() }.is_finite());
    assert!(Binary32 { bits: f32::MAX.to_bits() }.is_finite());
    assert!(Binary32 { bits: f32::MIN.to_bits() }.is_finite());
    assert!(Binary32 { bits: 1 }.is_finite());
    assert!(!Binary32 { bits: f32::INFINITY.to_bits() }.is_finite());
    assert!(!Binary32 { bits: f32::NEG_INFINITY.to_bits() }.is_finite());
    assert!(!Binary32 { bits: f32::NAN.to_bits() }.is_finite());
    assert!(!Binary32 { bits: 0x7F80_0001 }.is_finite());
    assert!(!Binary32 { bits: 0xFFFF_FFFF }.is_finite());
}

#[test]
fn is_finite_agrees_with_the_float_it_stands_for() {
    let samples: [u32; 8] = [
        0, 1, 0x0080_0000, 0x3F80_0000, 0x7F7F_FFFF, 0x7F80_0000, 0x7FC0_0000, 0xFF80_0000,
    ];
    for bits in samples {
        assert_eq!(Binary32 { bits }.is_finite(), f32::from_bits(bits).is_finite());
    }
}

#[test]
fn a_reading_is_valid_when_all_of_it_is() {
    let good = SensorData {
        temperature: Celsius(Binary32 { bits: (-3.5f32).to_bits() }),
        humidity: Binary32 { bits: 99.0f32.to_bits() },
        timestamp: at(1, 999_999_999),
    };
    assert!(good.is_valid());
    let hot = SensorData { temperature: Celsius(Binary32 { bits: f32::NAN.to_bits() }), ..good };
    assert!(!hot.is_valid());
    let wet = SensorData { humidity: Binary32 { bits: f32::INFINITY.to_bits() }, ..good };
    assert!(!wet.is_valid());
    let late = SensorData { timestamp: at(1, 1_000_000_000), ..good };
    assert!(!late.is_valid());
}

#[test]
fn the_synthetic_values_are_written_as_twenty_and_forty_five() {
    let reading = match read_sensor_data(at(1_700_000_000, 0)) {
        Ok(r) => r,
        Err(_) => unreachable!(),
    };
    let temperature = serde_json::to_string(&f32::from_bits(reading.temperature.0.bits));
    let humidity = serde_json::to_string(&f32::from_bits(reading.humidity.bits));
    assert_eq!(temperature.ok(), Some(String::from("20.0")));
    assert_eq!(humidity.ok(), Some(String::from("45.0")));
}

#[test]
fn a_finite_number_reads_back_from_its_json_form() {
    let samples: [u32; 7] = [
        0x41A0_0000, 0x4234_0000, 0x0000_0001, 0x7F7F_FFFF, 0x8000_0000, 0x3DCC_CCCD, 0xC388_9333,
    ];
    for bits in samples {
        assert!(Binary32 { bits }.is_finite());
        let text = match serde_json::to_string(&f32::from_bits(bits)) {
            Ok(text) => text,
            Err(_) => unreachable!(),
        };
        let back = serde_json::from_str::<f32>(&text).map(f32::to_bits);
        assert_eq!(back.ok(), Some(bits));
    }
}

#[test]
fn a_number_that_is_not_finite_does_not_read_back() {
    let samples: [u32; 4] = [0x7F80_0000, 0xFF80_0000, 0x7FC0_0000, 0x7F80_0001];
    for bits in samples {
        assert!(!Binary32 { bits }.is_finite());
        let text = serde_json::to_string(&f32::from_bits(bits));
        assert_eq!(text.ok(), Some(String::from("null")));
        assert!(serde_json::from_str::<f32>("null").is_err());
    }
}

#[test]
fn a_timestamp_holds_the_fields_that_the_clock_is_written_with() {
    let t = at(1_700_000_000, 123_456_789);
    let clock = std::time::UNIX_EPOCH
        + std::time::Duration::new(t.secs_since_epoch, t.nanos_since_epoch);
    assert_eq!(
        serde_json::to_string(&clock).ok(),
        Some(String::from("{\"secs_since_epoch\":1700000000,\"nanos_since_epoch\":123456789}"))
    );
    let back = serde_json::from_str::<std::time::SystemTime>(
        "{\"secs_since_epoch\":1700000000,\"nanos_since_epoch\":123456789}",
    );
    assert_eq!(back.ok(), Some(clock));
}

#[test]
fn a_temperature_is_made_from_its_number() {
    let number = Binary32 { bits: 0x41A0_0000 };
    assert_eq!(Celsius::from(number), Celsius(number));
    let converted: Celsius = number.into();
    assert_eq!(converted.0.bits, 0x41A0_0000);
}
