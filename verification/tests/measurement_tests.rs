use sensilo::measurement::{AmbientLight, Humidity, MeasurementBuilder, Temperature};
use sensilo::types::Address;

#[test]
fn test_parse_payload() {
    let payload = [
        // 2 byte counter
        52, 4,
        // Payload type 1: Temperature
        1, 250, 98, 0, 0,
        // Payload type 2: Humidity
        2, 230, 192, 0, 0,
        // Payload type 4: Ambient light
        4, 80, 252, 152, 66,
    ];
    let address = Address([1, 2, 3, 4, 5, 6]);
    let mut builder = MeasurementBuilder::new(address, 123);
    builder.local_name("Sensilo");
    builder.parse_payload(&payload).unwrap();
    let measurement = builder.build().unwrap();
    assert_eq!(measurement.address, Address([1, 2, 3, 4, 5, 6]));
    assert_eq!(measurement.rssi, 123);
    assert_eq!(measurement.local_name, "Sensilo");
    assert_eq!(measurement.counter, 1076);
    assert_eq!(
        measurement.temperature,
        Some(Temperature::from_le_bytes(25_338i32.to_le_bytes()))
    );
    assert_eq!(
        measurement.humidity,
        Some(Humidity::from_le_bytes(49_382i32.to_le_bytes()))
    );
    assert_eq!(
        measurement.ambient_light,
        Some(AmbientLight::from_le_bytes(76.4928f32.to_le_bytes()))
    );
}

#[test]
fn reading_accessors_return_decoded_values() {
    let t = Temperature::from_le_bytes((-273_150i32).to_le_bytes());
    assert_eq!(t.as_millidegrees_celsius(), -273_150);
    let h = Humidity::from_le_bytes(49_382i32.to_le_bytes());
    assert_eq!(h.as_millipercent(), 49_382);
    let l = AmbientLight::from_le_bytes(76.4928f32.to_le_bytes());
    assert_eq!(l.as_lux_bits(), 76.4928f32.to_bits());
    assert!((f32::from_bits(l.as_lux_bits()) - 76.4928).abs() < 1e-4);
}

#[test]
fn truncated_temperature_field_fails_but_keeps_counter() {
    // A temperature tag followed by fewer than 4 remaining bytes.
    let payload = [52, 4, 1, 250, 98];
    let address = Address([1, 2, 3, 4, 5, 6]);
    let mut builder = MeasurementBuilder::new(address, 10);
    builder.local_name("Sensilo");
    let res = builder.parse_payload(&payload);
    assert_eq!(res, Err("Malformed payload"));
    // The counter was parsed before the failure and stays readable.
    assert_eq!(builder.parsed_counter(), Some(1076));
    assert_eq!(builder.parsed_temperature(), None);
    // The failure poisons the build.
    assert_eq!(builder.build().unwrap_err(), "Error while parsing packet");
}

#[test]
fn truncated_field_keeps_earlier_readings() {
    // Humidity parses fine; the temperature tag after it is cut short.
    let payload = [52, 4, 2, 230, 192, 0, 0, 1, 250];
    let address = Address([1, 2, 3, 4, 5, 6]);
    let mut builder = MeasurementBuilder::new(address, 10);
    let res = builder.parse_payload(&payload);
    assert_eq!(res, Err("Malformed payload"));
    assert_eq!(builder.parsed_counter(), Some(1076));
}

#[test]
fn unknown_tag_stops_parsing_without_failing() {
    // Tag 3 is unknown; its value width is unknown, so parsing stops there
    // and keeps what it has.
    let payload = [52, 4, 3, 9, 9, 9, 9, 1, 250, 98, 0, 0];
    let address = Address([1, 2, 3, 4, 5, 6]);
    let mut builder = MeasurementBuilder::new(address, 10);
    assert!(builder.parse_payload(&payload).is_ok());
    assert_eq!(builder.parsed_counter(), Some(1076));
    assert_eq!(builder.parsed_temperature(), None);
    builder.local_name("Sensilo");
    let measurement = builder.build().unwrap();
    assert_eq!(measurement.counter, 1076);
    assert_eq!(measurement.temperature, None);
}

#[test]
fn payload_too_short_for_counter_fails() {
    let payload = [52];
    let address = Address([1, 2, 3, 4, 5, 6]);
    let mut builder = MeasurementBuilder::new(address, 10);
    assert_eq!(builder.parse_payload(&payload), Err("Malformed payload"));
    assert_eq!(builder.parsed_counter(), None);
}

#[test]
fn build_requires_local_name_and_counter() {
    let address = Address([1, 2, 3, 4, 5, 6]);

    let builder = MeasurementBuilder::new(address, 10);
    assert_eq!(builder.build().unwrap_err(), "Missing local name");

    let mut builder = MeasurementBuilder::new(address, 10);
    builder.local_name("Sensilo");
    assert_eq!(builder.build().unwrap_err(), "Missing counter");

    let mut builder = MeasurementBuilder::new(address, 10);
    builder.local_name("Sensilo");
    builder.counter(7);
    let measurement = builder.build().unwrap();
    assert_eq!(measurement.counter, 7);
    assert_eq!(measurement.temperature, None);
    assert_eq!(measurement.humidity, None);
    assert_eq!(measurement.ambient_light, None);
}
