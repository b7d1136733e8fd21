use sensilo::dedup::DeduplicationCache;
use sensilo::gateway::{
    lengths_valid, process_report, AdElement, AdvReport, ProcessOutcome, RejectReason,
};
use sensilo::types::Address;

fn example_report() -> AdvReport {
    let payload = vec![
        52, 4,
        1, 250, 98, 0, 0,
        2, 230, 192, 0, 0,
        4, 80, 252, 152, 66,
    ];
    AdvReport {
        // On the wire the address bytes arrive reversed.
        address_raw: vec![6, 5, 4, 3, 2, 1],
        rssi: 123,
        data: vec![
            AdElement::LocalName("Sensilo".to_string()),
            AdElement::ManufacturerData { company: 0xffff, payload },
        ],
    }
}

fn allowlist_with_device() -> Vec<Address> {
    vec![Address([9, 9, 9, 9, 9, 9]), Address([1, 2, 3, 4, 5, 6])]
}

#[test]
fn end_to_end_example_decodes_all_readings() {
    let mut cache = DeduplicationCache::new();
    let report = example_report();
    match process_report(&report, &allowlist_with_device(), &mut cache) {
        ProcessOutcome::New(m) => {
            assert_eq!(m.address, Address([1, 2, 3, 4, 5, 6]));
            assert_eq!(m.rssi, 123);
            assert_eq!(m.local_name, "Sensilo");
            assert_eq!(m.counter, 1076);
            // 25.338 degrees Celsius.
            assert_eq!(
                m.temperature.as_ref().map(|t| t.as_millidegrees_celsius()),
                Some(25_338)
            );
            // 49.382 percent relative humidity.
            assert_eq!(m.humidity.as_ref().map(|h| h.as_millipercent()), Some(49_382));
            // About 76.4928 lux.
            let lux = f32::from_bits(m.ambient_light.as_ref().unwrap().as_lux_bits());
            assert!((lux - 76.4928).abs() < 1e-4);
        }
        other => panic!("expected a fresh measurement, got {:?}", other),
    }
}

#[test]
fn burst_retransmission_is_suppressed() {
    let mut cache = DeduplicationCache::new();
    let allowlist = allowlist_with_device();
    let report = example_report();
    assert!(matches!(
        process_report(&report, &allowlist, &mut cache),
        ProcessOutcome::New(_)
    ));
    // The same frame captured again within the burst window.
    assert!(matches!(
        process_report(&report, &allowlist, &mut cache),
        ProcessOutcome::Duplicate
    ));
}

#[test]
fn frame_from_unknown_address_leaves_no_trace() {
    let mut cache = DeduplicationCache::new();
    let report = example_report();
    // The allowlist does not hold the device.
    let strangers = vec![Address([9, 9, 9, 9, 9, 9])];
    assert!(matches!(
        process_report(&report, &strangers, &mut cache),
        ProcessOutcome::Rejected(RejectReason::NotInAllowlist)
    ));
    // No measurement was produced and no dedup entry was made: the same
    // frame, once allowed, is fresh — not a duplicate.
    assert!(matches!(
        process_report(&report, &allowlist_with_device(), &mut cache),
        ProcessOutcome::New(_)
    ));
}

#[test]
fn frame_without_local_name_is_discarded() {
    let mut cache = DeduplicationCache::new();
    let mut report = example_report();
    report.data.remove(0);
    assert!(matches!(
        process_report(&report, &allowlist_with_device(), &mut cache),
        ProcessOutcome::Rejected(RejectReason::BuildFailure)
    ));
}

#[test]
fn foreign_vendor_payload_is_ignored() {
    let mut cache = DeduplicationCache::new();
    let mut report = example_report();
    // A manufacturer element of some other vendor: without ours, no counter
    // is found and the build fails.
    if let AdElement::ManufacturerData { company, .. } = &mut report.data[1] {
        *company = 0x004c;
    }
    assert!(matches!(
        process_report(&report, &allowlist_with_device(), &mut cache),
        ProcessOutcome::Rejected(RejectReason::BuildFailure)
    ));
}

#[test]
fn malformed_address_is_discarded() {
    let mut cache = DeduplicationCache::new();
    let mut report = example_report();
    report.address_raw = vec![6, 5, 4];
    assert!(matches!(
        process_report(&report, &allowlist_with_device(), &mut cache),
        ProcessOutcome::Rejected(RejectReason::MalformedAddress)
    ));
}

#[test]
fn length_validation_compares_reported_and_captured() {
    assert!(lengths_valid(60, 60));
    assert!(!lengths_valid(60, 58));
}

#[test]
fn address_from_inverted_slice_unreverses() {
    let raw = [0x5f, 0x4e, 0x3d, 0x2c, 0x1b, 0x0a];
    assert_eq!(
        Address::from_inverted_slice(&raw),
        Address([0x0a, 0x1b, 0x2c, 0x3d, 0x4e, 0x5f])
    );
}

#[test]
fn address_from_hex_parses_twelve_digits() {
    assert_eq!(
        Address::from_hex("0a1b2c3d4e5f"),
        Address([0x0a, 0x1b, 0x2c, 0x3d, 0x4e, 0x5f])
    );
    assert_eq!(
        Address::from_hex("FFAA00bb19Ce"),
        Address([0xff, 0xaa, 0x00, 0xbb, 0x19, 0xce])
    );
}
