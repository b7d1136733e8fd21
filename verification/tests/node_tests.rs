use sensilo::burst::{BeaconBurstController, BurstAction, BEACON_BURST_COUNT};
use sensilo::codec::encode_manufacturer_data;
use sensilo::scheduler::{max_latency, MeasurementScheduler, PrimaryReading};

#[test]
fn next_cycle_is_anchored_to_scheduled_start() {
    let interval: u64 = 3_000_000;
    let mut scheduler = MeasurementScheduler::new(interval);
    let t: u64 = 1_000_000;

    // Short sensor latencies: the collection deadline is early.
    let deadline = scheduler.start_measurement(t, &vec![12_100, 29_000]);
    assert_eq!(deadline, t + 29_000);
    let out = scheduler.collect_measurement(
        Some(PrimaryReading { temperature_millidegrees: 25_338, humidity_millipercent: 49_382 }),
        None,
    );
    // The next start is exactly T + I, no matter when collection ran.
    assert_eq!(out.next_start, t + interval);

    // A much longer acquisition: the anchor does not move.
    let t2 = out.next_start;
    let deadline2 = scheduler.start_measurement(t2, &vec![2_900_000]);
    assert_eq!(deadline2, t2 + 2_900_000);
    let out2 = scheduler.collect_measurement(
        Some(PrimaryReading { temperature_millidegrees: 1, humidity_millipercent: 2 }),
        Some(76.4928f32.to_bits()),
    );
    assert_eq!(out2.next_start, t2 + interval);
}

#[test]
fn collect_encodes_counter_and_readings() {
    let mut scheduler = MeasurementScheduler::new(3_000_000);
    scheduler.start_measurement(0, &vec![10_000]);
    let out = scheduler.collect_measurement(
        Some(PrimaryReading { temperature_millidegrees: 25_338, humidity_millipercent: 49_382 }),
        Some(76.4928f32.to_bits()),
    );
    let expected = encode_manufacturer_data(
        0,
        Some(25_338),
        Some(49_382),
        Some(76.4928f32.to_bits()),
    );
    assert_eq!(out.payload, Some(expected));

    // The counter advances by one per completed cycle.
    scheduler.start_measurement(3_000_000, &vec![10_000]);
    let out2 = scheduler
        .collect_measurement(
            Some(PrimaryReading { temperature_millidegrees: 0, humidity_millipercent: 0 }),
            None,
        );
    assert_eq!(
        out2.payload,
        Some(encode_manufacturer_data(1, Some(0), Some(0), None))
    );
}

#[test]
fn failed_primary_sensor_abandons_cycle_but_keeps_schedule() {
    let mut scheduler = MeasurementScheduler::new(3_000_000);
    scheduler.start_measurement(500, &vec![10_000]);
    let out = scheduler.collect_measurement(None, Some(42));
    assert_eq!(out.payload, None);
    // The next cycle is still scheduled from the scheduled start.
    assert_eq!(out.next_start, 500 + 3_000_000);
    // The abandoned cycle consumed no counter value.
    scheduler.start_measurement(out.next_start, &vec![10_000]);
    let out2 = scheduler.collect_measurement(
        Some(PrimaryReading { temperature_millidegrees: 1, humidity_millipercent: 1 }),
        None,
    );
    assert_eq!(
        out2.payload,
        Some(encode_manufacturer_data(0, Some(1), Some(1), None))
    );
}

#[test]
fn max_latency_of_sensors() {
    assert_eq!(max_latency(&vec![]), 0);
    assert_eq!(max_latency(&vec![12_100]), 12_100);
    assert_eq!(max_latency(&vec![12_100, 29_000, 4_000]), 29_000);
}

#[test]
fn burst_broadcasts_three_times_twenty_ms_apart() {
    let mut controller = BeaconBurstController::new();

    // Nothing armed: nothing to send.
    assert!(matches!(controller.fire(0), BurstAction::Idle));

    let frame = vec![0xff, 0xff, 52, 4];
    controller.arm(frame.clone());
    let t0: u64 = 10_000_000;

    match controller.fire(t0) {
        BurstAction::Transmit { payload, next_time } => {
            assert_eq!(payload, frame);
            assert_eq!(next_time, Some(t0 + 20_000));
        }
        BurstAction::Idle => panic!("first firing must transmit"),
    }
    match controller.fire(t0 + 20_000) {
        BurstAction::Transmit { payload, next_time } => {
            assert_eq!(payload, frame);
            assert_eq!(next_time, Some(t0 + 40_000));
        }
        BurstAction::Idle => panic!("second firing must transmit"),
    }
    match controller.fire(t0 + 40_000) {
        BurstAction::Transmit { payload, next_time } => {
            assert_eq!(payload, frame);
            // The burst count is reached: no follow-up is scheduled.
            assert_eq!(next_time, None);
        }
        BurstAction::Idle => panic!("third firing must transmit"),
    }
    // Exactly BEACON_BURST_COUNT transmissions happen.
    assert_eq!(BEACON_BURST_COUNT, 3);
    assert!(matches!(controller.fire(t0 + 60_000), BurstAction::Idle));
}

#[test]
fn new_frame_preempts_remaining_burst() {
    let mut controller = BeaconBurstController::new();
    let first = vec![1, 1, 1];
    let second = vec![2, 2, 2];
    controller.arm(first.clone());
    assert!(matches!(controller.fire(0), BurstAction::Transmit { .. }));

    // A new frame arrives mid-burst: last writer wins, the count restarts.
    controller.arm(second.clone());
    let mut sent: u32 = 0;
    let mut t: u64 = 100;
    loop {
        match controller.fire(t) {
            BurstAction::Transmit { payload, next_time } => {
                assert_eq!(payload, second);
                sent += 1;
                match next_time {
                    Some(next) => t = next,
                    None => break,
                }
            }
            BurstAction::Idle => panic!("burst ended early"),
        }
    }
    assert_eq!(sent, 3);
}
