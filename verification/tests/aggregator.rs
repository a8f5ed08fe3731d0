use slimevr_wrangler::aggregator::{
    parse_message, Aggregator, Command, DrainStep, DRAIN_ATTEMPTS, DRAIN_DELAY_MS,
};
use slimevr_wrangler::devices::DeviceTable;
use slimevr_wrangler::events::{
    ChannelInfo, JoyconAxisData, JoyconData, JoyconDesign, JoyconDesignType, JoyconDeviceInfo,
    JoyconStatus,
};
use slimevr_wrangler::liveness::Liveness;
use slimevr_wrangler::wire::{encode_handshake, encode_sensor_descriptor};

const SECOND: u64 = 1_000_000_000;

fn connected(serial: &str, color: &str, side: JoyconDesignType) -> ChannelInfo {
    ChannelInfo::Connected(JoyconDeviceInfo {
        serial_number: serial.to_string(),
        design: JoyconDesign { color: color.to_string(), design_type: side },
    })
}

fn frame(seed: f64) -> JoyconAxisData {
    JoyconAxisData {
        accel_x: seed.to_bits(),
        accel_y: (seed + 1.0).to_bits(),
        accel_z: (seed + 2.0).to_bits(),
        gyro_x: (seed + 3.0).to_bits(),
        gyro_y: (seed + 4.0).to_bits(),
        gyro_z: (seed + 5.0).to_bits(),
    }
}

fn sample(serial: &str, frames: Vec<JoyconAxisData>) -> ChannelInfo {
    ChannelInfo::Data(JoyconData { serial_number: serial.to_string(), imu_data: frames })
}

#[test]
fn drain_constants() {
    assert_eq!(DRAIN_ATTEMPTS, 2);
    assert_eq!(DRAIN_DELAY_MS, 2);
}

#[test]
fn connection_attaches_and_announces() {
    let mut table = DeviceTable::new();
    let commands = parse_message(connected("A", "#000000", JoyconDesignType::Left), &mut table);
    assert_eq!(
        commands,
        vec![
            Command::Attach { place: 0 },
            Command::Send { datagram: encode_sensor_descriptor(0) }
        ]
    );
    assert_eq!(table.len(), 1);
}

#[test]
fn sample_of_unknown_controller_is_dropped() {
    let mut table = DeviceTable::new();
    parse_message(connected("A", "#000000", JoyconDesignType::Left), &mut table);
    let commands = parse_message(sample("B", vec![frame(0.0), frame(1.0)]), &mut table);
    assert_eq!(commands, vec![]);
    assert_eq!(table.len(), 1);
    assert_eq!(table.record(0).serial_number, "A");
    assert_eq!(table.record(0).id, 0);
}

#[test]
fn sample_into_empty_table_is_dropped() {
    let mut table = DeviceTable::new();
    let commands = parse_message(sample("A", vec![frame(0.0)]), &mut table);
    assert_eq!(commands, vec![]);
    assert_eq!(table.len(), 0);
}

#[test]
fn sample_updates_per_frame_and_reports_once() {
    let mut table = DeviceTable::new();
    parse_message(connected("A", "#000000", JoyconDesignType::Left), &mut table);
    parse_message(connected("B", "#000000", JoyconDesignType::Right), &mut table);
    for k in 0..6usize {
        let frames: Vec<JoyconAxisData> = (0..k).map(|n| frame(n as f64)).collect();
        let commands = parse_message(sample("B", frames.clone()), &mut table);
        assert_eq!(commands.len(), k + 1);
        for n in 0..k {
            assert_eq!(commands[n], Command::Update { place: 1, frame: frames[n] });
        }
        assert_eq!(commands[k], Command::SendRotation { place: 1, sensor_id: 1 });
        let rotations =
            commands.iter().filter(|c| matches!(c, Command::SendRotation { .. })).count();
        assert_eq!(rotations, 1);
        assert_eq!(table.len(), 2);
    }
}

#[test]
fn reconnection_resets_the_estimator_in_place() {
    let mut table = DeviceTable::new();
    parse_message(connected("A", "#000000", JoyconDesignType::Left), &mut table);
    parse_message(connected("B", "#000000", JoyconDesignType::Right), &mut table);
    let commands = parse_message(connected("A", "#ffffff", JoyconDesignType::Left), &mut table);
    assert_eq!(
        commands,
        vec![
            Command::Attach { place: 0 },
            Command::Send { datagram: encode_sensor_descriptor(2) }
        ]
    );
    let commands = parse_message(sample("A", vec![frame(0.0)]), &mut table);
    assert_eq!(commands[1], Command::SendRotation { place: 0, sensor_id: 2 });
    let commands = parse_message(sample("B", vec![frame(0.0)]), &mut table);
    assert_eq!(commands[1], Command::SendRotation { place: 1, sensor_id: 1 });
}

#[test]
fn aggregator_starts_empty_and_unanswered() {
    let aggregator = Aggregator::new();
    assert_eq!(aggregator.devices().len(), 0);
    assert_eq!(aggregator.liveness(), Liveness::NoResponseSeen { last_try: None });
    assert!(aggregator.liveness_due(0));
}

#[test]
fn first_poll_sends_the_handshake_alone() {
    let mut aggregator = Aggregator::new();
    let commands = aggregator.poll_liveness(7, false);
    assert_eq!(commands, vec![Command::Send { datagram: encode_handshake() }]);
    assert_eq!(aggregator.liveness(), Liveness::NoResponseSeen { last_try: Some(7) });
}

#[test]
fn retry_announces_every_known_controller() {
    let mut aggregator = Aggregator::new();
    aggregator.poll_liveness(0, false);
    aggregator.handle(connected("A", "#000000", JoyconDesignType::Left));
    aggregator.handle(connected("B", "#000000", JoyconDesignType::Right));
    aggregator.handle(connected("C", "#000000", JoyconDesignType::Left));
    assert_eq!(aggregator.poll_liveness(3 * SECOND - 1, false), vec![]);
    let commands = aggregator.poll_liveness(3 * SECOND, false);
    assert_eq!(
        commands,
        vec![
            Command::Send { datagram: encode_handshake() },
            Command::Send { datagram: encode_sensor_descriptor(0) },
            Command::Send { datagram: encode_sensor_descriptor(1) },
            Command::Send { datagram: encode_sensor_descriptor(2) },
        ]
    );
    assert_eq!(aggregator.poll_liveness(4 * SECOND, false), vec![]);
    assert_eq!(aggregator.poll_liveness(6 * SECOND, false).len(), 4);
}

#[test]
fn retry_uses_the_slot_after_a_reconnection() {
    let mut aggregator = Aggregator::new();
    aggregator.handle(connected("A", "#000000", JoyconDesignType::Left));
    aggregator.handle(connected("B", "#000000", JoyconDesignType::Right));
    aggregator.handle(connected("A", "#000000", JoyconDesignType::Left));
    let commands = aggregator.poll_liveness(0, false);
    assert_eq!(
        commands,
        vec![
            Command::Send { datagram: encode_handshake() },
            Command::Send { datagram: encode_sensor_descriptor(2) },
            Command::Send { datagram: encode_sensor_descriptor(1) },
        ]
    );
}

#[test]
fn answered_server_gets_no_more_announcements() {
    let mut aggregator = Aggregator::new();
    aggregator.handle(connected("A", "#000000", JoyconDesignType::Left));
    assert_eq!(aggregator.poll_liveness(0, false).len(), 2);
    assert_eq!(aggregator.poll_liveness(3 * SECOND, true), vec![]);
    assert_eq!(aggregator.liveness(), Liveness::ResponseSeen);
    for now in [3 * SECOND, 6 * SECOND, 9 * SECOND, 1000 * SECOND] {
        assert!(!aggregator.liveness_due(now));
        assert_eq!(aggregator.poll_liveness(now, false), vec![]);
        assert_eq!(aggregator.poll_liveness(now, true), vec![]);
    }
    let commands = aggregator.handle(connected("B", "#000000", JoyconDesignType::Right));
    assert_eq!(commands[1], Command::Send { datagram: encode_sensor_descriptor(1) });
}

#[test]
fn idle_pass_retries_once_and_gives_up() {
    let mut aggregator = Aggregator::new();
    aggregator.begin_pass();
    assert_eq!(aggregator.end_attempt(), DrainStep::Retry);
    assert_eq!(aggregator.end_attempt(), DrainStep::GiveUp);
    assert_eq!(aggregator.end_attempt(), DrainStep::GiveUp);
    aggregator.begin_pass();
    assert_eq!(aggregator.end_attempt(), DrainStep::Retry);
}

#[test]
fn pass_with_an_event_publishes() {
    let mut aggregator = Aggregator::new();
    aggregator.begin_pass();
    aggregator.handle(connected("A", "#000000", JoyconDesignType::Left));
    assert_eq!(aggregator.end_attempt(), DrainStep::Publish);
    aggregator.begin_pass();
    assert_eq!(aggregator.end_attempt(), DrainStep::Retry);
    aggregator.handle(sample("A", vec![frame(0.0)]));
    assert_eq!(aggregator.end_attempt(), DrainStep::Publish);
}

#[test]
fn dropped_sample_still_counts_as_activity() {
    let mut aggregator = Aggregator::new();
    aggregator.begin_pass();
    assert_eq!(aggregator.handle(sample("nobody", vec![frame(0.0)])), vec![]);
    assert_eq!(aggregator.end_attempt(), DrainStep::Publish);
    assert_eq!(aggregator.snapshot(&vec![]), vec![]);
}

#[test]
fn snapshot_lists_every_record_in_table_order() {
    let mut aggregator = Aggregator::new();
    aggregator.handle(connected("A", "#ff0000", JoyconDesignType::Left));
    aggregator.handle(connected("B", "#00ff00", JoyconDesignType::Right));
    let first = (10.0f64.to_bits(), 20.0f64.to_bits(), 30.0f64.to_bits());
    let second = ((-1.5f64).to_bits(), 0.0f64.to_bits(), 179.0f64.to_bits());
    let statuses = aggregator.snapshot(&vec![first, second]);
    assert_eq!(
        statuses,
        vec![
            JoyconStatus {
                connected: true,
                rotation: first,
                design: JoyconDesign {
                    color: "#ff0000".to_string(),
                    design_type: JoyconDesignType::Left
                },
            },
            JoyconStatus {
                connected: true,
                rotation: second,
                design: JoyconDesign {
                    color: "#00ff00".to_string(),
                    design_type: JoyconDesignType::Right
                },
            },
        ]
    );
}

#[test]
fn snapshot_keeps_a_silent_controller() {
    let mut aggregator = Aggregator::new();
    aggregator.handle(connected("A", "#ff0000", JoyconDesignType::Left));
    aggregator.handle(connected("B", "#00ff00", JoyconDesignType::Right));
    for _ in 0..5 {
        aggregator.begin_pass();
        aggregator.handle(sample("B", vec![frame(1.0)]));
        assert_eq!(aggregator.end_attempt(), DrainStep::Publish);
        let statuses = aggregator.snapshot(&vec![(0, 0, 0), (1, 1, 1)]);
        assert_eq!(statuses.len(), 2);
        assert!(statuses.iter().all(|s| s.connected));
    }
}
