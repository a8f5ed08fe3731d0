use slimevr_wrangler::aggregator::{Aggregator, Command, DrainStep};
use slimevr_wrangler::events::{
    ChannelInfo, JoyconAxisData, JoyconData, JoyconDesign, JoyconDesignType, JoyconDeviceInfo,
    JoyconStatus,
};
use slimevr_wrangler::wire::{encode_rotation_update, SlimeQuaternion};

/// An estimator for the scenarios: it counts its updates and turns by one
/// degree about the first axis for each.
struct Counting {
    updates: u32,
}

impl Counting {
    fn quaternion(&self) -> SlimeQuaternion {
        SlimeQuaternion {
            i: (self.updates as f32).to_bits(),
            j: 0.0f32.to_bits(),
            k: 0.0f32.to_bits(),
            w: 1.0f32.to_bits(),
        }
    }

    fn euler_angles_deg(&self) -> (u64, u64, u64) {
        ((self.updates as f64).to_bits(), 0.0f64.to_bits(), 0.0f64.to_bits())
    }
}

/// Carries out commands as the caller of the aggregator does, recording the
/// datagrams in place of sending them.
fn perform(commands: Vec<Command>, estimators: &mut Vec<Counting>, sent: &mut Vec<Vec<u8>>) {
    for command in commands {
        match command {
            Command::Attach { place } => {
                if place == estimators.len() {
                    estimators.push(Counting { updates: 0 });
                } else {
                    estimators[place] = Counting { updates: 0 };
                }
            }
            Command::Update { place, frame: _ } => estimators[place].updates += 1,
            Command::SendRotation { place, sensor_id } => {
                sent.push(encode_rotation_update(sensor_id, estimators[place].quaternion()))
            }
            Command::Send { datagram } => sent.push(datagram),
        }
    }
}

fn snapshot(aggregator: &Aggregator, estimators: &Vec<Counting>) -> Vec<JoyconStatus> {
    let rotations: Vec<(u64, u64, u64)> =
        estimators.iter().map(|e| e.euler_angles_deg()).collect();
    aggregator.snapshot(&rotations)
}

fn connected(serial: &str, color: &str, side: JoyconDesignType) -> ChannelInfo {
    ChannelInfo::Connected(JoyconDeviceInfo {
        serial_number: serial.to_string(),
        design: JoyconDesign { color: color.to_string(), design_type: side },
    })
}

fn sample(serial: &str, frames: usize) -> ChannelInfo {
    let frame = JoyconAxisData {
        accel_x: 0.0f64.to_bits(),
        accel_y: 0.0f64.to_bits(),
        accel_z: 1.0f64.to_bits(),
        gyro_x: 0.1f64.to_bits(),
        gyro_y: 0.0f64.to_bits(),
        gyro_z: 0.0f64.to_bits(),
    };
    ChannelInfo::Data(JoyconData {
        serial_number: serial.to_string(),
        imu_data: vec![frame; frames],
    })
}

fn red_left() -> JoyconDesign {
    JoyconDesign { color: "#ff0000".to_string(), design_type: JoyconDesignType::Left }
}

#[test]
fn first_controller_connects_then_reports() {
    let mut aggregator = Aggregator::new();
    let mut estimators = Vec::new();
    let mut sent = Vec::new();

    aggregator.begin_pass();
    let commands = aggregator.handle(connected("ABC123", "#ff0000", JoyconDesignType::Left));
    perform(commands, &mut estimators, &mut sent);
    assert_eq!(sent, vec![vec![0, 0, 0, 15, 0, 0, 0, 0, 0, 0, 0, 1, 0, 1]]);
    assert_eq!(aggregator.end_attempt(), DrainStep::Publish);
    let zero = 0.0f64.to_bits();
    assert_eq!(
        snapshot(&aggregator, &estimators),
        vec![JoyconStatus { connected: true, rotation: (zero, zero, zero), design: red_left() }]
    );

    sent.clear();
    aggregator.begin_pass();
    let commands = aggregator.handle(sample("ABC123", 3));
    perform(commands, &mut estimators, &mut sent);
    assert_eq!(estimators[0].updates, 3);
    assert_eq!(sent.len(), 1);
    assert_eq!(sent[0][..4], [0, 0, 0, 17]);
    assert_eq!(sent[0][12], 0);
    assert_eq!(sent[0], encode_rotation_update(0, estimators[0].quaternion()));
    assert_eq!(aggregator.end_attempt(), DrainStep::Publish);
    assert_eq!(
        snapshot(&aggregator, &estimators),
        vec![JoyconStatus {
            connected: true,
            rotation: (3.0f64.to_bits(), zero, zero),
            design: red_left()
        }]
    );
}

#[test]
fn second_controller_gets_the_next_slot() {
    let mut aggregator = Aggregator::new();
    let mut estimators = Vec::new();
    let mut sent = Vec::new();

    let commands = aggregator.handle(connected("ABC123", "#ff0000", JoyconDesignType::Left));
    perform(commands, &mut estimators, &mut sent);
    sent.clear();
    let commands = aggregator.handle(connected("XYZ999", "#0000ff", JoyconDesignType::Right));
    perform(commands, &mut estimators, &mut sent);
    assert_eq!(sent, vec![vec![0, 0, 0, 15, 0, 0, 0, 0, 0, 0, 0, 1, 1, 1]]);
    assert_eq!(estimators.len(), 2);

    sent.clear();
    let commands = aggregator.handle(sample("ABC123", 3));
    perform(commands, &mut estimators, &mut sent);
    assert_eq!(sent.len(), 1);
    assert_eq!(sent[0][..4], [0, 0, 0, 17]);
    assert_eq!(sent[0][12], 0);
    assert_eq!(estimators[0].updates, 3);
    assert_eq!(estimators[1].updates, 0);

    sent.clear();
    let commands = aggregator.handle(sample("XYZ999", 2));
    perform(commands, &mut estimators, &mut sent);
    assert_eq!(sent.len(), 1);
    assert_eq!(sent[0][12], 1);
    assert_eq!(estimators[1].updates, 2);
}

#[test]
fn stranger_changes_nothing_and_sends_nothing() {
    let mut aggregator = Aggregator::new();
    let mut estimators = Vec::new();
    let mut sent = Vec::new();
    let commands = aggregator.handle(connected("ABC123", "#ff0000", JoyconDesignType::Left));
    perform(commands, &mut estimators, &mut sent);
    sent.clear();
    let commands = aggregator.handle(sample("GHOST", 3));
    perform(commands, &mut estimators, &mut sent);
    assert!(sent.is_empty());
    assert_eq!(estimators.len(), 1);
    assert_eq!(estimators[0].updates, 0);
    assert_eq!(aggregator.devices().len(), 1);
}

#[test]
fn many_distinct_controllers_fill_the_slots() {
    let mut aggregator = Aggregator::new();
    let mut estimators = Vec::new();
    let mut sent = Vec::new();
    for n in 0..40u8 {
        let commands =
            aggregator.handle(connected(&format!("PAD{n}"), "#000000", JoyconDesignType::Left));
        perform(commands, &mut estimators, &mut sent);
        assert_eq!(sent.last().unwrap()[12], n);
    }
    assert_eq!(estimators.len(), 40);
    for n in 0..40usize {
        assert_eq!(aggregator.devices().record(n).id as usize, n);
    }
}

#[test]
fn idle_iteration_publishes_nothing() {
    let mut aggregator = Aggregator::new();
    aggregator.handle(connected("ABC123", "#ff0000", JoyconDesignType::Left));
    aggregator.begin_pass();
    let mut steps = Vec::new();
    loop {
        let step = aggregator.end_attempt();
        steps.push(step);
        if step != DrainStep::Retry {
            break;
        }
    }
    assert_eq!(steps, vec![DrainStep::Retry, DrainStep::GiveUp]);
}
