//! The aggregator: the single owner of the device table and of the
//! handshake state.
//!
//! The aggregator decides and its caller acts. Every decision comes back as
//! a list of commands, to be carried out in order: datagrams to send and
//! work for the orientation estimators, of which the caller keeps one per
//! place of the device table.

use vstd::prelude::*;
use crate::devices::{connected, known, next_slot, place_of, Device, DeviceTable};
use crate::events::{ChannelInfo, JoyconAxisData, JoyconStatus};
use crate::liveness::Liveness;
use crate::wire::{encode_handshake, handshake_datagram, sensor_descriptor_datagram};

verus! {

/// How often the event channel is drained in one pass before the pass gives
/// up.
pub const DRAIN_ATTEMPTS: u8 = 2;

/// How long to sleep after a drain that found nothing, in milliseconds.
pub const DRAIN_DELAY_MS: u64 = 2;

/// One thing for the caller to do.
#[derive(Debug, PartialEq, Eq)]
pub enum Command {
    /// Put a fresh estimator at `place`: in place of the one that is there,
    /// or at the end if `place` is the number of estimators.
    Attach { place: usize },
    /// Feed `frame` to the estimator at `place`.
    Update { place: usize, frame: JoyconAxisData },
    /// Read the quaternion of the estimator at `place` and send it as the
    /// rotation update of the sensor `sensor_id`.
    SendRotation { place: usize, sensor_id: u8 },
    /// Send `datagram` as it is.
    Send { datagram: Vec<u8> },
}

/// What a command asks for, as a mathematical value.
pub enum Effect {
    Attach { place: int },
    Update { place: int, frame: JoyconAxisData },
    SendRotation { place: int, sensor_id: u8 },
    Send { datagram: Seq<u8> },
}

impl View for Command {
    type V = Effect;

    open spec fn view(&self) -> Effect {
        match self {
            Command::Attach { place } => Effect::Attach { place: *place as int },
            Command::Update { place, frame } => Effect::Update {
                place: *place as int,
                frame: *frame,
            },
            Command::SendRotation { place, sensor_id } => Effect::SendRotation {
                place: *place as int,
                sensor_id: *sensor_id,
            },
            Command::Send { datagram } => Effect::Send { datagram: datagram@ },
        }
    }
}

/// What a list of commands asks for, in order.
pub open spec fn effects(commands: Seq<Command>) -> Seq<Effect> {
    Seq::new(commands.len(), |i: int| commands[i]@)
}

/// One update of the estimator at `place` for each frame, in order.
pub open spec fn feed(place: int, frames: Seq<JoyconAxisData>) -> Seq<Effect> {
    Seq::new(frames.len(), |i: int| Effect::Update { place, frame: frames[i] })
}

/// The place at which a connection puts its record.
pub open spec fn landing_place(devices: Seq<Device>, serial: Seq<char>) -> int {
    if known(devices, serial) {
        place_of(devices, serial)
    } else {
        devices.len() as int
    }
}

/// What an event asks for.
///
/// A connection gets a fresh estimator and one sensor descriptor for its
/// slot. A report of a known controller feeds every frame to the
/// controller's estimator and then sends one rotation update. A report of
/// an unknown controller asks for nothing.
pub open spec fn effects_of(devices: Seq<Device>, msg: ChannelInfo) -> Seq<Effect> {
    match msg {
        ChannelInfo::Connected(info) => seq![
            Effect::Attach { place: landing_place(devices, info.serial_number@) },
            Effect::Send { datagram: sensor_descriptor_datagram(next_slot(devices)) },
        ],
        ChannelInfo::Data(data) => if known(devices, data.serial_number@) {
            let place = place_of(devices, data.serial_number@);
            feed(place, data.imu_data@) + seq![
                Effect::SendRotation { place, sensor_id: devices[place].id },
            ]
        } else {
            Seq::empty()
        },
    }
}

/// The device table after an event. Only a connection changes it.
pub open spec fn table_after(devices: Seq<Device>, msg: ChannelInfo) -> Seq<Device> {
    match msg {
        ChannelInfo::Connected(info) => connected(devices, info),
        ChannelInfo::Data(_) => devices,
    }
}

/// The handshake, then the sensor descriptor of every record in table order.
pub open spec fn announcements(devices: Seq<Device>) -> Seq<Effect> {
    seq![Effect::Send { datagram: handshake_datagram() }] + Seq::new(
        devices.len(),
        |i: int| Effect::Send { datagram: sensor_descriptor_datagram(devices[i].id) },
    )
}

/// The status entry of one controller.
pub open spec fn status_of(device: Device, rotation: (u64, u64, u64)) -> JoyconStatus {
    JoyconStatus { connected: true, rotation, design: device.design }
}

/// The status snapshot: one entry for each record, in table order, with the
/// orientation that the caller read from the estimator at the same place.
pub open spec fn snapshot_of(devices: Seq<Device>, rotations: Seq<(u64, u64, u64)>) -> Seq<
    JoyconStatus,
> {
    Seq::new(devices.len(), |i: int| status_of(devices[i], rotations[i]))
}

/// Handles one event: changes the table and returns what the caller is to
/// do.
pub fn parse_message(msg: ChannelInfo, devices: &mut DeviceTable) -> (commands: Vec<Command>)
    ensures
        final(devices)@ == table_after(old(devices)@, msg),
        effects(commands@) == effects_of(old(devices)@, msg),
{
    let mut commands: Vec<Command> = Vec::new();
    match msg {
        ChannelInfo::Connected(info) => {
            let place = devices.connect(info);
            let datagram = devices.record(place).handshake();
            commands.push(Command::Attach { place });
            commands.push(Command::Send { datagram });
            assert(effects(commands@) =~= effects_of(old(devices)@, msg));
        },
        ChannelInfo::Data(data) => {
            match devices.find(&data.serial_number) {
                Some(place) => {
                    let sensor_id = devices.record(place).id;
                    let mut at: usize = 0;
                    while at < data.imu_data.len()
                        invariant
                            at <= data.imu_data.len(),
                            commands@.len() == at,
                            forall|i: int|
                                0 <= i < at ==> (#[trigger] commands@[i])@ == (Effect::Update {
                                    place: place as int,
                                    frame: data.imu_data@[i],
                                }),
                        decreases data.imu_data.len() - at,
                    {
                        commands.push(Command::Update { place, frame: data.imu_data[at] });
                        at += 1;
                    }
                    commands.push(Command::SendRotation { place, sensor_id });
                    assert(effects(commands@) =~= effects_of(old(devices)@, msg));
                },
                None => {
                    assert(effects(commands@) =~= effects_of(old(devices)@, msg));
                },
            }
        },
    }
    commands
}

/// What to do after a drain of the event channel.
#[derive(Clone, Copy, Debug, PartialEq, Eq, Structural)]
pub enum DrainStep {
    /// Events were handled in this pass: publish a status snapshot and end
    /// the pass.
    Publish,
    /// Nothing has come yet: sleep `DRAIN_DELAY_MS` and drain again.
    Retry,
    /// Nothing has come in `DRAIN_ATTEMPTS` drains: sleep `DRAIN_DELAY_MS`
    /// and end the pass without a snapshot.
    GiveUp,
}

/// The aggregator as a mathematical value.
pub struct AggregatorState {
    /// The device table.
    pub devices: Seq<Device>,
    /// The handshake state.
    pub liveness: Liveness,
    /// How many drains of this pass found nothing.
    pub attempts: nat,
    /// Whether an event was handled in this pass.
    pub active: bool,
}

impl AggregatorState {
    /// The aggregator at start: no records, nothing heard from the server,
    /// a pass just begun.
    pub open spec fn initial() -> AggregatorState {
        AggregatorState {
            devices: Seq::empty(),
            liveness: Liveness::NoResponseSeen { last_try: None },
            attempts: 0,
            active: false,
        }
    }

    /// The state after a liveness poll.
    pub open spec fn polled(self, now: u64, inbound: bool) -> AggregatorState {
        AggregatorState { liveness: self.liveness.after(now, inbound), ..self }
    }

    /// What a liveness poll asks for: the announcements if the bridge
    /// announces itself now, else nothing.
    pub open spec fn poll_effects(self, now: u64, inbound: bool) -> Seq<Effect> {
        if self.liveness.resends(now, inbound) {
            announcements(self.devices)
        } else {
            Seq::empty()
        }
    }

    /// The state at the start of a pass.
    pub open spec fn begun(self) -> AggregatorState {
        AggregatorState { attempts: 0, active: false, ..self }
    }

    /// The state after an event was handled.
    pub open spec fn handled(self, msg: ChannelInfo) -> AggregatorState {
        AggregatorState { devices: table_after(self.devices, msg), active: true, ..self }
    }

    /// What to do after a drain.
    pub open spec fn drain_step(self) -> DrainStep {
        if self.active {
            DrainStep::Publish
        } else if self.attempts + 1 < DRAIN_ATTEMPTS {
            DrainStep::Retry
        } else {
            DrainStep::GiveUp
        }
    }

    /// The state after a drain: a drain that found nothing is counted, up to
    /// `DRAIN_ATTEMPTS`.
    pub open spec fn drained(self) -> AggregatorState {
        if self.active || self.attempts >= DRAIN_ATTEMPTS {
            self
        } else {
            AggregatorState { attempts: self.attempts + 1, ..self }
        }
    }
}

/// The state that the aggregator loop keeps between its steps.
pub struct Aggregator {
    devices: DeviceTable,
    liveness: Liveness,
    attempts: u8,
    active: bool,
}

impl View for Aggregator {
    type V = AggregatorState;

    closed spec fn view(&self) -> AggregatorState {
        AggregatorState {
            devices: self.devices@,
            liveness: self.liveness,
            attempts: self.attempts as nat,
            active: self.active,
        }
    }
}

impl Aggregator {
    /// The aggregator at start.
    pub fn new() -> (aggregator: Self)
        ensures
            aggregator@ == AggregatorState::initial(),
    {
        Aggregator {
            devices: DeviceTable::new(),
            liveness: Liveness::new(),
            attempts: 0,
            active: false,
        }
    }

    /// The device table.
    pub fn devices(&self) -> (table: &DeviceTable)
        ensures
            table@ == self@.devices,
    {
        &self.devices
    }

    /// The handshake state.
    pub fn liveness(&self) -> (state: Liveness)
        ensures
            state == self@.liveness,
    {
        self.liveness
    }

    /// Whether the socket is to be read at `now`.
    pub fn liveness_due(&self, now: u64) -> (due: bool)
        ensures
            due == self@.liveness.due(now),
    {
        self.liveness.is_due(now)
    }

    /// Makes one liveness poll. `inbound` says whether the read of the
    /// socket yielded a datagram. Where the poll is due and found nothing,
    /// the commands send the handshake and the descriptor of every record.
    pub fn poll_liveness(&mut self, now: u64, inbound: bool) -> (commands: Vec<Command>)
        ensures
            final(self)@ == old(self)@.polled(now, inbound),
            effects(commands@) == old(self)@.poll_effects(now, inbound),
    {
        let mut commands: Vec<Command> = Vec::new();
        let resend = self.liveness.poll(now, inbound);
        if resend {
            commands.push(Command::Send { datagram: encode_handshake() });
            let mut at: usize = 0;
            while at < self.devices.len()
                invariant
                    at <= self.devices@.len(),
                    commands@.len() == at + 1,
                    self.devices@ == old(self).devices@,
                    forall|i: int|
                        0 <= i < commands@.len() ==> (#[trigger] commands@[i])@ == announcements(
                            self.devices@,
                        )[i],
                decreases self.devices@.len() - at,
            {
                let datagram = self.devices.record(at).handshake();
                commands.push(Command::Send { datagram });
                at += 1;
            }
            assert(effects(commands@) =~= announcements(self.devices@));
        } else {
            assert(effects(commands@) =~= Seq::<Effect>::empty());
        }
        commands
    }

    /// Starts a pass of the loop: nothing drained, nothing handled.
    pub fn begin_pass(&mut self)
        ensures
            final(self)@ == old(self)@.begun(),
    {
        self.attempts = 0;
        self.active = false;
    }

    /// Handles one drained event and marks the pass as active.
    pub fn handle(&mut self, msg: ChannelInfo) -> (commands: Vec<Command>)
        ensures
            final(self)@ == old(self)@.handled(msg),
            effects(commands@) == effects_of(old(self)@.devices, msg),
    {
        self.active = true;
        parse_message(msg, &mut self.devices)
    }

    /// Ends one drain of the event channel and says how the pass goes on. A
    /// snapshot is published exactly when an event was handled in this pass.
    pub fn end_attempt(&mut self) -> (step: DrainStep)
        ensures
            step == old(self)@.drain_step(),
            step == DrainStep::Publish <==> old(self)@.active,
            final(self)@ == old(self)@.drained(),
    {
        if self.active {
            DrainStep::Publish
        } else {
            let retry = self.attempts < DRAIN_ATTEMPTS - 1;
            if self.attempts < DRAIN_ATTEMPTS {
                self.attempts = self.attempts + 1;
            }
            if retry {
                DrainStep::Retry
            } else {
                DrainStep::GiveUp
            }
        }
    }

    /// Builds the status snapshot from the orientations that the caller
    /// read from the estimators, one for each record, in table order.
    pub fn snapshot(&self, rotations: &Vec<(u64, u64, u64)>) -> (statuses: Vec<JoyconStatus>)
        requires
            rotations@.len() == self@.devices.len(),
        ensures
            statuses@ == snapshot_of(self@.devices, rotations@),
    {
        let mut statuses: Vec<JoyconStatus> = Vec::new();
        let mut at: usize = 0;
        while at < self.devices.len()
            invariant
                at <= self.devices@.len(),
                rotations@.len() == self.devices@.len(),
                statuses@.len() == at,
                forall|i: int|
                    0 <= i < at ==> #[trigger] statuses@[i] == status_of(
                        self.devices@[i],
                        rotations@[i],
                    ),
            decreases self.devices@.len() - at,
        {
            let device = self.devices.record(at);
            statuses.push(
                JoyconStatus {
                    connected: true,
                    rotation: rotations[at],
                    design: device.design.clone(),
                },
            );
            at += 1;
        }
        assert(statuses@ =~= snapshot_of(self@.devices, rotations@));
        statuses
    }
}

} // verus!
