//! What holds of the aggregator over whole runs of events.

use vstd::prelude::*;
use crate::aggregator::{
    announcements, effects_of, feed, landing_place, snapshot_of, table_after, AggregatorState,
    DrainStep, Effect, DRAIN_ATTEMPTS,
};
use crate::devices::{
    connected, connected_keeps_distinct, distinct, fresh_record, known, next_slot, place_is_unique,
    place_of, Device,
};
use crate::events::{ChannelInfo, JoyconAxisData, JoyconData, JoyconDeviceInfo};
use crate::liveness::{retries_are_spaced, runs_compose, spaced, Liveness, Poll};
use crate::wire::{
    datagram_shows_its_kind, firmware_name, handshake_body, handshake_datagram,
    sensor_descriptor_datagram, HANDSHAKE_KIND, PACKET_ID, PLACEHOLDER_MAC, SENSOR_ACTIVE,
    SENSOR_INFO_KIND,
};

verus! {

/// The device table after a run of events, oldest first.
pub open spec fn table_after_all(devices: Seq<Device>, events: Seq<ChannelInfo>) -> Seq<Device>
    decreases events.len(),
{
    if events.len() == 0 {
        devices
    } else {
        table_after(table_after_all(devices, events.drop_last()), events.last())
    }
}

/// The connections among a run of events, oldest first.
pub open spec fn connections_in(events: Seq<ChannelInfo>) -> Seq<JoyconDeviceInfo>
    decreases events.len(),
{
    if events.len() == 0 {
        Seq::empty()
    } else {
        match events.last() {
            ChannelInfo::Connected(info) => connections_in(events.drop_last()).push(info),
            ChannelInfo::Data(_) => connections_in(events.drop_last()),
        }
    }
}

/// No two connections are of the same controller.
pub open spec fn distinct_identities(infos: Seq<JoyconDeviceInfo>) -> bool {
    forall|i: int, j: int|
        0 <= i < j < infos.len() ==> (#[trigger] infos[i]).serial_number@ != (
        #[trigger] infos[j]).serial_number@
}

/// The table in which the i-th connection has the i-th place and the slot i,
/// cut to a byte.
pub open spec fn slots_in_order(infos: Seq<JoyconDeviceInfo>) -> Seq<Device> {
    Seq::new(
        infos.len(),
        |i: int|
            Device {
                serial_number: infos[i].serial_number,
                design: infos[i].design,
                id: (i % 256) as u8,
            },
    )
}

/// No connection of the run is of this controller.
pub open spec fn never_connected(events: Seq<ChannelInfo>, serial: Seq<char>) -> bool {
    forall|i: int|
        0 <= i < events.len() && (#[trigger] events[i]) is Connected ==> events[i].identity()
            != serial
}

/// The number of estimator updates among the effects.
pub open spec fn updates_in(effects: Seq<Effect>) -> nat
    decreases effects.len(),
{
    if effects.len() == 0 {
        0
    } else {
        updates_in(effects.drop_last()) + if effects.last() is Update {
            1nat
        } else {
            0nat
        }
    }
}

/// The number of rotation updates among the effects.
pub open spec fn rotations_in(effects: Seq<Effect>) -> nat
    decreases effects.len(),
{
    if effects.len() == 0 {
        0
    } else {
        rotations_in(effects.drop_last()) + if effects.last() is SendRotation {
            1nat
        } else {
            0nat
        }
    }
}

/// The number of ready-made datagrams among the effects.
pub open spec fn datagrams_in(effects: Seq<Effect>) -> nat
    decreases effects.len(),
{
    if effects.len() == 0 {
        0
    } else {
        datagrams_in(effects.drop_last()) + if effects.last() is Send {
            1nat
        } else {
            0nat
        }
    }
}

/// The number of handshakes among the effects.
pub open spec fn handshakes_in(effects: Seq<Effect>) -> nat
    decreases effects.len(),
{
    if effects.len() == 0 {
        0
    } else {
        handshakes_in(effects.drop_last()) + if effects.last() == (Effect::Send {
            datagram: handshake_datagram(),
        }) {
            1nat
        } else {
            0nat
        }
    }
}

/// One step of the aggregator loop.
pub enum Step {
    /// A liveness poll.
    Poll { now: u64, inbound: bool },
    /// The start of a pass.
    Begin,
    /// One drained event.
    Handle { msg: ChannelInfo },
    /// The end of one drain of the event channel.
    Drain,
}

/// The state after one step.
pub open spec fn stepped(state: AggregatorState, step: Step) -> AggregatorState {
    match step {
        Step::Poll { now, inbound } => state.polled(now, inbound),
        Step::Begin => state.begun(),
        Step::Handle { msg } => state.handled(msg),
        Step::Drain => state.drained(),
    }
}

/// What one step asks for.
pub open spec fn asked_by(state: AggregatorState, step: Step) -> Seq<Effect> {
    match step {
        Step::Poll { now, inbound } => state.poll_effects(now, inbound),
        Step::Handle { msg } => effects_of(state.devices, msg),
        _ => Seq::empty(),
    }
}

/// The state after a run of steps, oldest first.
pub open spec fn state_after(state: AggregatorState, steps: Seq<Step>) -> AggregatorState
    decreases steps.len(),
{
    if steps.len() == 0 {
        state
    } else {
        stepped(state_after(state, steps.drop_last()), steps.last())
    }
}

/// Everything that a run of steps asks for, in order.
pub open spec fn asked_during(state: AggregatorState, steps: Seq<Step>) -> Seq<Effect>
    decreases steps.len(),
{
    if steps.len() == 0 {
        Seq::empty()
    } else {
        asked_during(state, steps.drop_last()) + asked_by(
            state_after(state, steps.drop_last()),
            steps.last(),
        )
    }
}

/// The liveness polls among a run of steps, oldest first.
pub open spec fn polls_among(steps: Seq<Step>) -> Seq<Poll>
    decreases steps.len(),
{
    if steps.len() == 0 {
        Seq::empty()
    } else {
        match steps.last() {
            Step::Poll { now, inbound } => polls_among(steps.drop_last()).push(
                Poll { now, inbound },
            ),
            _ => polls_among(steps.drop_last()),
        }
    }
}

/// The number of connections among a run of steps.
pub open spec fn connections_among(steps: Seq<Step>) -> nat
    decreases steps.len(),
{
    if steps.len() == 0 {
        0
    } else {
        connections_among(steps.drop_last()) + match steps.last() {
            Step::Handle { msg: ChannelInfo::Connected(_) } => 1nat,
            _ => 0nat,
        }
    }
}

/// The number of snapshots that a run of steps publishes: the drains that
/// end with the step `Publish`.
pub open spec fn snapshots_in(state: AggregatorState, steps: Seq<Step>) -> nat
    decreases steps.len(),
{
    if steps.len() == 0 {
        0
    } else {
        snapshots_in(state, steps.drop_last()) + if steps.last() is Drain && state_after(
            state,
            steps.drop_last(),
        ).drain_step() == DrainStep::Publish {
            1nat
        } else {
            0nat
        }
    }
}

/// No step of the run handles an event.
pub open spec fn without_events(steps: Seq<Step>) -> bool {
    forall|i: int| 0 <= i < steps.len() ==> !((#[trigger] steps[i]) is Handle)
}

/// The state after `drains` drains in a row that found nothing.
pub open spec fn drained_times(state: AggregatorState, drains: nat) -> AggregatorState
    decreases drains,
{
    if drains == 0 {
        state
    } else {
        drained_times(state, (drains - 1) as nat).drained()
    }
}

/// Whatever events come, no two records of the table have the same serial
/// number.
pub proof fn tables_stay_distinct(devices: Seq<Device>, events: Seq<ChannelInfo>)
    requires
        distinct(devices),
    ensures
        distinct(table_after_all(devices, events)),
    decreases events.len(),
{
    if events.len() > 0 {
        tables_stay_distinct(devices, events.drop_last());
        match events.last() {
            ChannelInfo::Connected(info) => {
                connected_keeps_distinct(table_after_all(devices, events.drop_last()), info);
            },
            ChannelInfo::Data(_) => {},
        }
    }
}

/// Slots are dense and follow the order of connection: after a run of
/// events in which no controller connects twice, the i-th controller to
/// connect has the i-th record, with the slot i cut to a byte. Up to 256
/// controllers the slots are exactly 0, 1, 2 and so on, and no two records
/// share one.
pub proof fn distinct_connections_fill_slots_in_order(events: Seq<ChannelInfo>)
    requires
        distinct_identities(connections_in(events)),
    ensures
        table_after_all(Seq::empty(), events) == slots_in_order(connections_in(events)),
        connections_in(events).len() <= 256 ==> forall|i: int|
            0 <= i < connections_in(events).len() ==> (#[trigger] table_after_all(
                Seq::empty(),
                events,
            )[i]).id == i,
    decreases events.len(),
{
    let table = table_after_all(Seq::empty(), events);
    let infos = connections_in(events);
    if events.len() == 0 {
        assert(table =~= slots_in_order(infos));
    } else {
        let earlier = events.drop_last();
        let before = table_after_all(Seq::empty(), earlier);
        let infos_before = connections_in(earlier);
        match events.last() {
            ChannelInfo::Connected(info) => {
                assert(infos == infos_before.push(info));
                assert forall|i: int, j: int| 0 <= i < j < infos_before.len() implies (
                #[trigger] infos_before[i]).serial_number@ != (
                #[trigger] infos_before[j]).serial_number@ by {
                    assert(infos[i] == infos_before[i]);
                    assert(infos[j] == infos_before[j]);
                }
                distinct_connections_fill_slots_in_order(earlier);
                assert(!known(before, info.serial_number@)) by {
                    if known(before, info.serial_number@) {
                        let place = place_of(before, info.serial_number@);
                        assert(before[place].serial_number@ == info.serial_number@);
                        assert(infos[place] == infos_before[place]);
                        assert(infos[infos_before.len() as int] == info);
                    }
                }
                assert(table == before.push(fresh_record(before, info)));
                assert(table =~= slots_in_order(infos));
            },
            ChannelInfo::Data(_) => {
                distinct_connections_fill_slots_in_order(earlier);
            },
        }
    }
    assert(table == slots_in_order(infos));
    if infos.len() <= 256 {
        assert forall|i: int| 0 <= i < infos.len() implies (#[trigger] table[i]).id == i by {
            assert(table[i].id == (i % 256) as u8);
        }
    }
}

/// An event leaves every record alone but the one that it replaces: a
/// record keeps its place, its design and its slot until its own controller
/// connects again.
pub proof fn other_records_stay(devices: Seq<Device>, msg: ChannelInfo, place: int)
    requires
        distinct(devices),
        0 <= place < devices.len(),
        !(msg is Connected && msg.identity() == devices[place].serial_number@),
    ensures
        place < table_after(devices, msg).len(),
        table_after(devices, msg)[place] == devices[place],
{
    match msg {
        ChannelInfo::Connected(info) => {
            if known(devices, info.serial_number@) {
                let replaced = place_of(devices, info.serial_number@);
                assert(devices[replaced].serial_number@ == info.serial_number@);
            }
        },
        ChannelInfo::Data(_) => {},
    }
}

/// The last connection wins: when a known controller connects again, its
/// record is replaced where it stands, the table grows by nothing, and the
/// new slot is the size of the table, cut to a byte.
pub proof fn reconnection_takes_the_next_slot(devices: Seq<Device>, info: JoyconDeviceInfo)
    requires
        distinct(devices),
        known(devices, info.serial_number@),
    ensures
        connected(devices, info).len() == devices.len(),
        connected(devices, info)[place_of(devices, info.serial_number@)] == fresh_record(
            devices,
            info,
        ),
        fresh_record(devices, info).id == devices.len() % 256,
        place_of(connected(devices, info), info.serial_number@) == place_of(
            devices,
            info.serial_number@,
        ),
{
    let place = place_of(devices, info.serial_number@);
    connected_keeps_distinct(devices, info);
    place_is_unique(connected(devices, info), info.serial_number@, place);
}

/// A controller that has not connected is not in the table.
pub proof fn unconnected_identity_is_unknown(events: Seq<ChannelInfo>, serial: Seq<char>)
    requires
        never_connected(events, serial),
    ensures
        !known(table_after_all(Seq::empty(), events), serial),
    decreases events.len(),
{
    let table = table_after_all(Seq::empty(), events);
    if events.len() > 0 {
        let earlier = events.drop_last();
        let before = table_after_all(Seq::empty(), earlier);
        assert forall|i: int|
            0 <= i < earlier.len() && (#[trigger] earlier[i]) is Connected implies earlier[i]
                .identity() != serial by {
            assert(earlier[i] == events[i]);
        }
        unconnected_identity_is_unknown(earlier, serial);
        if known(table, serial) {
            let place = place_of(table, serial);
            match events.last() {
                ChannelInfo::Connected(info) => {
                    assert(events[events.len() - 1].identity() != serial);
                    if place < before.len() && !(known(before, info.serial_number@) && place
                        == place_of(before, info.serial_number@)) {
                        assert(before[place].serial_number@ == serial);
                    }
                },
                ChannelInfo::Data(_) => {},
            }
        }
    }
}

/// Frames of a controller that has never connected change nothing and send
/// nothing: the table stays as it is, and no command comes out.
pub proof fn sample_before_connection_is_ignored(events: Seq<ChannelInfo>, data: JoyconData)
    requires
        never_connected(events, data.serial_number@),
    ensures
        table_after(table_after_all(Seq::empty(), events), ChannelInfo::Data(data))
            == table_after_all(Seq::empty(), events),
        effects_of(table_after_all(Seq::empty(), events), ChannelInfo::Data(data))
            == Seq::<Effect>::empty(),
{
    unconnected_identity_is_unknown(events, data.serial_number@);
}

/// No report changes the table, whoever sent it.
pub proof fn reports_leave_the_table(devices: Seq<Device>, data: JoyconData)
    ensures
        table_after(devices, ChannelInfo::Data(data)) == devices,
{
}

/// Feeding k frames is k updates and nothing else.
pub proof fn feed_counts(place: int, frames: Seq<JoyconAxisData>)
    ensures
        updates_in(feed(place, frames)) == frames.len(),
        rotations_in(feed(place, frames)) == 0,
        datagrams_in(feed(place, frames)) == 0,
    decreases frames.len(),
{
    if frames.len() > 0 {
        feed_counts(place, frames.drop_last());
        assert(feed(place, frames).drop_last() =~= feed(place, frames.drop_last()));
    }
}

/// A report of k frames from a known controller updates that controller's
/// estimator k times, frame by frame in order, and then sends exactly one
/// rotation update, under the controller's slot. It sends nothing else.
pub proof fn report_updates_per_frame_and_sends_once(devices: Seq<Device>, data: JoyconData)
    requires
        known(devices, data.serial_number@),
    ensures
        ({
            let asked = effects_of(devices, ChannelInfo::Data(data));
            let place = place_of(devices, data.serial_number@);
            let frames = data.imu_data@;
            &&& asked.len() == frames.len() + 1
            &&& forall|i: int|
                0 <= i < frames.len() ==> #[trigger] asked[i] == (Effect::Update {
                    place,
                    frame: frames[i],
                })
            &&& asked.last() == (Effect::SendRotation { place, sensor_id: devices[place].id })
            &&& updates_in(asked) == frames.len()
            &&& rotations_in(asked) == 1
            &&& datagrams_in(asked) == 0
        }),
{
    let asked = effects_of(devices, ChannelInfo::Data(data));
    let place = place_of(devices, data.serial_number@);
    feed_counts(place, data.imu_data@);
    assert(asked.drop_last() =~= feed(place, data.imu_data@));
}

/// A connection asks for one fresh estimator and one sensor descriptor, for
/// the slot that the new record has, and for nothing else.
pub proof fn connection_announces_its_slot(devices: Seq<Device>, info: JoyconDeviceInfo)
    requires
        distinct(devices),
    ensures
        ({
            let asked = effects_of(devices, ChannelInfo::Connected(info));
            let place = landing_place(devices, info.serial_number@);
            &&& asked.len() == 2
            &&& asked[0] == (Effect::Attach { place })
            &&& 0 <= place < connected(devices, info).len()
            &&& asked[1] == (Effect::Send {
                datagram: sensor_descriptor_datagram(connected(devices, info)[place].id),
            })
            &&& connected(devices, info)[place].serial_number == info.serial_number
            &&& connected(devices, info)[place].id == next_slot(devices)
        }),
{
}

/// Each retry of the handshake carries the handshake itself and one sensor
/// descriptor for every record of the table, and nothing else.
pub proof fn retry_announces_every_record(state: AggregatorState, now: u64)
    requires
        state.liveness.due(now),
    ensures
        ({
            let asked = state.poll_effects(now, false);
            &&& asked == announcements(state.devices)
            &&& asked.len() == state.devices.len() + 1
            &&& asked[0] == (Effect::Send { datagram: handshake_datagram() })
            &&& forall|i: int|
                0 <= i < state.devices.len() ==> #[trigger] asked[i + 1] == (Effect::Send {
                    datagram: sensor_descriptor_datagram(state.devices[i].id),
                })
            &&& datagrams_in(asked) == state.devices.len() + 1
            &&& updates_in(asked) == 0
            &&& rotations_in(asked) == 0
        }),
{
    announcement_counts(state.devices);
}

/// The announcements of a table of n records are n + 1 datagrams.
pub proof fn announcement_counts(devices: Seq<Device>)
    ensures
        datagrams_in(announcements(devices)) == devices.len() + 1,
        updates_in(announcements(devices)) == 0,
        rotations_in(announcements(devices)) == 0,
    decreases devices.len(),
{
    let asked = announcements(devices);
    assert(asked.len() == devices.len() + 1);
    if devices.len() == 0 {
        assert(asked.drop_last() =~= Seq::<Effect>::empty());
        assert(asked.last() == asked[0]);
        assert(asked.last() is Send);
        assert(datagrams_in(asked.drop_last()) == 0);
        assert(updates_in(asked.drop_last()) == 0);
        assert(rotations_in(asked.drop_last()) == 0);
    } else {
        announcement_counts(devices.drop_last());
        assert(asked.drop_last() =~= announcements(devices.drop_last()));
        assert(asked.last() == asked[devices.len() as int]);
        assert(asked.last() is Send);
    }
}

/// Once the server has answered, no liveness poll asks for anything.
pub proof fn answered_server_gets_no_announcement(state: AggregatorState, now: u64, inbound: bool)
    requires
        state.liveness == Liveness::ResponseSeen,
    ensures
        state.poll_effects(now, inbound) == Seq::<Effect>::empty(),
        state.polled(now, inbound) == state,
{
}

/// A snapshot has one entry for each record, in table order, each marked as
/// connected and with the design of its record.
pub proof fn snapshot_lists_every_record(devices: Seq<Device>, rotations: Seq<(u64, u64, u64)>)
    requires
        rotations.len() == devices.len(),
    ensures
        snapshot_of(devices, rotations).len() == devices.len(),
        forall|i: int|
            0 <= i < devices.len() ==> {
                let entry = #[trigger] snapshot_of(devices, rotations)[i];
                &&& entry.connected
                &&& entry.rotation == rotations[i]
                &&& entry.design == devices[i].design
            },
{
}

/// A pass in which no event is handled never publishes a snapshot: however
/// many drains find nothing, the step is to retry or to give up, and from
/// the last allowed drain on it is to give up.
pub proof fn idle_pass_never_publishes(state: AggregatorState, drains: nat)
    ensures
        !drained_times(state.begun(), drains).active,
        drained_times(state.begun(), drains).drain_step() != DrainStep::Publish,
        drained_times(state.begun(), drains).attempts == if drains <= DRAIN_ATTEMPTS {
            drains
        } else {
            DRAIN_ATTEMPTS as nat
        },
        drains + 1 >= DRAIN_ATTEMPTS ==> drained_times(state.begun(), drains).drain_step()
            == DrainStep::GiveUp,
        drains + 1 < DRAIN_ATTEMPTS ==> drained_times(state.begun(), drains).drain_step()
            == DrainStep::Retry,
    decreases drains,
{
    if drains > 0 {
        idle_pass_never_publishes(state, (drains - 1) as nat);
    }
}

/// Without an event there is no snapshot: a run of steps that handles no
/// event, started where no event is pending publication, publishes nothing,
/// however its polls, passes and drains are arranged.
pub proof fn no_event_no_snapshot(state: AggregatorState, steps: Seq<Step>)
    requires
        !state.active,
        without_events(steps),
    ensures
        !state_after(state, steps).active,
        snapshots_in(state, steps) == 0,
        state_after(state, steps).devices == state.devices,
    decreases steps.len(),
{
    if steps.len() > 0 {
        let earlier = steps.drop_last();
        assert forall|i: int| 0 <= i < earlier.len() implies !((
        #[trigger] earlier[i]) is Handle) by {
            assert(earlier[i] == steps[i]);
        }
        no_event_no_snapshot(state, earlier);
        assert(!(steps[steps.len() - 1] is Handle));
    }
}

/// A pass in which an event was handled publishes at the next drain's end,
/// whether or not the event changed anything.
pub proof fn active_pass_publishes(state: AggregatorState, msg: ChannelInfo)
    ensures
        state.handled(msg).drain_step() == DrainStep::Publish,
        state.handled(msg).drained() == state.handled(msg),
{
}

/// Counting over two lists of effects, one after the other, is adding the
/// counts.
pub proof fn counts_add(first: Seq<Effect>, second: Seq<Effect>)
    ensures
        updates_in(first + second) == updates_in(first) + updates_in(second),
        rotations_in(first + second) == rotations_in(first) + rotations_in(second),
        datagrams_in(first + second) == datagrams_in(first) + datagrams_in(second),
        handshakes_in(first + second) == handshakes_in(first) + handshakes_in(second),
    decreases second.len(),
{
    if second.len() == 0 {
        assert(first + second =~= first);
    } else {
        counts_add(first, second.drop_last());
        assert((first + second).drop_last() =~= first + second.drop_last());
        assert((first + second).last() == second.last());
    }
}

/// No sensor descriptor can be taken for a handshake.
pub proof fn descriptor_is_no_handshake(sensor_slot: u8)
    ensures
        sensor_descriptor_datagram(sensor_slot) != handshake_datagram(),
{
    let handshake = handshake_datagram();
    let descriptor = sensor_descriptor_datagram(sensor_slot);
    datagram_shows_its_kind(
        HANDSHAKE_KIND,
        PACKET_ID,
        handshake_body(0, 0, 0, (0, 0, 0), 0, firmware_name(), PLACEHOLDER_MAC@),
    );
    datagram_shows_its_kind(SENSOR_INFO_KIND, PACKET_ID, seq![sensor_slot, SENSOR_ACTIVE]);
    assert(handshake.subrange(0, 4)[3] == 3);
    assert(descriptor.subrange(0, 4)[3] == 15);
}

/// An event sends no handshake. A connection sends one ready-made datagram,
/// a report none.
pub proof fn event_counts(devices: Seq<Device>, msg: ChannelInfo)
    ensures
        handshakes_in(effects_of(devices, msg)) == 0,
        datagrams_in(effects_of(devices, msg)) == if msg is Connected {
            1nat
        } else {
            0nat
        },
{
    let asked = effects_of(devices, msg);
    match msg {
        ChannelInfo::Connected(info) => {
            descriptor_is_no_handshake(next_slot(devices));
            let first = asked.drop_last();
            assert(first.drop_last() =~= Seq::<Effect>::empty());
            assert(datagrams_in(first.drop_last()) == 0);
            assert(handshakes_in(first.drop_last()) == 0);
            assert(first.last() == asked[0]);
            assert(asked.last() == asked[1]);
            assert(datagrams_in(first) == 0);
            assert(handshakes_in(first) == 0);
        },
        ChannelInfo::Data(data) => {
            if known(devices, data.serial_number@) {
                let place = place_of(devices, data.serial_number@);
                report_updates_per_frame_and_sends_once(devices, data);
                feed_sends_no_handshake(place, data.imu_data@);
                assert(asked.drop_last() =~= feed(place, data.imu_data@));
            }
        },
    }
}

/// Feeding frames sends no handshake.
pub proof fn feed_sends_no_handshake(place: int, frames: Seq<JoyconAxisData>)
    ensures
        handshakes_in(feed(place, frames)) == 0,
    decreases frames.len(),
{
    if frames.len() > 0 {
        feed_sends_no_handshake(place, frames.drop_last());
        assert(feed(place, frames).drop_last() =~= feed(place, frames.drop_last()));
    }
}

/// The announcements hold exactly one handshake.
pub proof fn announcements_hold_one_handshake(devices: Seq<Device>)
    ensures
        handshakes_in(announcements(devices)) == 1,
    decreases devices.len(),
{
    let asked = announcements(devices);
    assert(asked.len() == devices.len() + 1);
    if devices.len() == 0 {
        assert(asked.drop_last() =~= Seq::<Effect>::empty());
        assert(asked.last() == asked[0]);
        assert(handshakes_in(asked.drop_last()) == 0);
    } else {
        announcements_hold_one_handshake(devices.drop_last());
        assert(asked.drop_last() =~= announcements(devices.drop_last()));
        assert(asked.last() == asked[devices.len() as int]);
        descriptor_is_no_handshake(devices[devices.len() - 1].id);
    }
}

/// Only liveness polls move the handshake state, and every handshake that a
/// run of steps sends is one announcement of the handshake state machine:
/// the handshake state after the run is the state after the run's polls, and
/// the run sends as many handshakes as the polls have resend times.
pub proof fn handshakes_follow_the_polls(state: AggregatorState, steps: Seq<Step>)
    ensures
        state_after(state, steps).liveness == state.liveness.after_all(polls_among(steps)),
        handshakes_in(asked_during(state, steps)) == state.liveness.resend_times(
            polls_among(steps),
        ).len(),
    decreases steps.len(),
{
    if steps.len() > 0 {
        let earlier = steps.drop_last();
        let before = state_after(state, earlier);
        handshakes_follow_the_polls(state, earlier);
        counts_add(asked_during(state, earlier), asked_by(before, steps.last()));
        match steps.last() {
            Step::Poll { now, inbound } => {
                let poll = Poll { now, inbound };
                let one = seq![poll];
                assert(polls_among(steps) =~= polls_among(earlier) + one);
                runs_compose(state.liveness, polls_among(earlier), one);
                assert(one.drop_first() =~= Seq::<Poll>::empty());
                let next = before.liveness.after(now, inbound);
                assert(next.after_all(one.drop_first()) == next);
                assert(next.resend_times(one.drop_first()) =~= Seq::<u64>::empty());
                assert(before.liveness.after_all(one) == next);
                if before.liveness.resends(now, inbound) {
                    assert(before.liveness.resend_times(one) =~= seq![now]);
                    announcements_hold_one_handshake(before.devices);
                } else {
                    assert(before.liveness.resend_times(one) =~= Seq::<u64>::empty());
                }
            },
            Step::Handle { msg } => {
                event_counts(before.devices, msg);
            },
            Step::Begin => {},
            Step::Drain => {},
        }
    }
}

/// In every run of the aggregator, a handshake goes out no sooner than
/// three seconds after the one before it.
pub proof fn handshakes_are_spaced(state: AggregatorState, steps: Seq<Step>)
    ensures
        spaced(state.liveness.resend_times(polls_among(steps))),
        handshakes_in(asked_during(state, steps)) == state.liveness.resend_times(
            polls_among(steps),
        ).len(),
{
    handshakes_follow_the_polls(state, steps);
    retries_are_spaced(state.liveness, polls_among(steps));
}

/// Once the server has answered, the aggregator never announces anything
/// again, whatever the later polls find: it stays in `ResponseSeen`, sends
/// no handshake, and the only ready-made datagrams that it sends are the
/// sensor descriptors of new connections, one for each.
pub proof fn answered_server_hears_only_connections(state: AggregatorState, steps: Seq<Step>)
    requires
        state.liveness == Liveness::ResponseSeen,
    ensures
        state_after(state, steps).liveness == Liveness::ResponseSeen,
        handshakes_in(asked_during(state, steps)) == 0,
        datagrams_in(asked_during(state, steps)) == connections_among(steps),
    decreases steps.len(),
{
    if steps.len() > 0 {
        let earlier = steps.drop_last();
        let before = state_after(state, earlier);
        answered_server_hears_only_connections(state, earlier);
        counts_add(asked_during(state, earlier), asked_by(before, steps.last()));
        match steps.last() {
            Step::Handle { msg } => {
                event_counts(before.devices, msg);
            },
            _ => {},
        }
    }
}

} // verus!
