//! The device table: one record per controller that has connected, in the
//! order in which the controllers first connected.

use vstd::prelude::*;
use crate::events::{JoyconDesign, JoyconDeviceInfo};
use crate::wire::{encode_sensor_descriptor, sensor_descriptor_datagram};

verus! {

/// The record of one controller.
#[derive(Debug, PartialEq, Eq)]
pub struct Device {
    /// Serial number: the key under which events find the record.
    pub serial_number: String,
    pub design: JoyconDesign,
    /// Sensor slot: the number that stands for the controller on the wire.
    pub id: u8,
}

impl Device {
    /// The datagram that announces this controller's sensor to the server.
    pub fn handshake(&self) -> (datagram: Vec<u8>)
        ensures
            datagram@ == sensor_descriptor_datagram(self.id),
    {
        encode_sensor_descriptor(self.id)
    }
}

/// No two records have the same serial number.
pub open spec fn distinct(devices: Seq<Device>) -> bool {
    forall|i: int, j: int|
        0 <= i < j < devices.len() ==> (#[trigger] devices[i]).serial_number@ != (
        #[trigger] devices[j]).serial_number@
}

/// Whether a record with this serial number is in the table.
pub open spec fn known(devices: Seq<Device>, serial: Seq<char>) -> bool {
    exists|i: int| 0 <= i < devices.len() && (#[trigger] devices[i]).serial_number@ == serial
}

/// The place of the record with this serial number, where `known` holds.
pub open spec fn place_of(devices: Seq<Device>, serial: Seq<char>) -> int {
    choose|i: int| 0 <= i < devices.len() && (#[trigger] devices[i]).serial_number@ == serial
}

/// The slot that the next connection gets: the size of the table, cut to the
/// byte that the wire has for it.
pub open spec fn next_slot(devices: Seq<Device>) -> u8 {
    (devices.len() % 256) as u8
}

/// The record that a connection creates.
pub open spec fn fresh_record(devices: Seq<Device>, info: JoyconDeviceInfo) -> Device {
    Device { serial_number: info.serial_number, design: info.design, id: next_slot(devices) }
}

/// The table after a controller has connected. A new serial number adds a
/// record at the end. A known one has its record replaced where it stands:
/// the last connection wins.
pub open spec fn connected(devices: Seq<Device>, info: JoyconDeviceInfo) -> Seq<Device> {
    if known(devices, info.serial_number@) {
        devices.update(place_of(devices, info.serial_number@), fresh_record(devices, info))
    } else {
        devices.push(fresh_record(devices, info))
    }
}

/// In a table without duplicates, a place that holds the serial number is
/// the place of that serial number.
pub proof fn place_is_unique(devices: Seq<Device>, serial: Seq<char>, place: int)
    requires
        distinct(devices),
        0 <= place < devices.len(),
        devices[place].serial_number@ == serial,
    ensures
        known(devices, serial),
        place_of(devices, serial) == place,
{
    let found = place_of(devices, serial);
    if found < place {
        assert(devices[found].serial_number@ != devices[place].serial_number@);
    } else if place < found {
        assert(devices[place].serial_number@ != devices[found].serial_number@);
    }
}

/// A connection leaves the table without duplicates.
pub proof fn connected_keeps_distinct(devices: Seq<Device>, info: JoyconDeviceInfo)
    requires
        distinct(devices),
    ensures
        distinct(connected(devices, info)),
{
    let after = connected(devices, info);
    let serial = info.serial_number@;
    if known(devices, serial) {
        let place = place_of(devices, serial);
        assert forall|i: int, j: int| 0 <= i < j < after.len() implies (
        #[trigger] after[i]).serial_number@ != (#[trigger] after[j]).serial_number@ by {
            assert(after[i].serial_number@ == devices[i].serial_number@);
            assert(after[j].serial_number@ == devices[j].serial_number@);
        }
    } else {
        assert forall|i: int, j: int| 0 <= i < j < after.len() implies (
        #[trigger] after[i]).serial_number@ != (#[trigger] after[j]).serial_number@ by {
            if j < devices.len() {
                assert(after[i] == devices[i]);
                assert(after[j] == devices[j]);
            } else {
                assert(after[i] == devices[i]);
            }
        }
    }
}

/// The records of the controllers that have connected.
pub struct DeviceTable {
    devices: Vec<Device>,
}

impl View for DeviceTable {
    type V = Seq<Device>;

    closed spec fn view(&self) -> Seq<Device> {
        self.devices@
    }
}

impl DeviceTable {
    #[verifier::type_invariant]
    spec fn no_duplicates(self) -> bool {
        distinct(self.devices@)
    }

    /// A table without records.
    pub fn new() -> (table: Self)
        ensures
            table@ == Seq::<Device>::empty(),
    {
        DeviceTable { devices: Vec::new() }
    }

    /// The number of records.
    pub fn len(&self) -> (n: usize)
        ensures
            n == self@.len(),
    {
        self.devices.len()
    }

    /// The record at `place`.
    pub fn get(&self, place: usize) -> (device: Option<&Device>)
        ensures
            match device {
                Some(d) => place < self@.len() && *d == self@[place as int],
                None => place >= self@.len(),
            },
    {
        if place < self.devices.len() {
            Some(&self.devices[place])
        } else {
            None
        }
    }

    /// The record at `place`, which must be in the table.
    pub fn record(&self, place: usize) -> (device: &Device)
        requires
            place < self@.len(),
        ensures
            *device == self@[place as int],
    {
        &self.devices[place]
    }

    /// The place of the record with this serial number, if there is one.
    pub fn find(&self, serial_number: &String) -> (place: Option<usize>)
        ensures
            match place {
                Some(p) => known(self@, serial_number@) && p == place_of(self@, serial_number@),
                None => !known(self@, serial_number@),
            },
            distinct(self@),
    {
        proof {
            use_type_invariant(self);
        }
        let mut at: usize = 0;
        while at < self.devices.len()
            invariant
                at <= self.devices.len(),
                distinct(self.devices@),
                forall|i: int|
                    0 <= i < at ==> (#[trigger] self.devices@[i]).serial_number@
                        != serial_number@,
            decreases self.devices.len() - at,
        {
            if self.devices[at].serial_number == *serial_number {
                proof {
                    place_is_unique(self.devices@, serial_number@, at as int);
                }
                return Some(at);
            }
            at += 1;
        }
        None
    }

    /// Records a connection and returns the place of its record. The record
    /// gets the slot `next_slot` of the table as it was.
    pub fn connect(&mut self, info: JoyconDeviceInfo) -> (place: usize)
        ensures
            final(self)@ == connected(old(self)@, info),
            place < final(self)@.len(),
            final(self)@[place as int] == fresh_record(old(self)@, info),
            known(old(self)@, info.serial_number@) ==> place == place_of(
                old(self)@,
                info.serial_number@,
            ),
            !known(old(self)@, info.serial_number@) ==> place == old(self)@.len(),
            distinct(old(self)@),
            distinct(final(self)@),
    {
        proof {
            use_type_invariant(&*self);
            connected_keeps_distinct(self.devices@, info);
        }
        let found = self.find(&info.serial_number);
        let id: u8 = (self.devices.len() % 256) as u8;
        let device = Device { serial_number: info.serial_number, design: info.design, id };
        let mut devices: Vec<Device> = Vec::new();
        core::mem::swap(&mut self.devices, &mut devices);
        let place = match found {
            Some(place) => {
                devices[place] = device;
                place
            },
            None => {
                devices.push(device);
                devices.len() - 1
            },
        };
        self.devices = devices;
        place
    }
}

} // verus!
