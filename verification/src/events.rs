//! What the acquisition workers send to the aggregator, and what the
//! aggregator publishes.
//!
//! A measurement is a 64-bit float in the workers and in the estimators. Here
//! it is carried as its IEEE-754 bit pattern: the aggregator hands frames on
//! unread.

use vstd::prelude::*;

verus! {

/// Which side a controller is held on.
#[derive(Clone, Copy, Debug, PartialEq, Eq, Structural)]
pub enum JoyconDesignType {
    Left,
    Right,
}

/// How a controller looks: its colour, written `#rrggbb`, and its side. Set
/// when the controller connects and never changed.
#[derive(Debug, PartialEq, Eq)]
pub struct JoyconDesign {
    pub color: String,
    pub design_type: JoyconDesignType,
}

impl Clone for JoyconDesign {
    fn clone(&self) -> (copy: Self)
        ensures
            copy == *self,
    {
        JoyconDesign { color: self.color.clone(), design_type: self.design_type }
    }
}

/// A controller that has connected: its serial number and its design.
#[derive(Debug, PartialEq, Eq)]
pub struct JoyconDeviceInfo {
    pub serial_number: String,
    pub design: JoyconDesign,
}

impl Clone for JoyconDeviceInfo {
    fn clone(&self) -> (copy: Self)
        ensures
            copy == *self,
    {
        JoyconDeviceInfo { serial_number: self.serial_number.clone(), design: self.design.clone() }
    }
}

/// One inertial frame, unit-converted and mirrored by the worker: three
/// accelerations and three angular rates, each the bit pattern of a 64-bit
/// float.
#[derive(Clone, Copy, Debug, PartialEq, Eq, Structural)]
pub struct JoyconAxisData {
    pub accel_x: u64,
    pub accel_y: u64,
    pub accel_z: u64,
    pub gyro_x: u64,
    pub gyro_y: u64,
    pub gyro_z: u64,
}

/// The frames of one report of a controller, oldest first.
#[derive(Debug, PartialEq, Eq)]
pub struct JoyconData {
    pub serial_number: String,
    pub imu_data: Vec<JoyconAxisData>,
}

impl Clone for JoyconData {
    fn clone(&self) -> (copy: Self)
        ensures
            copy.serial_number == self.serial_number,
            copy.imu_data@ == self.imu_data@,
    {
        let mut imu_data: Vec<JoyconAxisData> = Vec::new();
        let mut at: usize = 0;
        while at < self.imu_data.len()
            invariant
                at <= self.imu_data.len(),
                imu_data@ == self.imu_data@.subrange(0, at as int),
            decreases self.imu_data.len() - at,
        {
            imu_data.push(self.imu_data[at]);
            at += 1;
            assert(imu_data@ =~= self.imu_data@.subrange(0, at as int));
        }
        assert(self.imu_data@.subrange(0, at as int) =~= self.imu_data@);
        JoyconData { serial_number: self.serial_number.clone(), imu_data }
    }
}

/// An event on the channel from the workers to the aggregator.
#[derive(Debug, PartialEq, Eq)]
pub enum ChannelInfo {
    /// A controller has connected.
    Connected(JoyconDeviceInfo),
    /// A controller has delivered frames.
    Data(JoyconData),
}

impl Clone for ChannelInfo {
    fn clone(&self) -> (copy: Self)
        ensures
            copy.identity() == self.identity(),
            match (self, copy) {
                (ChannelInfo::Connected(info), ChannelInfo::Connected(other)) => other == *info,
                (ChannelInfo::Data(data), ChannelInfo::Data(other)) => other.serial_number
                    == data.serial_number && other.imu_data@ == data.imu_data@,
                _ => false,
            },
    {
        match self {
            ChannelInfo::Connected(info) => ChannelInfo::Connected(info.clone()),
            ChannelInfo::Data(data) => ChannelInfo::Data(data.clone()),
        }
    }
}

impl ChannelInfo {
    /// The serial number of the controller that the event is about.
    pub open spec fn identity(self) -> Seq<char> {
        match self {
            ChannelInfo::Connected(info) => info.serial_number@,
            ChannelInfo::Data(data) => data.serial_number@,
        }
    }
}

/// One entry of a status snapshot: the orientation of a controller in
/// degrees, each angle the bit pattern of a 64-bit float, and its design.
/// `connected` is always true: nothing tells the aggregator that a
/// controller has gone.
#[derive(Debug, PartialEq, Eq)]
pub struct JoyconStatus {
    pub connected: bool,
    pub rotation: (u64, u64, u64),
    pub design: JoyconDesign,
}

impl Clone for JoyconStatus {
    fn clone(&self) -> (copy: Self)
        ensures
            copy == *self,
    {
        JoyconStatus {
            connected: self.connected,
            rotation: (self.rotation.0, self.rotation.1, self.rotation.2),
            design: self.design.clone(),
        }
    }
}

} // verus!
