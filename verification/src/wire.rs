//! Datagram layouts of the tracking-server protocol.
//!
//! Every datagram starts with a 32-bit kind tag and a 64-bit packet number.
//! All multi-byte fields are big-endian.

use vstd::prelude::*;
use vstd::utf8::encode_utf8;

verus! {

/// Kind tag of a handshake datagram.
pub const HANDSHAKE_KIND: u32 = 3;

/// Kind tag of a sensor-descriptor datagram.
pub const SENSOR_INFO_KIND: u32 = 15;

/// Kind tag of a rotation-update datagram.
pub const ROTATION_DATA_KIND: u32 = 17;

/// Packet number that this bridge writes into every datagram.
pub const PACKET_ID: u64 = 1;

/// Status flag of a sensor that is active.
pub const SENSOR_ACTIVE: u8 = 1;

/// Data-type tag of a rotation update.
pub const ROTATION_DATA_TYPE: u8 = 1;

/// Hardware address that the bridge announces in place of a real one.
pub const PLACEHOLDER_MAC: [u8; 6] = [0x00, 0x0F, 0x00, 0x0F, 0x00, 0x0F];

/// Longest firmware name, in bytes, that the one-byte length prefix can hold.
pub const MAX_FIRMWARE_NAME: usize = 255;

/// Where the datagrams go when the configured address cannot be read as a
/// socket address.
pub fn default_endpoint() -> (address: &'static str)
    ensures
        address@ == "127.0.0.1:6969"@,
{
    "127.0.0.1:6969"
}

/// The four bytes of `v`, most significant first.
pub open spec fn be_u32(v: u32) -> Seq<u8> {
    seq![
        (v / 0x100_0000) as u8,
        (v / 0x1_0000 % 0x100) as u8,
        (v / 0x100 % 0x100) as u8,
        (v % 0x100) as u8,
    ]
}

/// The eight bytes of `v`, most significant first.
pub open spec fn be_u64(v: u64) -> Seq<u8> {
    be_u32((v / 0x1_0000_0000) as u32) + be_u32((v % 0x1_0000_0000) as u32)
}

/// The unsigned 32-bit number with the same bits as `v` in two's complement.
pub open spec fn twos_complement(v: i32) -> u32 {
    if v >= 0 {
        v as u32
    } else {
        (v + 0x1_0000_0000) as u32
    }
}

/// The four bytes of `v` in two's complement, most significant first.
pub open spec fn be_i32(v: i32) -> Seq<u8> {
    be_u32(twos_complement(v))
}

/// The number that big-endian bytes stand for: each byte is one digit in
/// base 256, the last byte the lowest.
pub open spec fn be_value(bytes: Seq<u8>) -> nat
    decreases bytes.len(),
{
    if bytes.len() == 0 {
        0
    } else {
        be_value(bytes.drop_last()) * 256 + bytes.last() as nat
    }
}

/// Reading the four bytes of `be_u32(v)` back as a number gives `v`.
pub proof fn be_u32_is_positional(v: u32)
    ensures
        be_u32(v).len() == 4,
        be_value(be_u32(v)) == v,
{
    let b = be_u32(v);
    let b3 = b.drop_last();
    let b2 = b3.drop_last();
    let b1 = b2.drop_last();
    assert(be_value(b1.drop_last()) == 0);
    assert(be_value(b1) == b[0]);
    assert(be_value(b2) == b[0] * 256 + b[1]);
    assert(be_value(b3) == (b[0] * 256 + b[1]) * 256 + b[2]);
}

/// Bytes put in front of others weigh 256 to the number of bytes behind
/// them.
pub proof fn be_value_of_halves(high: Seq<u8>, low: Seq<u8>)
    requires
        low.len() == 4,
    ensures
        be_value(high + low) == be_value(high) * 0x1_0000_0000 + be_value(low),
{
    let all = high + low;
    let a3 = all.drop_last();
    let a2 = a3.drop_last();
    let a1 = a2.drop_last();
    let l3 = low.drop_last();
    let l2 = l3.drop_last();
    let l1 = l2.drop_last();
    assert(a1.drop_last() =~= high);
    assert(be_value(l1.drop_last()) == 0);
    assert(all.last() == low[3] && a3.last() == low[2] && a2.last() == low[1] && a1.last()
        == low[0]);
    assert(be_value(l1) == low[0]);
    assert(be_value(l2) == low[0] * 256 + low[1]);
    assert(be_value(l3) == (low[0] * 256 + low[1]) * 256 + low[2]);
    assert(be_value(a1) == be_value(high) * 256 + low[0]);
    assert(be_value(a2) == be_value(a1) * 256 + low[1]);
    assert(be_value(a3) == be_value(a2) * 256 + low[2]);
    assert(be_value(all) == be_value(a3) * 256 + low[3]);
}

/// Reading the eight bytes of `be_u64(v)` back as a number gives `v`.
pub proof fn be_u64_is_positional(v: u64)
    ensures
        be_u64(v).len() == 8,
        be_value(be_u64(v)) == v,
{
    let high = (v / 0x1_0000_0000) as u32;
    let low = (v % 0x1_0000_0000) as u32;
    be_u32_is_positional(high);
    be_u32_is_positional(low);
    be_value_of_halves(be_u32(high), be_u32(low));
}

/// Reading the four bytes of `be_i32(v)` back as a number gives `v` for a
/// `v` that is not negative, and `v` plus 2 to the 32 for one that is.
pub proof fn be_i32_is_twos_complement(v: i32)
    ensures
        be_i32(v).len() == 4,
        v >= 0 ==> be_value(be_i32(v)) == v,
        v < 0 ==> be_value(be_i32(v)) == v + 0x1_0000_0000,
{
    be_u32_is_positional(twos_complement(v));
}

/// Appends the big-endian bytes of `v` to `out`.
pub fn put_u32(out: &mut Vec<u8>, v: u32)
    ensures
        final(out)@ == old(out)@ + be_u32(v),
{
    out.push((v / 0x100_0000) as u8);
    out.push((v / 0x1_0000 % 0x100) as u8);
    out.push((v / 0x100 % 0x100) as u8);
    out.push((v % 0x100) as u8);
    assert(out@ =~= old(out)@ + be_u32(v));
}

/// Appends the big-endian bytes of `v` to `out`.
pub fn put_u64(out: &mut Vec<u8>, v: u64)
    ensures
        final(out)@ == old(out)@ + be_u64(v),
{
    put_u32(out, (v / 0x1_0000_0000) as u32);
    put_u32(out, (v % 0x1_0000_0000) as u32);
    assert(out@ =~= old(out)@ + be_u64(v));
}

/// Appends the big-endian two's-complement bytes of `v` to `out`.
pub fn put_i32(out: &mut Vec<u8>, v: i32)
    ensures
        final(out)@ == old(out)@ + be_i32(v),
{
    let bits: u32 = if v >= 0 {
        v as u32
    } else {
        (v as i64 + 0x1_0000_0000) as u32
    };
    put_u32(out, bits);
}

/// An orientation quaternion, each component the IEEE-754 bit pattern of a
/// 32-bit float.
#[derive(Clone, Copy, Debug, PartialEq, Eq, Structural)]
pub struct SlimeQuaternion {
    pub i: u32,
    pub j: u32,
    pub k: u32,
    pub w: u32,
}

impl SlimeQuaternion {
    /// The sixteen bytes of the quaternion on the wire: x, y, z, then w.
    pub open spec fn wire(self) -> Seq<u8> {
        be_u32(self.i) + be_u32(self.j) + be_u32(self.k) + be_u32(self.w)
    }
}

/// Why a packet has no encoding.
#[derive(Clone, Copy, Debug, PartialEq, Eq, Structural)]
pub enum EncodeError {
    /// The firmware name takes more bytes than its length prefix can count.
    FirmwareNameTooLong,
}

/// The datagrams that the bridge sends.
#[derive(Debug, PartialEq, Eq)]
pub enum PacketType {
    /// Registers the bridge with the server as a source of data.
    Handshake {
        packet_id: u64,
        board: i32,
        imu: i32,
        mcu_type: i32,
        imu_info: (i32, i32, i32),
        build: i32,
        firmware: String,
        mac_address: [u8; 6],
    },
    /// Announces one sensor.
    SensorInfo { packet_id: u64, sensor_id: u8, sensor_status: u8 },
    /// Carries the orientation of one sensor.
    RotationData {
        packet_id: u64,
        sensor_id: u8,
        data_type: u8,
        quat: SlimeQuaternion,
        calibration_info: u8,
    },
}

/// A string on the wire: one byte that counts, then the UTF-8 bytes.
pub open spec fn length_prefixed(text: Seq<char>) -> Seq<u8> {
    seq![encode_utf8(text).len() as u8] + encode_utf8(text)
}

/// The start of every datagram: its kind, then its packet number.
pub open spec fn header(kind: u32, packet_id: u64) -> Seq<u8> {
    be_u32(kind) + be_u64(packet_id)
}

/// What follows the header in a handshake datagram.
pub open spec fn handshake_body(
    board: i32,
    imu: i32,
    mcu_type: i32,
    imu_info: (i32, i32, i32),
    build: i32,
    firmware: Seq<char>,
    mac_address: Seq<u8>,
) -> Seq<u8> {
    be_i32(board) + be_i32(imu) + be_i32(mcu_type) + be_i32(imu_info.0) + be_i32(imu_info.1)
        + be_i32(imu_info.2) + be_i32(build) + length_prefixed(firmware) + mac_address
}

/// Layout of a handshake datagram.
pub open spec fn handshake_wire(
    packet_id: u64,
    board: i32,
    imu: i32,
    mcu_type: i32,
    imu_info: (i32, i32, i32),
    build: i32,
    firmware: Seq<char>,
    mac_address: Seq<u8>,
) -> Seq<u8> {
    header(HANDSHAKE_KIND, packet_id) + handshake_body(
        board,
        imu,
        mcu_type,
        imu_info,
        build,
        firmware,
        mac_address,
    )
}

/// Layout of a sensor-descriptor datagram.
pub open spec fn sensor_info_wire(packet_id: u64, sensor_id: u8, sensor_status: u8) -> Seq<u8> {
    header(SENSOR_INFO_KIND, packet_id) + seq![sensor_id, sensor_status]
}

/// Layout of a rotation-update datagram.
pub open spec fn rotation_data_wire(
    packet_id: u64,
    sensor_id: u8,
    data_type: u8,
    quat: SlimeQuaternion,
    calibration_info: u8,
) -> Seq<u8> {
    header(ROTATION_DATA_KIND, packet_id) + (seq![sensor_id, data_type] + quat.wire()
        + seq![calibration_info])
}

impl PacketType {
    /// Whether the packet has an encoding: its firmware name, if it has one,
    /// fits the length prefix.
    pub open spec fn well_formed(&self) -> bool {
        match self {
            PacketType::Handshake { firmware, .. } => encode_utf8(firmware@).len()
                <= MAX_FIRMWARE_NAME,
            _ => true,
        }
    }

    /// The bytes of the packet's datagram.
    pub open spec fn wire(&self) -> Seq<u8> {
        match self {
            PacketType::Handshake {
                packet_id,
                board,
                imu,
                mcu_type,
                imu_info,
                build,
                firmware,
                mac_address,
            } => handshake_wire(
                *packet_id,
                *board,
                *imu,
                *mcu_type,
                *imu_info,
                *build,
                firmware@,
                mac_address@,
            ),
            PacketType::SensorInfo { packet_id, sensor_id, sensor_status } => sensor_info_wire(
                *packet_id,
                *sensor_id,
                *sensor_status,
            ),
            PacketType::RotationData {
                packet_id,
                sensor_id,
                data_type,
                quat,
                calibration_info,
            } => rotation_data_wire(*packet_id, *sensor_id, *data_type, *quat, *calibration_info),
        }
    }

    /// Encodes the packet. Fails exactly on a handshake whose firmware name
    /// is longer than `MAX_FIRMWARE_NAME` bytes.
    pub fn to_bytes(&self) -> (r: Result<Vec<u8>, EncodeError>)
        ensures
            match r {
                Ok(bytes) => self.well_formed() && bytes@ == self.wire(),
                Err(e) => !self.well_formed() && e == EncodeError::FirmwareNameTooLong,
            },
    {
        let mut out: Vec<u8> = Vec::new();
        match self {
            PacketType::Handshake {
                packet_id,
                board,
                imu,
                mcu_type,
                imu_info,
                build,
                firmware,
                mac_address,
            } => {
                let name = firmware.as_str().as_bytes();
                if name.len() > MAX_FIRMWARE_NAME {
                    return Err(EncodeError::FirmwareNameTooLong);
                }
                put_u32(&mut out, HANDSHAKE_KIND);
                put_u64(&mut out, *packet_id);
                put_i32(&mut out, *board);
                put_i32(&mut out, *imu);
                put_i32(&mut out, *mcu_type);
                put_i32(&mut out, imu_info.0);
                put_i32(&mut out, imu_info.1);
                put_i32(&mut out, imu_info.2);
                put_i32(&mut out, *build);
                out.push(name.len() as u8);
                put_bytes(&mut out, name);
                put_bytes(&mut out, mac_address.as_slice());
                assert(out@ =~= self.wire());
            },
            PacketType::SensorInfo { packet_id, sensor_id, sensor_status } => {
                put_u32(&mut out, SENSOR_INFO_KIND);
                put_u64(&mut out, *packet_id);
                out.push(*sensor_id);
                out.push(*sensor_status);
                assert(out@ =~= self.wire());
            },
            PacketType::RotationData {
                packet_id,
                sensor_id,
                data_type,
                quat,
                calibration_info,
            } => {
                put_u32(&mut out, ROTATION_DATA_KIND);
                put_u64(&mut out, *packet_id);
                out.push(*sensor_id);
                out.push(*data_type);
                put_u32(&mut out, quat.i);
                put_u32(&mut out, quat.j);
                put_u32(&mut out, quat.k);
                put_u32(&mut out, quat.w);
                out.push(*calibration_info);
                assert(out@ =~= self.wire());
            },
        }
        Ok(out)
    }
}

/// A datagram shows its kind in its first four bytes, whatever follows the
/// header.
pub proof fn datagram_shows_its_kind(kind: u32, packet_id: u64, body: Seq<u8>)
    ensures
        (header(kind, packet_id) + body).len() == 12 + body.len(),
        (header(kind, packet_id) + body).subrange(0, 4) == be_u32(kind),
        (header(kind, packet_id) + body).subrange(4, 12) == be_u64(packet_id),
        (header(kind, packet_id) + body).skip(12) == body,
{
    let datagram = header(kind, packet_id) + body;
    assert(be_u32(kind).len() == 4);
    assert(be_u64(packet_id).len() == 8);
    assert(datagram.subrange(0, 4) =~= be_u32(kind));
    assert(datagram.subrange(4, 12) =~= be_u64(packet_id));
    assert(datagram.skip(12) =~= body);
}

/// Name under which the bridge announces itself.
pub open spec fn firmware_name() -> Seq<char> {
    "slimevr-wrangler"@
}

/// The handshake that the bridge sends: no board, no sensor chip, build 0,
/// the bridge's name and the placeholder address.
pub open spec fn handshake_datagram() -> Seq<u8> {
    handshake_wire(PACKET_ID, 0, 0, 0, (0, 0, 0), 0, firmware_name(), PLACEHOLDER_MAC@)
}

/// The descriptor that announces the sensor in `sensor_slot` as active.
pub open spec fn sensor_descriptor_datagram(sensor_slot: u8) -> Seq<u8> {
    sensor_info_wire(PACKET_ID, sensor_slot, SENSOR_ACTIVE)
}

/// The rotation update of the sensor in `sensor_slot`. The calibration byte
/// is always 0.
pub open spec fn rotation_update_datagram(sensor_slot: u8, quaternion: SlimeQuaternion) -> Seq<
    u8,
> {
    rotation_data_wire(PACKET_ID, sensor_slot, ROTATION_DATA_TYPE, quaternion, 0)
}

/// The bridge's name is sixteen ASCII characters, so its UTF-8 bytes are the
/// characters themselves.
pub proof fn firmware_name_bytes()
    ensures
        encode_utf8(firmware_name()) =~= seq![
            0x73u8, 0x6c, 0x69, 0x6d, 0x65, 0x76, 0x72, 0x2d,
            0x77, 0x72, 0x61, 0x6e, 0x67, 0x6c, 0x65, 0x72,
        ],
{
    reveal_strlit("slimevr-wrangler");
    let name = firmware_name();
    assert(name.len() == 16);
    assert(vstd::utf8::is_ascii_chars(name));
    vstd::utf8::is_ascii_chars_encode_utf8(name);
    let bytes = encode_utf8(name);
    assert(bytes[0] == name[0] as u8);
    assert(bytes[1] == name[1] as u8);
    assert(bytes[2] == name[2] as u8);
    assert(bytes[3] == name[3] as u8);
    assert(bytes[4] == name[4] as u8);
    assert(bytes[5] == name[5] as u8);
    assert(bytes[6] == name[6] as u8);
    assert(bytes[7] == name[7] as u8);
    assert(bytes[8] == name[8] as u8);
    assert(bytes[9] == name[9] as u8);
    assert(bytes[10] == name[10] as u8);
    assert(bytes[11] == name[11] as u8);
    assert(bytes[12] == name[12] as u8);
    assert(bytes[13] == name[13] as u8);
    assert(bytes[14] == name[14] as u8);
    assert(bytes[15] == name[15] as u8);
}

/// The handshake datagram, byte for byte: kind 3, packet number 1, seven
/// zero words, the counted name and the placeholder address.
pub proof fn handshake_datagram_layout()
    ensures
        handshake_datagram() =~= seq![
            0u8, 0, 0, 3,
            0, 0, 0, 0, 0, 0, 0, 1,
            0, 0, 0, 0,
            0, 0, 0, 0,
            0, 0, 0, 0,
            0, 0, 0, 0, 0, 0, 0, 0, 0, 0, 0, 0,
            0, 0, 0, 0,
            16,
            0x73, 0x6c, 0x69, 0x6d, 0x65, 0x76, 0x72, 0x2d,
            0x77, 0x72, 0x61, 0x6e, 0x67, 0x6c, 0x65, 0x72,
            0x00, 0x0F, 0x00, 0x0F, 0x00, 0x0F,
        ],
{
    firmware_name_bytes();
    let zero = seq![0u8, 0, 0, 0];
    assert(be_i32(0) =~= zero);
    assert(header(HANDSHAKE_KIND, PACKET_ID) =~= seq![0u8, 0, 0, 3, 0, 0, 0, 0, 0, 0, 0, 1]);
    assert(length_prefixed(firmware_name()) =~= seq![
        16u8,
        0x73, 0x6c, 0x69, 0x6d, 0x65, 0x76, 0x72, 0x2d,
        0x77, 0x72, 0x61, 0x6e, 0x67, 0x6c, 0x65, 0x72,
    ]);
    assert(PLACEHOLDER_MAC@ =~= seq![0x00u8, 0x0F, 0x00, 0x0F, 0x00, 0x0F]);
    assert(zero + zero + zero + zero + zero + zero + zero =~= seq![
        0u8, 0, 0, 0,
        0, 0, 0, 0,
        0, 0, 0, 0,
        0, 0, 0, 0,
        0, 0, 0, 0,
        0, 0, 0, 0,
        0, 0, 0, 0,
    ]);
}

/// The sensor descriptor, byte for byte: kind 15, packet number 1, the slot
/// and the status 1.
pub proof fn sensor_descriptor_layout(sensor_slot: u8)
    ensures
        sensor_descriptor_datagram(sensor_slot) =~= seq![
            0u8, 0, 0, 15,
            0, 0, 0, 0, 0, 0, 0, 1,
            sensor_slot,
            1,
        ],
{
}

/// The rotation update, byte for byte: kind 17, packet number 1, the slot,
/// the data type 1, the four components and a zero calibration byte.
pub proof fn rotation_update_layout(sensor_slot: u8, quaternion: SlimeQuaternion)
    ensures
        rotation_update_datagram(sensor_slot, quaternion) =~= seq![
            0u8, 0, 0, 17,
            0, 0, 0, 0, 0, 0, 0, 1,
            sensor_slot,
            1,
        ] + be_u32(quaternion.i) + be_u32(quaternion.j) + be_u32(quaternion.k) + be_u32(
            quaternion.w,
        ) + seq![0u8],
        rotation_update_datagram(sensor_slot, quaternion).len() == 31,
{
}

/// Encodes the handshake that registers the bridge with the server.
pub fn encode_handshake() -> (bytes: Vec<u8>)
    ensures
        bytes@ == handshake_datagram(),
{
    let packet = PacketType::Handshake {
        packet_id: PACKET_ID,
        board: 0,
        imu: 0,
        mcu_type: 0,
        imu_info: (0, 0, 0),
        build: 0,
        firmware: "slimevr-wrangler".to_owned(),
        mac_address: PLACEHOLDER_MAC,
    };
    proof {
        firmware_name_bytes();
    }
    packet.to_bytes().unwrap()
}

/// Encodes the descriptor of the sensor in `sensor_slot`.
pub fn encode_sensor_descriptor(sensor_slot: u8) -> (bytes: Vec<u8>)
    ensures
        bytes@ == sensor_descriptor_datagram(sensor_slot),
{
    let packet = PacketType::SensorInfo {
        packet_id: PACKET_ID,
        sensor_id: sensor_slot,
        sensor_status: SENSOR_ACTIVE,
    };
    packet.to_bytes().unwrap()
}

/// Encodes the rotation update of the sensor in `sensor_slot`.
pub fn encode_rotation_update(sensor_slot: u8, quaternion: SlimeQuaternion) -> (bytes: Vec<u8>)
    ensures
        bytes@ == rotation_update_datagram(sensor_slot, quaternion),
{
    let packet = PacketType::RotationData {
        packet_id: PACKET_ID,
        sensor_id: sensor_slot,
        data_type: ROTATION_DATA_TYPE,
        quat: quaternion,
        calibration_info: 0,
    };
    packet.to_bytes().unwrap()
}

/// Appends `bytes` to `out`.
pub fn put_bytes(out: &mut Vec<u8>, bytes: &[u8])
    ensures
        final(out)@ == old(out)@ + bytes@,
{
    let mut at: usize = 0;
    while at < bytes.len()
        invariant
            at <= bytes.len(),
            out@ == old(out)@ + bytes@.subrange(0, at as int),
        decreases bytes.len() - at,
    {
        out.push(bytes[at]);
        at += 1;
        assert(out@ =~= old(out)@ + bytes@.subrange(0, at as int));
    }
    assert(bytes@.subrange(0, at as int) =~= bytes@);
}

} // verus!
