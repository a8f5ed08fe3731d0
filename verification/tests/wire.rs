use deku::ctx::Endian;
use deku::no_std_io::Cursor;
use deku::writer::Writer;
use deku::DekuWriter;
use slimevr_wrangler::wire::{
    default_endpoint, encode_handshake, encode_rotation_update, encode_sensor_descriptor, put_bytes,
    put_i32, put_u32, put_u64, EncodeError, PacketType, SlimeQuaternion, HANDSHAKE_KIND,
    MAX_FIRMWARE_NAME, PACKET_ID, PLACEHOLDER_MAC, ROTATION_DATA_KIND, SENSOR_INFO_KIND,
};

fn quaternion(x: f32, y: f32, z: f32, w: f32) -> SlimeQuaternion {
    SlimeQuaternion { i: x.to_bits(), j: y.to_bits(), k: z.to_bits(), w: w.to_bits() }
}

fn handshake_named(name: &str) -> PacketType {
    PacketType::Handshake {
        packet_id: 1,
        board: 0,
        imu: 0,
        mcu_type: 0,
        imu_info: (0, 0, 0),
        build: 0,
        firmware: name.to_string(),
        mac_address: [0x00, 0x0F, 0x00, 0x0F, 0x00, 0x0F],
    }
}

#[test]
fn sensor_descriptor_is_fourteen_bytes() {
    assert_eq!(
        encode_sensor_descriptor(5),
        vec![0, 0, 0, 15, 0, 0, 0, 0, 0, 0, 0, 1, 5, 1]
    );
}

#[test]
fn sensor_descriptor_carries_the_slot() {
    assert_eq!(encode_sensor_descriptor(0)[12], 0);
    assert_eq!(encode_sensor_descriptor(255)[12], 255);
    assert_ne!(encode_sensor_descriptor(1), encode_sensor_descriptor(2));
}

#[test]
fn handshake_is_byte_exact() {
    let mut expected: Vec<u8> = vec![0, 0, 0, 3, 0, 0, 0, 0, 0, 0, 0, 1];
    expected.extend_from_slice(&[0u8; 28]);
    expected.push(16);
    expected.extend_from_slice(b"slimevr-wrangler");
    expected.extend_from_slice(&[0x00, 0x0F, 0x00, 0x0F, 0x00, 0x0F]);
    assert_eq!(expected.len(), 63);
    assert_eq!(encode_handshake(), expected);
}

#[test]
fn rotation_update_is_byte_exact() {
    let bytes = encode_rotation_update(2, quaternion(1.0, -2.0, 0.5, 0.0));
    assert_eq!(
        bytes,
        vec![
            0, 0, 0, 17, 0, 0, 0, 0, 0, 0, 0, 1, 2, 1, 0x3f, 0x80, 0x00, 0x00, 0xc0, 0x00, 0x00,
            0x00, 0x3f, 0x00, 0x00, 0x00, 0x00, 0x00, 0x00, 0x00, 0
        ]
    );
    assert_eq!(bytes.len(), 31);
}

#[test]
fn rotation_update_keeps_component_order() {
    let bytes = encode_rotation_update(0, quaternion(1.0, 2.0, 3.0, 4.0));
    assert_eq!(&bytes[14..18], &1.0f32.to_be_bytes());
    assert_eq!(&bytes[18..22], &2.0f32.to_be_bytes());
    assert_eq!(&bytes[22..26], &3.0f32.to_be_bytes());
    assert_eq!(&bytes[26..30], &4.0f32.to_be_bytes());
    assert_eq!(bytes[30], 0);
}

#[test]
fn encoders_agree_with_the_packets() {
    assert_eq!(handshake_named("slimevr-wrangler").to_bytes(), Ok(encode_handshake()));
    let info = PacketType::SensorInfo { packet_id: 1, sensor_id: 9, sensor_status: 1 };
    assert_eq!(info.to_bytes(), Ok(encode_sensor_descriptor(9)));
    let q = quaternion(0.25, 0.5, 0.75, 1.0);
    let rotation = PacketType::RotationData {
        packet_id: 1,
        sensor_id: 3,
        data_type: 1,
        quat: q,
        calibration_info: 0,
    };
    assert_eq!(rotation.to_bytes(), Ok(encode_rotation_update(3, q)));
}

#[test]
fn packet_fields_reach_the_wire() {
    let packet = PacketType::Handshake {
        packet_id: 0x0102_0304_0506_0708,
        board: -1,
        imu: 2,
        mcu_type: i32::MIN,
        imu_info: (3, -4, i32::MAX),
        build: 0x0a0b_0c0d,
        firmware: "ab".to_string(),
        mac_address: [1, 2, 3, 4, 5, 6],
    };
    assert_eq!(
        packet.to_bytes(),
        Ok(vec![
            0, 0, 0, 3, 1, 2, 3, 4, 5, 6, 7, 8, 0xff, 0xff, 0xff, 0xff, 0, 0, 0, 2, 0x80, 0, 0, 0,
            0, 0, 0, 3, 0xff, 0xff, 0xff, 0xfc, 0x7f, 0xff, 0xff, 0xff, 0x0a, 0x0b, 0x0c, 0x0d, 2,
            b'a', b'b', 1, 2, 3, 4, 5, 6
        ])
    );
    let info = PacketType::SensorInfo { packet_id: 256, sensor_id: 7, sensor_status: 0 };
    assert_eq!(info.to_bytes(), Ok(vec![0, 0, 0, 15, 0, 0, 0, 0, 0, 0, 1, 0, 7, 0]));
    let rotation = PacketType::RotationData {
        packet_id: u64::MAX,
        sensor_id: 1,
        data_type: 2,
        quat: SlimeQuaternion { i: 1, j: 2, k: 3, w: 0xffff_fffe },
        calibration_info: 9,
    };
    assert_eq!(
        rotation.to_bytes(),
        Ok(vec![
            0, 0, 0, 17, 255, 255, 255, 255, 255, 255, 255, 255, 1, 2, 0, 0, 0, 1, 0, 0, 0, 2, 0,
            0, 0, 3, 255, 255, 255, 254, 9
        ])
    );
}

#[test]
fn firmware_name_of_255_bytes_is_encoded() {
    let name = "x".repeat(MAX_FIRMWARE_NAME);
    let bytes = handshake_named(&name).to_bytes().unwrap();
    assert_eq!(bytes.len(), 40 + 1 + 255 + 6);
    assert_eq!(bytes[40], 255);
    assert!(bytes[41..296].iter().all(|b| *b == b'x'));
}

#[test]
fn firmware_name_of_256_bytes_is_refused() {
    let name = "x".repeat(256);
    assert_eq!(handshake_named(&name).to_bytes(), Err(EncodeError::FirmwareNameTooLong));
}

#[test]
fn firmware_name_is_counted_in_bytes() {
    let bytes = handshake_named("é").to_bytes().unwrap();
    assert_eq!(bytes[40], 2);
    assert_eq!(&bytes[41..43], "é".as_bytes());
    let long = "é".repeat(128);
    assert_eq!(handshake_named(&long).to_bytes(), Err(EncodeError::FirmwareNameTooLong));
}

#[test]
fn empty_firmware_name_is_encoded() {
    let bytes = handshake_named("").to_bytes().unwrap();
    assert_eq!(bytes.len(), 47);
    assert_eq!(bytes[40], 0);
}

#[test]
fn integers_are_big_endian() {
    let mut out = vec![0xaa];
    put_u32(&mut out, 0x0102_0304);
    assert_eq!(out, vec![0xaa, 1, 2, 3, 4]);
    put_u64(&mut out, 0x1112_1314_1516_1718);
    assert_eq!(out[5..], [0x11, 0x12, 0x13, 0x14, 0x15, 0x16, 0x17, 0x18]);
    let mut signed = Vec::new();
    put_i32(&mut signed, -2);
    put_i32(&mut signed, 1);
    put_i32(&mut signed, i32::MIN);
    assert_eq!(signed, vec![0xff, 0xff, 0xff, 0xfe, 0, 0, 0, 1, 0x80, 0, 0, 0]);
    let mut raw = vec![1];
    put_bytes(&mut raw, &[2, 3]);
    put_bytes(&mut raw, &[]);
    assert_eq!(raw, vec![1, 2, 3]);
}

#[test]
fn integers_match_the_standard_encoding() {
    let words =
        [0u32, 1, 255, 256, 0xffff, 0x1_0000, 0x00ff_ffff, 0x0100_0000, 0xdead_beef, u32::MAX];
    for v in words {
        let mut out = Vec::new();
        put_u32(&mut out, v);
        assert_eq!(out, v.to_be_bytes());
    }
    for v in [0u64, 1, 0xffff_ffff, 0x1_0000_0000, 0x0123_4567_89ab_cdef, u64::MAX] {
        let mut out = Vec::new();
        put_u64(&mut out, v);
        assert_eq!(out, v.to_be_bytes());
    }
    for v in [0i32, 1, -1, 127, -128, i32::MAX, i32::MIN, -123_456_789] {
        let mut out = Vec::new();
        put_i32(&mut out, v);
        assert_eq!(out, v.to_be_bytes());
    }
}

#[test]
fn constants_of_the_protocol() {
    assert_eq!(HANDSHAKE_KIND, 3);
    assert_eq!(SENSOR_INFO_KIND, 15);
    assert_eq!(ROTATION_DATA_KIND, 17);
    assert_eq!(PACKET_ID, 1);
    assert_eq!(PLACEHOLDER_MAC, [0x00, 0x0F, 0x00, 0x0F, 0x00, 0x0F]);
    assert_eq!(default_endpoint(), "127.0.0.1:6969");
}

fn written<T: DekuWriter<Endian>>(writer: &mut Writer<&mut Cursor<&mut Vec<u8>>>, value: T) {
    value.to_writer(writer, Endian::Big).unwrap();
}

#[test]
fn handshake_matches_field_by_field_serialisation() {
    let mut expected = Vec::new();
    {
        let mut cursor = Cursor::new(&mut expected);
        let mut writer = Writer::new(&mut cursor);
        written(&mut writer, 3u32);
        written(&mut writer, 1u64);
        written(&mut writer, 0i32);
        written(&mut writer, 0i32);
        written(&mut writer, 0i32);
        written(&mut writer, (0i32, 0i32, 0i32));
        written(&mut writer, 0i32);
        let name = "slimevr-wrangler".as_bytes().to_vec();
        written(&mut writer, name.len() as u8);
        written(&mut writer, name);
        written(&mut writer, [0x00u8, 0x0F, 0x00, 0x0F, 0x00, 0x0F]);
        writer.finalize().unwrap();
    }
    assert_eq!(encode_handshake(), expected);
}

#[test]
fn sensor_descriptor_matches_field_by_field_serialisation() {
    for slot in [0u8, 1, 7, 200, 255] {
        let mut expected = Vec::new();
        {
            let mut cursor = Cursor::new(&mut expected);
            let mut writer = Writer::new(&mut cursor);
            written(&mut writer, 15u32);
            written(&mut writer, 1u64);
            written(&mut writer, slot);
            written(&mut writer, 1u8);
            writer.finalize().unwrap();
        }
        assert_eq!(encode_sensor_descriptor(slot), expected);
    }
}

#[test]
fn rotation_update_matches_field_by_field_serialisation() {
    let parts = [0.1f32, -0.2, 0.3, 0.927_361_8];
    let mut expected = Vec::new();
    {
        let mut cursor = Cursor::new(&mut expected);
        let mut writer = Writer::new(&mut cursor);
        written(&mut writer, 17u32);
        written(&mut writer, 1u64);
        written(&mut writer, 4u8);
        written(&mut writer, 1u8);
        written(&mut writer, parts[0]);
        written(&mut writer, parts[1]);
        written(&mut writer, parts[2]);
        written(&mut writer, parts[3]);
        written(&mut writer, 0u8);
        writer.finalize().unwrap();
    }
    let q = quaternion(parts[0], parts[1], parts[2], parts[3]);
    assert_eq!(encode_rotation_update(4, q), expected);
}
