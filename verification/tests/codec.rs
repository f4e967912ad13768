use oyster::imu;
use oyster::lidar::{
    Block, Column, DualReturnBlock, FuSaDualReturnBlock, Header, Packet, Profile,
    SingleLowDataRateReturnBlock, SingleReturnBlock, Status,
};
use oyster::lidar::header::{AlertFlags, PacketType, SensorInfo, Status as HeaderStatus};
use oyster::packing::PackingError;
use oyster::types::{ShotLimitingStatus, ThermalShutdownStatus};

#[test]
fn status_test_is_valid() {
    let cases = vec![(Status::Valid, true), (Status::Invalid, false)];
    for (status, want) in cases {
        let got = status.is_valid();
        assert_eq!(want, got);
    }
}

#[test]
fn status_test_default() {
    let want = Status::Valid;
    let got = Status::default();
    assert_eq!(want, got);
}

#[test]
fn status_test_display() {
    let cases = vec![(Status::Valid, "valid"), (Status::Invalid, "invalid")];
    for (status, want) in cases {
        let got = status.display_str();
        assert_eq!(want, got);
    }
}

#[test]
fn header_test_is_valid() {
    let cases = vec![
        (Header { timestamp: 0, measurement_id: 0, status: Status::Valid }, true),
        (Header { timestamp: 0, measurement_id: 0, status: Status::Invalid }, false),
    ];
    for (header, want) in cases {
        let got = header.is_valid();
        assert_eq!(want, got);
    }
}

#[test]
fn profile_test_default() {
    let want = imu::Profile::Legacy;
    let got = imu::Profile::default();
    assert_eq!(want, got);
}

#[test]
fn profile_test_display() {
    let cases = vec![(imu::Profile::Legacy, "legacy")];
    for (profile, want) in cases {
        let got = profile.display_str();
        assert_eq!(want, got);
    }
}

#[test]
fn lidar_profile_test_default() {
    assert_eq!(Profile::default(), Profile::Legacy);
}

#[test]
fn packet_type_test_default() {
    let want = PacketType::LidarData;
    let got = PacketType::default();
    assert_eq!(want, got);
}

#[test]
fn packet_type_test_display() {
    let cases = vec![(PacketType::LidarData, "LIDAR data")];
    for (packet_type, want) in cases {
        let got = packet_type.display_str();
        assert_eq!(want, got);
    }
}

#[test]
fn test_default() {
    let want = HeaderStatus::new(ShotLimitingStatus::Normal, ThermalShutdownStatus::Normal);
    let got = HeaderStatus::default();
    assert_eq!(want, got);
}

const BINARY_CASES: [(ShotLimitingStatus, ThermalShutdownStatus, u8); 3] = [
    (ShotLimitingStatus::Normal, ThermalShutdownStatus::Normal, 0x00),
    (ShotLimitingStatus::Reduction30to40, ThermalShutdownStatus::Normal, 0x50),
    (ShotLimitingStatus::Normal, ThermalShutdownStatus::Imminent, 0x01),
];

#[test]
fn status_test_parse() {
    for (shot, thermal, byte) in BINARY_CASES {
        let want = HeaderStatus { shot_limiting: shot, thermal_shutdown: thermal };
        let got = HeaderStatus::parse(byte).expect("It should not return an error");
        assert_eq!(want, got);
    }
}

#[test]
fn test_write() {
    for (shot, thermal, want) in BINARY_CASES {
        let status = HeaderStatus { shot_limiting: shot, thermal_shutdown: thermal };
        let got = status.write();
        assert_eq!(want, got);
    }
}

#[test]
fn status_parse_rejects_bad_nibbles() {
    assert_eq!(HeaderStatus::parse(0xA0), Err(PackingError::InvalidValue));
    assert_eq!(HeaderStatus::parse(0x02), Err(PackingError::InvalidValue));
}

#[test]
fn sensor_info_test_parse() {
    let bytes: [u8; 8] = [0xFF, 0xFF, 0xFF, 0xFF, 0xFF, 0xFF, 0xFF, 0xFF];
    let want = SensorInfo::new(0xFF_FFFF, 0xFF_FFFF_FFFF);
    let got = SensorInfo::from_raw(u64::from_be_bytes(bytes));
    assert_eq!(want, got);
}

#[test]
fn alert_flags_round_trip() {
    let flags = AlertFlags::new(0x2A, true, false);
    assert_eq!(AlertFlags::parse(flags.write()), flags);
    assert_eq!(AlertFlags::default(), AlertFlags::new(0, false, false));
}

#[test]
fn packet_test_default() {
    let want = imu::Packet {
        diagnostic_system_time: 0,
        accelerometer_time: 0,
        gyroscope_time: 0,
        linear_acceleration_x: 0,
        linear_acceleration_y: 0,
        linear_acceleration_z: 0,
        angular_velocity_x: 0,
        angular_velocity_y: 0,
        angular_velocity_z: 0,
    };
    let got = imu::Packet::default();
    assert_eq!(want, got);
}

// Round-trip: for every profile, decoding an encoded in-range block
// recovers the block.

#[test]
fn round_trip_single_returns() {
    let block = SingleReturnBlock { range: 0x7FFFF, reflectivity: 0xAB, signal: 0x1234, near_ir: 0x5678 };
    let mut buf = vec![0u8; 12];
    block.encode(&mut buf, 0).expect("in-range block must encode");
    let got = SingleReturnBlock::decode(&buf, 0).expect("full buffer must decode");
    assert_eq!(block, got);
}

#[test]
fn round_trip_single_returns_low_data_rate() {
    let block = SingleLowDataRateReturnBlock::new(0x7FFF, 0xCD, 0xEF);
    let mut buf = vec![0u8; 4];
    block.encode(&mut buf, 0).expect("in-range block must encode");
    let got = SingleLowDataRateReturnBlock::decode(&buf, 0).expect("full buffer must decode");
    assert_eq!(block, got);
}

#[test]
fn round_trip_dual_returns() {
    let block = DualReturnBlock::new(0x12345, 0xAA, 0x7FFFF, 0xBB, 0x1111, 0x2222, 0x3333);
    let mut buf = vec![0u8; 16];
    block.encode(&mut buf, 0).expect("in-range block must encode");
    let got = DualReturnBlock::decode(&buf, 0).expect("full buffer must decode");
    assert_eq!(block, got);
}

#[test]
fn round_trip_fusa_dual_returns() {
    let block = FuSaDualReturnBlock::new(0x7FFF, 0x11, 0x1234, 0x22, 0x33);
    let mut buf = vec![0u8; 8];
    block.encode(&mut buf, 0).expect("in-range block must encode");
    let got = FuSaDualReturnBlock::decode(&buf, 0).expect("full buffer must decode");
    assert_eq!(block, got);
}

#[test]
fn round_trip_imu_packet() {
    let packet = imu::Packet {
        diagnostic_system_time: 123_456_789,
        accelerometer_time: 987_654_321,
        gyroscope_time: 555,
        linear_acceleration_x: 1.5f32.to_bits(),
        linear_acceleration_y: (-2.25f32).to_bits(),
        linear_acceleration_z: 9.81f32.to_bits(),
        angular_velocity_x: 0.125f32.to_bits(),
        angular_velocity_y: 100.0f32.to_bits(),
        angular_velocity_z: (-0.5f32).to_bits(),
    };
    let bytes = packet.encode();
    assert_eq!(bytes.len(), 48);
    let got = imu::Packet::decode(&bytes, 0).expect("full buffer must decode");
    assert_eq!(packet, got);
}

// Overflow boundary: the low-rate profile encodes the largest 15-bit
// range and rejects the next value with FieldOverflow.

#[test]
fn overflow_boundary_low_rate() {
    let mut buf = vec![0u8; 4];
    let fits = SingleLowDataRateReturnBlock::new(0x7FFF, 0, 0);
    assert_eq!(fits.encode(&mut buf, 0), Ok(()));

    let too_big = SingleLowDataRateReturnBlock::new(0x8000, 0, 0);
    assert_eq!(too_big.encode(&mut buf, 0), Err(PackingError::FieldOverflow));
}

#[test]
fn overflow_boundary_single() {
    let mut buf = vec![0u8; 12];
    let fits = SingleReturnBlock { range: 0x7FFFF, reflectivity: 0, signal: 0, near_ir: 0 };
    assert_eq!(fits.encode(&mut buf, 0), Ok(()));

    let too_big = SingleReturnBlock { range: 0x80000, reflectivity: 0, signal: 0, near_ir: 0 };
    assert_eq!(too_big.encode(&mut buf, 0), Err(PackingError::FieldOverflow));
}

#[test]
fn overflow_boundary_dual() {
    let mut buf = vec![0u8; 16];
    let too_big = DualReturnBlock::new(0, 0, 0x80000, 0, 0, 0, 0);
    assert_eq!(too_big.encode(&mut buf, 0), Err(PackingError::FieldOverflow));
}

#[test]
fn overflow_boundary_fusa() {
    let mut buf = vec![0u8; 8];
    let too_big = FuSaDualReturnBlock::new(0x8000, 0, 0, 0, 0);
    assert_eq!(too_big.encode(&mut buf, 0), Err(PackingError::FieldOverflow));
}

// Truncated input: a buffer shorter than the profile's fixed width is
// rejected with TruncatedInput.

#[test]
fn truncated_input_errors() {
    let short = vec![0u8; 11];
    assert_eq!(SingleReturnBlock::decode(&short, 0), Err(PackingError::TruncatedInput));
    assert_eq!(imu::Packet::decode(&short, 0), Err(PackingError::TruncatedInput));
    assert!(Packet::decode(Profile::SingleReturns, &short, 1).is_err());
}

// Validity isolation: the status high bit alone decides is_valid,
// whatever the return block holds.

#[test]
fn validity_isolation() {
    let mut bytes = vec![0xFFu8; 24];
    // Clear only the status word's high bit; the block stays all ones.
    bytes[11] = 0x7F;
    let column = Column::decode(Profile::SingleReturns, &bytes, 0).expect("must decode");
    assert!(!column.is_valid());

    bytes[11] = 0x80;
    let column = Column::decode(Profile::SingleReturns, &bytes, 0).expect("must decode");
    assert!(column.is_valid());
}

// Reserved-bit isolation: encoding into a buffer pre-filled with 0xFF
// and decoding never leaks the old contents into any field.

#[test]
fn reserved_bit_isolation() {
    let block = SingleReturnBlock { range: 1, reflectivity: 0xAB, signal: 0x1234, near_ir: 0x5678 };
    let mut buf = vec![0xFFu8; 12];
    block.encode(&mut buf, 0).expect("in-range block must encode");
    assert_eq!(buf[5], 0);
    assert_eq!(buf[10], 0);
    assert_eq!(buf[11], 0);
    let got = SingleReturnBlock::decode(&buf, 0).expect("full buffer must decode");
    assert_eq!(block, got);
}

// End-to-end scenario: a single-column synthetic frame decodes to the
// exact header and block values.

#[test]
fn end_to_end_single_column() {
    let mut bytes = Vec::new();
    bytes.extend_from_slice(&42u64.to_le_bytes()); // timestamp
    bytes.extend_from_slice(&[0xFF, 0x00]); // measurement id 0x00FF
    bytes.extend_from_slice(&[0x00, 0x80]); // status: valid bit set
    bytes.extend_from_slice(&0x00002000u32.to_le_bytes()); // raw range word
    bytes.push(0xAB); // reflectivity
    bytes.push(0x00); // reserved
    bytes.extend_from_slice(&[0x34, 0x12]); // signal 0x1234
    bytes.extend_from_slice(&[0x78, 0x56]); // near_ir 0x5678
    bytes.extend_from_slice(&[0x00, 0x00]); // reserved

    let packet = Packet::decode(Profile::SingleReturns, &bytes, 1).expect("must decode");
    assert_eq!(packet.columns.len(), 1);
    let column = &packet.columns[0];
    assert_eq!(column.header.measurement_id, 0x00FF);
    assert!(column.is_valid());
    assert_eq!(column.header.timestamp, 42);
    let want = SingleReturnBlock { range: 1, reflectivity: 0xAB, signal: 0x1234, near_ir: 0x5678 };
    assert_eq!(column.block, Block::SingleReturn(want));
}

// Packet round trip across several columns and profiles.

#[test]
fn round_trip_lidar_packet() {
    let columns = vec![
        Column {
            header: Header { timestamp: 1, measurement_id: 10, status: Status::Valid },
            block: Block::SingleLowDataRateReturn(SingleLowDataRateReturnBlock::new(7, 8, 9)),
        },
        Column {
            header: Header { timestamp: 2, measurement_id: 11, status: Status::Invalid },
            block: Block::SingleLowDataRateReturn(SingleLowDataRateReturnBlock::new(0x7FFF, 0, 1)),
        },
    ];
    let packet = Packet { columns };
    let bytes = packet.encode(Profile::SingleReturnsLowDataRate).expect("must encode");
    assert_eq!(bytes.len(), 2 * 16);
    let got = Packet::decode(Profile::SingleReturnsLowDataRate, &bytes, 2).expect("must decode");
    assert_eq!(packet, got);
}

#[test]
fn imu_sample_accessors() {
    let packet = imu::Packet {
        linear_acceleration_x: 1,
        linear_acceleration_y: 2,
        linear_acceleration_z: 3,
        angular_velocity_x: 4,
        angular_velocity_y: 5,
        angular_velocity_z: 6,
        ..imu::Packet::default()
    };
    assert_eq!(packet.linear_acceleration(), [1, 2, 3]);
    assert_eq!(packet.angular_velocity(), [4, 5, 6]);
}
