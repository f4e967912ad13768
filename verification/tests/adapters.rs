use oyster::capture::{
    build_capture_header, build_capture_record, nanos_to_timeval, parse_capture, Timeval,
};
use oyster::frame::{build_ipv4_udp_packet, classify_source, parse_frame, route_frame, SocketAddressV4};
use oyster::bag::BagDemux;
use oyster::pipeline::{Client, PacketKind, RecvOutcome, SendOutcome};

#[test]
fn nanos_to_timeval_splits_exactly() {
    let tv = nanos_to_timeval(1_234_567_891_234);
    assert_eq!(tv, Timeval { tv_sec: 1234, tv_usec: 567_891 });
    assert_eq!(nanos_to_timeval(0), Timeval { tv_sec: 0, tv_usec: 0 });
    assert_eq!(nanos_to_timeval(999), Timeval { tv_sec: 0, tv_usec: 0 });
}

/// Recompute a ones'-complement sum over big-endian words, checksum
/// field included: a correct header sums to 0xFFFF.
fn ones_complement_total(bytes: &[u8]) -> u16 {
    let mut sum: u64 = 0;
    let mut i = 0;
    while i < bytes.len() {
        let hi = bytes[i] as u64;
        let lo = if i + 1 < bytes.len() { bytes[i + 1] as u64 } else { 0 };
        sum += (hi << 8) | lo;
        i += 2;
    }
    while sum > 0xFFFF {
        sum = (sum >> 16) + (sum & 0xFFFF);
    }
    sum as u16
}

#[test]
fn frame_build_then_parse_round_trips() {
    let payload = vec![1u8, 2, 3, 4, 5];
    let source = SocketAddressV4::new(192, 168, 1, 10, 7502);
    let dest = SocketAddressV4::new(10, 0, 0, 1, 7502);
    let frame = build_ipv4_udp_packet(payload.clone(), source, dest);
    assert_eq!(frame.len(), 14 + 20 + 8 + payload.len());

    // The IPv4 header checksum verifies.
    assert_eq!(ones_complement_total(&frame[14..34]), 0xFFFF);

    let (got_source, got_payload) = parse_frame(&frame).expect("a built frame must parse");
    assert_eq!(got_source, source);
    assert_eq!(got_payload, payload);
}

#[test]
fn parse_frame_rejects_non_ipv4() {
    let mut frame = build_ipv4_udp_packet(vec![1, 2, 3], SocketAddressV4::new(1, 2, 3, 4, 5), SocketAddressV4::new(6, 7, 8, 9, 10));
    frame[12] = 0x86; // not the IPv4 ethertype
    assert!(parse_frame(&frame).is_none());
    assert!(parse_frame(&[0u8; 10]).is_none());
}

#[test]
fn classify_prefers_lidar_then_imu() {
    let lidar = SocketAddressV4::new(192, 168, 1, 10, 7502);
    let imu = SocketAddressV4::new(192, 168, 1, 10, 7503);
    let other = SocketAddressV4::new(10, 0, 0, 9, 9999);
    assert_eq!(classify_source(lidar, lidar, imu), Some(PacketKind::Lidar));
    assert_eq!(classify_source(imu, lidar, imu), Some(PacketKind::Imu));
    assert_eq!(classify_source(other, lidar, imu), None);
    // When both configured addresses coincide, LIDAR wins.
    assert_eq!(classify_source(lidar, lidar, lidar), Some(PacketKind::Lidar));
}

// Demultiplexing: a trace with frames from three distinct sources
// yields exactly the matching frames to their respective queues; the
// third is dropped silently.

#[test]
fn demultiplexing_three_sources() {
    let lidar_addr = SocketAddressV4::new(192, 168, 1, 10, 7502);
    let imu_addr = SocketAddressV4::new(192, 168, 1, 10, 7503);
    let other_addr = SocketAddressV4::new(10, 0, 0, 9, 9999);
    let dest = SocketAddressV4::new(10, 0, 0, 1, 7502);

    let lidar_payload = vec![0x11, 0x11];
    let imu_payload = vec![0x22, 0x22, 0x22];
    let other_payload = vec![0x33];

    // A capture trace of three frames.
    let mut trace = build_capture_header();
    for (addr, payload) in [
        (lidar_addr, lidar_payload.clone()),
        (imu_addr, imu_payload.clone()),
        (other_addr, other_payload.clone()),
    ] {
        let frame = build_ipv4_udp_packet(payload, addr, dest);
        let record = build_capture_record(nanos_to_timeval(1_000_000_000), &frame);
        trace.extend_from_slice(&record);
    }

    // Replay: every record's frame comes back out in order.
    let frames = parse_capture(&trace).expect("the trace must replay");
    assert_eq!(frames.len(), 3);

    // Route each frame; unrecognized sources are dropped silently.
    let mut client = Client::new();
    client.lidar_channel_or_new();
    client.imu_channel_or_new();
    for frame in &frames {
        if let Some(datagram) = route_frame(frame, lidar_addr, imu_addr) {
            assert!(matches!(client.send(datagram.kind, datagram.payload), SendOutcome::Sent));
        }
    }

    match client.recv(PacketKind::Lidar) {
        RecvOutcome::Item(p) => assert_eq!(p, lidar_payload),
        _ => panic!("the LIDAR frame was expected"),
    }
    assert!(matches!(client.recv(PacketKind::Lidar), RecvOutcome::Empty));
    match client.recv(PacketKind::Imu) {
        RecvOutcome::Item(p) => assert_eq!(p, imu_payload),
        _ => panic!("the IMU frame was expected"),
    }
    assert!(matches!(client.recv(PacketKind::Imu), RecvOutcome::Empty));
}

#[test]
fn capture_drops_truncated_trailing_record() {
    let frame = vec![9u8; 40];
    let mut trace = build_capture_header();
    trace.extend_from_slice(&build_capture_record(Timeval { tv_sec: 1, tv_usec: 2 }, &frame));
    // A second record cut short mid-frame.
    let partial = build_capture_record(Timeval { tv_sec: 3, tv_usec: 4 }, &frame);
    trace.extend_from_slice(&partial[..partial.len() - 1]);

    let frames = parse_capture(&trace).expect("the trace must replay");
    assert_eq!(frames.len(), 1);
    assert_eq!(frames[0], frame);
}

#[test]
fn capture_rejects_foreign_magic() {
    let mut trace = build_capture_header();
    trace[0] = 0x00;
    assert!(parse_capture(&trace).is_err());
}

#[test]
fn bag_demux_forwards_only_the_lidar_topic() {
    let mut demux = BagDemux::new(
        String::from("/ouster/lidar_packets"),
        String::from("/ouster/imu_packets"),
    );
    // Nothing resolved yet: no record is forwarded.
    assert_eq!(demux.on_message(7), None);

    demux.on_connection(&String::from("/ouster/lidar_packets"), 7);
    demux.on_connection(&String::from("/ouster/imu_packets"), 8);
    demux.on_connection(&String::from("/tf"), 9);

    assert_eq!(demux.on_message(7), Some(PacketKind::Lidar));
    // The IMU topic resolves but its records are not forwarded.
    assert_eq!(demux.on_message(8), None);
    assert_eq!(demux.on_message(9), None);
}
