use oyster::pipeline::{Client, PacketKind, PacketSink, RecvOutcome, SendOutcome, CHANNEL_BUFFER_SIZE};

fn payload(i: usize) -> Vec<u8> {
    vec![i as u8, (i >> 8) as u8, 0xAB]
}

/// Send `n` datagrams into one queue/consumer pair and check that the
/// consumer observes them in send order, with sends reporting a full
/// queue once the capacity is reached.
fn ordering_and_backpressure(n: usize) {
    let capacity = CHANNEL_BUFFER_SIZE;
    let mut queue = PacketSink::new(capacity);

    let mut blocked = Vec::new();
    for i in 0..n {
        match queue.send(payload(i)) {
            SendOutcome::Sent => assert!(i < capacity, "send must block only once full"),
            SendOutcome::Full(returned) => {
                assert!(i >= capacity, "send must not block before the queue is full");
                assert_eq!(returned, payload(i));
                blocked.push(returned);
            }
            SendOutcome::Closed(_) => panic!("the queue is open"),
        }
    }

    // Drain: the consumer observes the accepted datagrams in send order.
    let accepted = n.min(capacity);
    for i in 0..accepted {
        match queue.recv() {
            RecvOutcome::Item(got) => assert_eq!(got, payload(i)),
            _ => panic!("a queued datagram was expected"),
        }
    }

    // A blocked producer retries once there is room again.
    for returned in blocked {
        assert!(matches!(queue.send(returned), SendOutcome::Sent));
    }
    for i in accepted..n {
        match queue.recv() {
            RecvOutcome::Item(got) => assert_eq!(got, payload(i)),
            _ => panic!("a retried datagram was expected"),
        }
    }
    assert!(matches!(queue.recv(), RecvOutcome::Empty));
}

#[test]
fn ordering_one_datagram() {
    ordering_and_backpressure(1);
}

#[test]
fn ordering_capacity_minus_one() {
    ordering_and_backpressure(CHANNEL_BUFFER_SIZE - 1);
}

#[test]
fn ordering_at_capacity() {
    ordering_and_backpressure(CHANNEL_BUFFER_SIZE);
}

#[test]
fn ordering_capacity_plus_one() {
    ordering_and_backpressure(CHANNEL_BUFFER_SIZE + 1);
}

#[test]
fn close_then_drain_then_end_of_stream() {
    let mut queue = PacketSink::new(2);
    assert!(matches!(queue.send(vec![1]), SendOutcome::Sent));
    queue.close();
    assert!(matches!(queue.send(vec![2]), SendOutcome::Closed(_)));
    assert!(matches!(queue.recv(), RecvOutcome::Item(_)));
    assert!(matches!(queue.recv(), RecvOutcome::EndOfStream));
}

#[test]
fn client_lazy_queues_and_routing() {
    let mut client = Client::new();
    client.lidar_channel_or_new();
    client.imu_channel_or_new();
    // A second attach leaves the queue as it is.
    client.lidar_channel_or_new();

    assert!(matches!(client.send(PacketKind::Lidar, vec![1, 2]), SendOutcome::Sent));
    assert!(matches!(client.send(PacketKind::Imu, vec![3]), SendOutcome::Sent));
    assert!(matches!(client.send(PacketKind::Lidar, vec![4]), SendOutcome::Sent));

    // Order is kept within one kind; kinds do not interfere.
    match client.recv(PacketKind::Lidar) {
        RecvOutcome::Item(p) => assert_eq!(p, vec![1, 2]),
        _ => panic!("a LIDAR datagram was expected"),
    }
    match client.recv(PacketKind::Imu) {
        RecvOutcome::Item(p) => assert_eq!(p, vec![3]),
        _ => panic!("an IMU datagram was expected"),
    }
    match client.recv(PacketKind::Lidar) {
        RecvOutcome::Item(p) => assert_eq!(p, vec![4]),
        _ => panic!("a LIDAR datagram was expected"),
    }

    client.close(PacketKind::Lidar);
    assert!(matches!(client.recv(PacketKind::Lidar), RecvOutcome::EndOfStream));
    assert!(matches!(client.recv(PacketKind::Imu), RecvOutcome::Empty));
}
