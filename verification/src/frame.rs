//! Ethernet/IPv4/UDP framing: exactly as deep as the capture-file
//! adapter parses a replayed network trace, and the inverse framing the
//! capture writer uses to wrap a raw datagram back into a frame.
//!
//! Parsing recovers a frame's source socket address and UDP payload and
//! nothing deeper; payload content is never inspected.  Classification
//! compares the source address against the two caller-supplied
//! addresses; frames from unrecognized sources are dropped silently.

use crate::packing::{read_u16_be, read_u32_be, u16_be_bytes, u16_be_spec, u32_be_bytes, u32_be_spec};
use crate::pipeline::{PacketKind, RawDatagram};
use vstd::prelude::*;

verus! {

/// An IPv4 socket address: the address as one big-endian number and
/// the port.
#[derive(Debug, PartialEq, Eq, Copy, Clone, Structural)]
pub struct SocketAddressV4 {
    /// The IPv4 address, most significant octet first.
    pub ip: u32,
    /// The UDP port.
    pub port: u16,
}

impl SocketAddressV4 {
    /// The address `a.b.c.d:port`.
    pub fn new(a: u8, b: u8, c: u8, d: u8, port: u16) -> (r: Self)
        ensures
            r.ip == d + 0x100 * (c + 0x100 * (b + 0x100 * a)),
            r.port == port,
    {
        let ip = (d as u32) + 0x100 * ((c as u32) + 0x100 * ((b as u32) + 0x100 * (a as u32)));
        SocketAddressV4 { ip, port }
    }
}

/// The sum of the big-endian 16-bit words of `s` from index `i` on, an
/// odd trailing byte padded with zero.
pub open spec fn word_sum(s: Seq<u8>, i: int) -> int
    decreases s.len() - i,
{
    if i < 0 || i >= s.len() {
        0
    } else if i + 1 < s.len() {
        s[i] * 0x100 + s[i + 1] + word_sum(s, i + 2)
    } else {
        s[i] * 0x100
    }
}

/// End-around-carry folding of a ones'-complement sum into 16 bits.
pub open spec fn fold16(x: int) -> int
    recommends
        x >= 0,
    decreases x,
{
    if x > 0xFFFF {
        fold16(x / 0x10000 + x % 0x10000)
    } else {
        x
    }
}

/// The ones'-complement checksum of `s`, as written into IPv4 and UDP
/// headers.
pub open spec fn checksum_spec(s: Seq<u8>) -> u16 {
    (0xFFFF - fold16(word_sum(s, 0))) as u16
}

/// A zero UDP checksum means "not computed", so a computed zero is
/// transmitted as `0xFFFF`.
pub open spec fn udp_checksum_adjusted(s: Seq<u8>) -> u16 {
    if checksum_spec(s) == 0 {
        0xFFFF
    } else {
        checksum_spec(s)
    }
}

/// Compute the ones'-complement checksum of `b`.
pub fn checksum16(b: &[u8]) -> (r: u16)
    requires
        b@.len() <= 0x20000,
    ensures
        r == checksum_spec(b@),
{
    let n = b.len();
    let mut sum: u64 = 0;
    let mut i: usize = 0;
    while i < n
        invariant
            n == b@.len(),
            n <= 0x20000,
            i <= n,
            sum <= (i as int) * 0xFFFF,
            sum + word_sum(b@, i as int) == word_sum(b@, 0),
        decreases n - i,
    {
        if i + 1 < n {
            sum = sum + 0x100 * (b[i] as u64) + (b[i + 1] as u64);
            i = i + 2;
        } else {
            sum = sum + 0x100 * (b[i] as u64);
            i = i + 1;
        }
    }
    let mut x: u64 = sum;
    while x > 0xFFFF
        invariant
            fold16(x as int) == fold16(word_sum(b@, 0)),
        decreases x,
    {
        x = x / 0x10000 + x % 0x10000;
    }
    0xFFFF - (x as u16)
}

/// The 14-byte Ethernet header the capture writer emits: broadcast
/// destination, zero source, IPv4 ethertype.
pub open spec fn eth_header_spec() -> Seq<u8> {
    seq![
        0xFFu8,
        0xFFu8,
        0xFFu8,
        0xFFu8,
        0xFFu8,
        0xFFu8,
        0u8,
        0u8,
        0u8,
        0u8,
        0u8,
        0u8,
        0x08u8,
        0x00u8,
    ]
}

/// The 20-byte IPv4 header with its checksum field still zero:
/// version 4, header length 5 words, total length `28 + len`, time to
/// live 64, UDP protocol, and the two addresses.
pub open spec fn ipv4_header_zerock_spec(len: int, src: u32, dst: u32) -> Seq<u8>
    recommends
        0 <= len <= 0xFFD7,
{
    seq![0x45u8, 0u8] + u16_be_bytes((28 + len) as u16) + seq![0u8, 0u8, 0u8, 0u8, 64u8, 17u8, 0u8, 0u8]
        + u32_be_bytes(src) + u32_be_bytes(dst)
}

/// The 20-byte IPv4 header, checksum filled in.
pub open spec fn ipv4_header_spec(len: int, src: u32, dst: u32) -> Seq<u8> {
    let zero = ipv4_header_zerock_spec(len, src, dst);
    let ck = checksum_spec(zero);
    zero.update(10, (ck / 0x100) as u8).update(11, (ck % 0x100) as u8)
}

/// The input of the UDP checksum: the IPv4 pseudo-header, the UDP
/// header with a zero checksum field, and the payload.
pub open spec fn udp_checksum_input_spec(
    payload: Seq<u8>,
    source: SocketAddressV4,
    dest: SocketAddressV4,
) -> Seq<u8> {
    u32_be_bytes(source.ip) + u32_be_bytes(dest.ip) + seq![0u8, 17u8] + u16_be_bytes(
        (8 + payload.len()) as u16,
    ) + u16_be_bytes(source.port) + u16_be_bytes(dest.port) + u16_be_bytes(
        (8 + payload.len()) as u16,
    ) + seq![0u8, 0u8] + payload
}

/// The 8-byte UDP header: ports, length `8 + len`, checksum.
pub open spec fn udp_header_spec(
    payload: Seq<u8>,
    source: SocketAddressV4,
    dest: SocketAddressV4,
) -> Seq<u8> {
    u16_be_bytes(source.port) + u16_be_bytes(dest.port) + u16_be_bytes((8 + payload.len()) as u16)
        + u16_be_bytes(udp_checksum_adjusted(udp_checksum_input_spec(payload, source, dest)))
}

/// One whole frame as the capture writer emits it: Ethernet, IPv4,
/// UDP, payload.
pub open spec fn frame_wire_spec(
    payload: Seq<u8>,
    source: SocketAddressV4,
    dest: SocketAddressV4,
) -> Seq<u8> {
    eth_header_spec() + ipv4_header_spec(payload.len() as int, source.ip, dest.ip)
        + udp_header_spec(payload, source, dest) + payload
}

/// Append the two big-endian bytes of `v`.
fn push_u16_be(buf: &mut Vec<u8>, v: u16)
    ensures
        final(buf)@ == old(buf)@ + u16_be_bytes(v),
{
    buf.push((v / 0x100) as u8);
    buf.push((v % 0x100) as u8);
    proof {
        assert(buf@ =~= old(buf)@ + u16_be_bytes(v));
    }
}

/// Append the four big-endian bytes of `v`.
fn push_u32_be(buf: &mut Vec<u8>, v: u32)
    ensures
        final(buf)@ == old(buf)@ + u32_be_bytes(v),
{
    buf.push((v / 0x1000000) as u8);
    buf.push(((v / 0x10000) % 0x100) as u8);
    buf.push(((v / 0x100) % 0x100) as u8);
    buf.push((v % 0x100) as u8);
    proof {
        assert(buf@ =~= old(buf)@ + u32_be_bytes(v));
    }
}

/// Wrap one raw datagram into an Ethernet/IPv4/UDP frame from `source`
/// to `dest`, both checksums computed, for writing back to a capture
/// file.
#[verifier::rlimit(50)]
pub fn build_ipv4_udp_packet(payload: Vec<u8>, source: SocketAddressV4, dest: SocketAddressV4) -> (r:
    Vec<u8>)
    requires
        payload@.len() <= 0xFFD7,
    ensures
        r@ == frame_wire_spec(payload@, source, dest),
{
    let len = payload.len();

    // IPv4 header, checksum computed over itself with the field zero.
    let mut ip: Vec<u8> = Vec::new();
    ip.push(0x45);
    ip.push(0);
    push_u16_be(&mut ip, 28 + len as u16);
    ip.push(0);
    ip.push(0);
    ip.push(0);
    ip.push(0);
    ip.push(64);
    ip.push(17);
    ip.push(0);
    ip.push(0);
    push_u32_be(&mut ip, source.ip);
    push_u32_be(&mut ip, dest.ip);
    proof {
        assert(ip@ =~= ipv4_header_zerock_spec(len as int, source.ip, dest.ip));
    }
    let ip_ck = checksum16(ip.as_slice());
    ip[10] = (ip_ck / 0x100) as u8;
    ip[11] = (ip_ck % 0x100) as u8;
    proof {
        assert(ip@ =~= ipv4_header_spec(len as int, source.ip, dest.ip));
    }

    // UDP checksum over the pseudo-header, the zero-checksum UDP
    // header and the payload.
    let mut ck_input: Vec<u8> = Vec::new();
    push_u32_be(&mut ck_input, source.ip);
    push_u32_be(&mut ck_input, dest.ip);
    ck_input.push(0);
    ck_input.push(17);
    push_u16_be(&mut ck_input, 8 + len as u16);
    push_u16_be(&mut ck_input, source.port);
    push_u16_be(&mut ck_input, dest.port);
    push_u16_be(&mut ck_input, 8 + len as u16);
    ck_input.push(0);
    ck_input.push(0);
    ck_input.extend_from_slice(payload.as_slice());
    proof {
        assert(ck_input@ =~= udp_checksum_input_spec(payload@, source, dest));
    }
    let raw_ck = checksum16(ck_input.as_slice());
    let udp_ck = if raw_ck == 0 {
        0xFFFF
    } else {
        raw_ck
    };

    // Assemble the frame.
    let mut frame: Vec<u8> = Vec::new();
    let mut i: usize = 0;
    while i < 6
        invariant
            i <= 6,
            frame@ =~= Seq::new(i as nat, |j: int| 0xFFu8),
        decreases 6 - i,
    {
        frame.push(0xFF);
        i = i + 1;
    }
    let mut i: usize = 0;
    while i < 6
        invariant
            i <= 6,
            frame@ =~= Seq::new(6, |j: int| 0xFFu8) + Seq::new(i as nat, |j: int| 0u8),
        decreases 6 - i,
    {
        frame.push(0);
        i = i + 1;
    }
    frame.push(0x08);
    frame.push(0x00);
    proof {
        assert(frame@ =~= eth_header_spec());
    }
    frame.extend_from_slice(ip.as_slice());
    push_u16_be(&mut frame, source.port);
    push_u16_be(&mut frame, dest.port);
    push_u16_be(&mut frame, 8 + len as u16);
    push_u16_be(&mut frame, udp_ck);
    frame.extend_from_slice(payload.as_slice());
    proof {
        assert(frame@ =~= frame_wire_spec(payload@, source, dest));
    }
    frame
}

/// Offset of the UDP header within a frame: the Ethernet header plus
/// the IPv4 header length read from the frame.
pub open spec fn frame_udp_offset(s: Seq<u8>) -> int
    recommends
        s.len() > 14,
{
    14 + (s[14] % 16) * 4
}

/// True when `s` parses as one Ethernet/IPv4/UDP frame: IPv4
/// ethertype, version 4, a plausible header length, and room for the
/// UDP header.
pub open spec fn frame_ok(s: Seq<u8>) -> bool {
    &&& s.len() >= 34
    &&& s[12] == 0x08
    &&& s[13] == 0x00
    &&& s[14] / 16 == 4
    &&& s[14] % 16 >= 5
    &&& s.len() >= frame_udp_offset(s) + 8
    &&& u16_be_spec(s.subrange(frame_udp_offset(s) + 4, frame_udp_offset(s) + 6)) >= 8
}

/// The source socket address of a frame: the IPv4 source address and
/// the UDP source port.
pub open spec fn frame_source_spec(s: Seq<u8>) -> SocketAddressV4
    recommends
        frame_ok(s),
{
    SocketAddressV4 {
        ip: u32_be_spec(s.subrange(26, 30)),
        port: u16_be_spec(s.subrange(frame_udp_offset(s), frame_udp_offset(s) + 2)),
    }
}

/// The UDP payload of a frame: the bytes after the UDP header, up to
/// the UDP length field or the end of the frame, whichever comes
/// first.
pub open spec fn frame_payload_spec(s: Seq<u8>) -> Seq<u8>
    recommends
        frame_ok(s),
{
    let q = frame_udp_offset(s);
    let ulen = u16_be_spec(s.subrange(q + 4, q + 6)) as int;
    let end = if q + ulen <= s.len() {
        q + ulen
    } else {
        s.len() as int
    };
    s.subrange(q + 8, end)
}

/// Parse one frame only as deep as Ethernet/IPv4/UDP framing,
/// recovering its source socket address and UDP payload.  Returns
/// nothing — and never fails louder — on any frame that is not a
/// well-formed UDP-over-IPv4 Ethernet frame.
pub fn parse_frame(b: &[u8]) -> (r: Option<(SocketAddressV4, Vec<u8>)>)
    ensures
        frame_ok(b@) ==> (r matches Some(p) && p.0 == frame_source_spec(b@) && p.1@
            == frame_payload_spec(b@)),
        !frame_ok(b@) ==> r is None,
{
    let n = b.len();
    if n < 34 {
        return None;
    }
    if !(b[12] == 0x08 && b[13] == 0x00) {
        return None;
    }
    let vihl = b[14];
    if vihl / 16 != 4 {
        return None;
    }
    if vihl % 16 < 5 {
        return None;
    }
    let q = 14 + ((vihl % 16) as usize) * 4;
    if n < q + 8 {
        return None;
    }
    let ulen = read_u16_be(b, q + 4) as usize;
    if ulen < 8 {
        return None;
    }
    let ip = read_u32_be(b, 26);
    let port = read_u16_be(b, q);
    let end = if q + ulen <= n {
        q + ulen
    } else {
        n
    };
    let payload = vstd::slice::slice_to_vec(&b[q + 8..end]);
    Some((SocketAddressV4 { ip, port }, payload))
}

/// Law: a frame the capture writer emits parses back to exactly the
/// source address and payload it was built from.
pub proof fn lemma_frame_round_trip(payload: Seq<u8>, source: SocketAddressV4, dest: SocketAddressV4)
    requires
        payload.len() <= 0xFFD7,
    ensures
        frame_ok(frame_wire_spec(payload, source, dest)),
        frame_source_spec(frame_wire_spec(payload, source, dest)) == source,
        frame_payload_spec(frame_wire_spec(payload, source, dest)) == payload,
{
    let w = frame_wire_spec(payload, source, dest);
    let len = payload.len() as int;
    assert(ipv4_header_zerock_spec(len, source.ip, dest.ip).len() == 20);
    assert(w[14] == 0x45);
    assert(frame_udp_offset(w) == 34);
    assert(w.subrange(38, 40) =~= u16_be_bytes((8 + payload.len()) as u16));
    crate::packing::lemma_u16_be_round((8 + payload.len()) as u16);
    assert(w.subrange(26, 30) =~= u32_be_bytes(source.ip));
    crate::packing::lemma_u32_be_round(source.ip);
    assert(w.subrange(34, 36) =~= u16_be_bytes(source.port));
    crate::packing::lemma_u16_be_round(source.port);
    assert(w.subrange(42, 42 + len) =~= payload);
}

/// Classify a frame's source address against the two caller-supplied
/// addresses: the LIDAR address first, then the IMU address, else no
/// kind at all.  Classification never looks at payload content.
pub fn classify_source(
    source: SocketAddressV4,
    lidar_addr: SocketAddressV4,
    imu_addr: SocketAddressV4,
) -> (r: Option<PacketKind>)
    ensures
        source == lidar_addr ==> r == Some(PacketKind::Lidar),
        source != lidar_addr && source == imu_addr ==> r == Some(PacketKind::Imu),
        source != lidar_addr && source != imu_addr ==> r is None,
{
    if source == lidar_addr {
        Some(PacketKind::Lidar)
    } else if source == imu_addr {
        Some(PacketKind::Imu)
    } else {
        None
    }
}

/// The one demultiplexing decision of the capture-file adapter: parse
/// the frame, classify its source, and hand back the kind and payload
/// of a matching frame.  An unparsable frame and a frame from an
/// unrecognized source are both dropped silently.
pub fn route_frame(
    b: &[u8],
    lidar_addr: SocketAddressV4,
    imu_addr: SocketAddressV4,
) -> (r: Option<RawDatagram>)
    ensures
        !frame_ok(b@) ==> r is None,
        frame_ok(b@) ==> {
            let source = frame_source_spec(b@);
            &&& source == lidar_addr ==> (r matches Some(d) && d.kind == PacketKind::Lidar
                && d.payload@ == frame_payload_spec(b@))
            &&& source != lidar_addr && source == imu_addr ==> (r matches Some(d) && d.kind
                == PacketKind::Imu && d.payload@ == frame_payload_spec(b@))
            &&& source != lidar_addr && source != imu_addr ==> r is None
        },
{
    match parse_frame(b) {
        None => None,
        Some((source, payload)) => match classify_source(source, lidar_addr, imu_addr) {
            None => None,
            Some(kind) => Some(RawDatagram { payload, kind }),
        },
    }
}

} // verus!
