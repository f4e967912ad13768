//! The capture-file container: the fixed global header and the
//! per-record framing of a stored network trace, and the timestamp
//! arithmetic of the capture writer.
//!
//! Replay walks the records in order and hands each stored frame out
//! whole; a truncated trailing record ends the replay silently.  The
//! writer emits the little-endian microsecond flavour of the format
//! with an Ethernet link type.

use crate::packing::{read_u32_le, u16_le_bytes, u32_le_bytes, u32_le_spec, PackingError};
use vstd::prelude::*;

verus! {

/// A split second: whole seconds and the microseconds within them.
#[derive(Debug, PartialEq, Eq, Copy, Clone, Structural)]
pub struct Timeval {
    /// Whole seconds.
    pub tv_sec: i64,
    /// Microseconds within the second.
    pub tv_usec: i64,
}

/// Split a nanosecond count into whole seconds and microseconds.
pub fn nanos_to_timeval(nanos: u64) -> (r: Timeval)
    ensures
        r.tv_sec == nanos / 1_000_000_000,
        r.tv_usec == (nanos % 1_000_000_000) / 1_000,
{
    let seconds = nanos / 1_000_000_000;
    let microseconds = (nanos % 1_000_000_000) / 1_000;
    Timeval { tv_sec: seconds as i64, tv_usec: microseconds as i64 }
}

/// The 24-byte global header the capture writer emits: little-endian
/// microsecond magic, format version 2.4, no zone offset, a 65535-byte
/// snapshot length and the Ethernet link type.
pub open spec fn capture_header_spec() -> Seq<u8> {
    u32_le_bytes(0xa1b2c3d4) + u16_le_bytes(2) + u16_le_bytes(4) + u32_le_bytes(0) + u32_le_bytes(0)
        + u32_le_bytes(65535) + u32_le_bytes(1)
}

/// True when `s` starts with a supported capture header: the
/// little-endian magic in its microsecond or nanosecond flavour.
pub open spec fn capture_ok(s: Seq<u8>) -> bool {
    s.len() >= 24 && (u32_le_spec(s.subrange(0, 4)) == 0xa1b2c3d4 || u32_le_spec(s.subrange(0, 4))
        == 0xa1b23c4d)
}

/// One stored record: a 16-byte record header (timestamp seconds and
/// sub-seconds, stored length, original length) and the stored frame.
pub open spec fn record_spec(ts_sec: u32, ts_sub: u32, frame: Seq<u8>) -> Seq<u8>
    recommends
        frame.len() <= u32::MAX,
{
    u32_le_bytes(ts_sec) + u32_le_bytes(ts_sub) + u32_le_bytes(frame.len() as u32) + u32_le_bytes(
        frame.len() as u32,
    ) + frame
}

/// The frames stored from `off` on: each complete record's frame in
/// file order, ending at the first incomplete record.
pub open spec fn frames_from(s: Seq<u8>, off: int) -> Seq<Seq<u8>>
    decreases s.len() - off,
{
    if !(0 <= off && off + 16 <= s.len()) {
        Seq::empty()
    } else {
        let n = u32_le_spec(s.subrange(off + 8, off + 12)) as int;
        if off + 16 + n <= s.len() {
            seq![s.subrange(off + 16, off + 16 + n)] + frames_from(s, off + 16 + n)
        } else {
            Seq::empty()
        }
    }
}

/// Emit the global header of a fresh capture file.
pub fn build_capture_header() -> (r: Vec<u8>)
    ensures
        r@ == capture_header_spec(),
        capture_ok(r@),
{
    let mut h: Vec<u8> = Vec::new();
    h.push(0xd4);
    h.push(0xc3);
    h.push(0xb2);
    h.push(0xa1);
    h.push(2);
    h.push(0);
    h.push(4);
    h.push(0);
    h.push(0);
    h.push(0);
    h.push(0);
    h.push(0);
    h.push(0);
    h.push(0);
    h.push(0);
    h.push(0);
    h.push(0xff);
    h.push(0xff);
    h.push(0);
    h.push(0);
    h.push(1);
    h.push(0);
    h.push(0);
    h.push(0);
    proof {
        assert(h@ =~= capture_header_spec());
        assert(capture_header_spec().subrange(0, 4) =~= u32_le_bytes(0xa1b2c3d4));
    }
    h
}

/// Wrap one frame into a record stamped `ts`, ready to append to a
/// capture file.
#[verifier::rlimit(30)]
pub fn build_capture_record(ts: Timeval, frame: &Vec<u8>) -> (r: Vec<u8>)
    requires
        0 <= ts.tv_sec,
        0 <= ts.tv_usec,
        frame@.len() <= u32::MAX,
    ensures
        r@ == record_spec((ts.tv_sec % 0x100000000) as u32, (ts.tv_usec % 0x100000000) as u32, frame@),
{
    let ts_sec = (ts.tv_sec % 0x100000000) as u32;
    let ts_sub = (ts.tv_usec % 0x100000000) as u32;
    let mut r: Vec<u8> = Vec::new();
    push_u32_le(&mut r, ts_sec);
    push_u32_le(&mut r, ts_sub);
    push_u32_le(&mut r, frame.len() as u32);
    push_u32_le(&mut r, frame.len() as u32);
    r.extend_from_slice(frame.as_slice());
    proof {
        assert(r@ =~= record_spec(ts_sec, ts_sub, frame@));
    }
    r
}

/// Append the four little-endian bytes of `v`.
fn push_u32_le(buf: &mut Vec<u8>, v: u32)
    ensures
        final(buf)@ == old(buf)@ + u32_le_bytes(v),
{
    buf.push((v % 0x100) as u8);
    buf.push(((v / 0x100) % 0x100) as u8);
    buf.push(((v / 0x10000) % 0x100) as u8);
    buf.push((v / 0x1000000) as u8);
    proof {
        assert(buf@ =~= old(buf)@ + u32_le_bytes(v));
    }
}

/// Replay a capture file: check the global header, then walk the
/// records in order, handing each complete record's frame out whole.
/// A file without a supported header replays nothing; a truncated
/// trailing record ends the replay silently.
pub fn parse_capture(b: &[u8]) -> (r: Result<Vec<Vec<u8>>, PackingError>)
    ensures
        capture_ok(b@) ==> (r matches Ok(frames) && frames@.len() == frames_from(b@, 24).len()
            && (forall|i: int|
            0 <= i < frames@.len() ==> (#[trigger] frames@[i])@ == frames_from(b@, 24)[i])),
        !capture_ok(b@) ==> r == Err::<Vec<Vec<u8>>, PackingError>(PackingError::TruncatedInput),
{
    let n = b.len();
    if n < 24 {
        return Err(PackingError::TruncatedInput);
    }
    let magic = read_u32_le(b, 0);
    if !(magic == 0xa1b2c3d4 || magic == 0xa1b23c4d) {
        return Err(PackingError::TruncatedInput);
    }
    let mut frames: Vec<Vec<u8>> = Vec::new();
    let ghost total = frames_from(b@, 24);
    let ghost mut done = Seq::<Seq<u8>>::empty();
    let mut off: usize = 24;
    loop
        invariant
            n == b@.len(),
            24 <= off <= n,
            done + frames_from(b@, off as int) == total,
            frames@.len() == done.len(),
            forall|i: int| 0 <= i < done.len() ==> (#[trigger] frames@[i])@ == done[i],
        ensures
            done + frames_from(b@, off as int) == total,
            frames_from(b@, off as int) == Seq::<Seq<u8>>::empty(),
            frames@.len() == done.len(),
            forall|i: int| 0 <= i < done.len() ==> (#[trigger] frames@[i])@ == done[i],
        decreases n - off,
    {
        if n - off < 16 {
            proof {
                assert(frames_from(b@, off as int) =~= Seq::<Seq<u8>>::empty());
            }
            break ;
        }
        let incl_len = read_u32_le(b, off + 8) as usize;
        if n - off - 16 < incl_len {
            proof {
                assert(frames_from(b@, off as int) =~= Seq::<Seq<u8>>::empty());
            }
            break ;
        }
        let frame = vstd::slice::slice_to_vec(&b[off + 16..off + 16 + incl_len]);
        proof {
            done = done.push(frame@);
            assert(done + frames_from(b@, off + 16 + incl_len) =~= total);
        }
        frames.push(frame);
        off = off + 16 + incl_len;
    }
    proof {
        assert(frames_from(b@, off as int) =~= Seq::<Seq<u8>>::empty());
        assert(done =~= total);
    }
    Ok(frames)
}

/// Law: a record written by the capture writer replays as exactly its
/// frame, followed by whatever records come after it.
pub proof fn lemma_record_round_trip(ts_sec: u32, ts_sub: u32, frame: Seq<u8>, rest: Seq<u8>)
    requires
        frame.len() <= u32::MAX,
    ensures
        frames_from(record_spec(ts_sec, ts_sub, frame) + rest, 0) == seq![frame] + frames_from(
            record_spec(ts_sec, ts_sub, frame) + rest,
            16 + frame.len() as int,
        ),
{
    let s = record_spec(ts_sec, ts_sub, frame) + rest;
    assert(s.subrange(8, 12) =~= u32_le_bytes(frame.len() as u32));
    crate::packing::lemma_u32_le_round(frame.len() as u32);
    assert(s.subrange(16, 16 + frame.len() as int) =~= frame);
}

} // verus!
