//! The column codec: a 12-byte fixed header (timestamp, measurement
//! id, status word) followed by one return block in the layout chosen
//! by the active profile.
//!
//! The status word carries the validity flag in its high bit; all other
//! bits are reserved and written as zero on encode.  Validity is read
//! from the header alone, never from the return block.

use crate::lidar::block::Block;
use crate::lidar::profile::Profile;
use crate::packing::{
    lemma_u16_le_round, lemma_u64_le_round, read_u16_le, read_u64_le, spliced, u16_le_bytes,
    u16_le_spec, u64_le_bytes, u64_le_spec, write_u16_le, write_u64_le, PackingError,
};
use vstd::prelude::*;

verus! {

/// Validity status of one column, carried in the high bit of the
/// header's 16-bit status word.
#[derive(Debug, PartialEq, Eq, Copy, Clone, Structural)]
pub enum Status {
    /// The column holds a valid measurement (status high bit set).
    Valid,
    /// The column is padding; it still occupies its full byte width
    /// (status high bit clear).
    Invalid,
}

impl Status {
    /// True exactly when the column is marked valid.
    pub fn is_valid(&self) -> (r: bool)
        ensures
            r == (self == Status::Valid),
    {
        *self == Status::Valid
    }

    /// The textual name of the status.
    pub fn display_str(&self) -> (r: &'static str)
        ensures
            self == Status::Valid ==> r@ == "valid"@,
            self == Status::Invalid ==> r@ == "invalid"@,
    {
        match self {
            Status::Valid => "valid",
            Status::Invalid => "invalid",
        }
    }
}

impl Default for Status {
    /// A fresh status is valid.
    fn default() -> (r: Self)
        ensures
            r == Status::Valid,
    {
        Status::Valid
    }
}

/// The 12-byte fixed header of one column.
#[derive(Debug, PartialEq, Eq, Copy, Clone, Structural)]
pub struct Header {
    /// Timestamp of the measurement in nanoseconds.
    pub timestamp: u64,
    /// Rotation-relative column index.
    pub measurement_id: u16,
    /// Validity of the column's measurement.
    pub status: Status,
}

impl Header {
    /// Width in bytes of the encoded header.
    pub const WIDTH: usize = 12;

    /// True exactly when the header marks its column valid.  Reads the
    /// status alone, never the return block.
    pub fn is_valid(&self) -> (r: bool)
        ensures
            r == (self.status == Status::Valid),
    {
        self.status.is_valid()
    }

    /// The 12 bytes of the encoded header: little-endian timestamp and
    /// measurement id, then the status word with the validity flag in
    /// its high bit and every reserved bit zero.
    pub open spec fn wire_spec(self) -> Seq<u8> {
        u64_le_bytes(self.timestamp) + u16_le_bytes(self.measurement_id) + (
        if self.status == Status::Valid {
            seq![0u8, 0x80u8]
        } else {
            seq![0u8, 0u8]
        })
    }

    /// The header stored in the 12 bytes of `s`.  The column is valid
    /// exactly when the status word's high bit is set; the remaining
    /// status bits are reserved and ignored.
    pub open spec fn header_of(s: Seq<u8>) -> Self
        recommends
            s.len() == 12,
    {
        Header {
            timestamp: u64_le_spec(s.subrange(0, 8)),
            measurement_id: u16_le_spec(s.subrange(8, 10)),
            status: if s[11] >= 0x80 {
                Status::Valid
            } else {
                Status::Invalid
            },
        }
    }

    /// Decode the header stored in the 12 bytes of `b` starting at
    /// `off`.  Rejects only a buffer too short for the header.
    pub fn decode(b: &[u8], off: usize) -> (r: Result<Self, PackingError>)
        ensures
            off + 12 <= b@.len() ==> r == Ok::<Self, PackingError>(
                Self::header_of(b@.subrange(off as int, off + 12)),
            ),
            off + 12 > b@.len() ==> r == Err::<Self, PackingError>(PackingError::TruncatedInput),
    {
        let n = b.len();
        if n < 12 || off > n - 12 {
            return Err(PackingError::TruncatedInput);
        }
        let timestamp = read_u64_le(b, off);
        let measurement_id = read_u16_le(b, off + 8);
        let status = if b[off + 11] >= 0x80 {
            Status::Valid
        } else {
            Status::Invalid
        };
        proof {
            let s = b@.subrange(off as int, off + 12);
            assert(b@.subrange(off as int, off + 8) =~= s.subrange(0, 8));
            assert(b@.subrange(off + 8, off + 10) =~= s.subrange(8, 10));
        }
        Ok(Header { timestamp, measurement_id, status })
    }

    /// Encode the header into the 12 bytes of `buf` starting at `off`.
    /// Every header value encodes; reserved status bits are written as
    /// zero and the rest of the buffer is untouched.
    pub fn encode(&self, buf: &mut Vec<u8>, off: usize)
        requires
            off + 12 <= old(buf).len(),
        ensures
            final(buf)@ == spliced(old(buf)@, off as int, self.wire_spec()),
    {
        write_u64_le(buf, off, self.timestamp);
        write_u16_le(buf, off + 8, self.measurement_id);
        buf[off + 10] = 0;
        buf[off + 11] = if self.status.is_valid() {
            0x80
        } else {
            0
        };
        proof {
            assert(buf@ =~= spliced(old(buf)@, off as int, self.wire_spec()));
        }
    }

    /// Law: decoding an encoded header recovers it exactly.
    pub proof fn lemma_round_trip(h: Header)
        ensures
            Self::header_of(h.wire_spec()) == h,
    {
        let w = h.wire_spec();
        assert(w.subrange(0, 8) =~= u64_le_bytes(h.timestamp));
        assert(w.subrange(8, 10) =~= u16_le_bytes(h.measurement_id));
        lemma_u64_le_round(h.timestamp);
        lemma_u16_le_round(h.measurement_id);
    }
}

impl Default for Header {
    /// A zeroed header marked valid.
    fn default() -> (r: Self)
        ensures
            r == (Header { timestamp: 0, measurement_id: 0, status: Status::Valid }),
    {
        Header { timestamp: 0, measurement_id: 0, status: Status::Valid }
    }
}

/// One LIDAR measurement slot within a packet: a header and one return
/// block.
#[derive(Debug, PartialEq, Eq, Clone, Structural)]
pub struct Column {
    /// The column's fixed 12-byte header.
    pub header: Header,
    /// The column's measurement block, in the active profile's layout.
    pub block: Block,
}

/// Width in bytes of one encoded column under `profile`: the fixed
/// header plus the profile's block.
pub open spec fn column_width_spec(profile: Profile) -> int {
    12 + profile.block_width_spec()
}

impl Column {
    /// True exactly when the column is marked valid.  Reads only the
    /// header's validity bit, regardless of the return-block contents.
    pub fn is_valid(&self) -> (r: bool)
        ensures
            r == (self.header.status == Status::Valid),
    {
        self.header.is_valid()
    }

    /// True when the column's block can be encoded.
    pub open spec fn valid(self) -> bool {
        self.block.valid()
    }

    /// The encoded bytes of the column: header, then block.
    pub open spec fn wire_spec(self) -> Seq<u8>
        recommends
            self.valid(),
    {
        self.header.wire_spec() + self.block.wire_spec()
    }

    /// The column stored in the `column_width_spec(profile)` bytes of
    /// `s`, under `profile`'s layout.
    pub open spec fn column_of(profile: Profile, s: Seq<u8>) -> Self
        recommends
            profile.has_codec(),
            s.len() == column_width_spec(profile),
    {
        Column {
            header: Header::header_of(s.subrange(0, 12)),
            block: Block::block_of(profile, s.subrange(12, 12 + profile.block_width_spec())),
        }
    }

    /// Decode the column stored at `off` in `b`, under `profile`'s
    /// layout.  Rejects only a buffer too short for the column.
    pub fn decode(profile: Profile, b: &[u8], off: usize) -> (r: Result<Self, PackingError>)
        requires
            profile.has_codec(),
        ensures
            off + column_width_spec(profile) <= b@.len() ==> r == Ok::<Self, PackingError>(
                Self::column_of(profile, b@.subrange(off as int, off + column_width_spec(profile))),
            ),
            off + column_width_spec(profile) > b@.len() ==> r == Err::<Self, PackingError>(
                PackingError::TruncatedInput,
            ),
    {
        let width = 12 + profile.block_width();
        let n = b.len();
        if n < width || off > n - width {
            return Err(PackingError::TruncatedInput);
        }
        let header = match Header::decode(b, off) {
            Ok(h) => h,
            Err(e) => { return Err(e) },
        };
        let block = match Block::decode(profile, b, off + 12) {
            Ok(blk) => blk,
            Err(e) => { return Err(e) },
        };
        proof {
            let s = b@.subrange(off as int, off + column_width_spec(profile));
            assert(b@.subrange(off as int, off + 12) =~= s.subrange(0, 12));
            assert(b@.subrange(off + 12, off + 12 + profile.block_width_spec()) =~= s.subrange(
                12,
                12 + profile.block_width_spec(),
            ));
        }
        Ok(Column { header, block })
    }

    /// Encode the column at `off` in `buf`.  Succeeds exactly when the
    /// block's ranges fit their declared widths; on failure nothing is
    /// written.
    pub fn encode(&self, buf: &mut Vec<u8>, off: usize) -> (r: Result<(), PackingError>)
        requires
            off + 12 + self.block.profile().block_width_spec() <= old(buf).len(),
        ensures
            self.valid() ==> r == Ok::<(), PackingError>(()) && final(buf)@ == spliced(
                old(buf)@,
                off as int,
                self.wire_spec(),
            ),
            !self.valid() ==> r == Err::<(), PackingError>(PackingError::FieldOverflow)
                && final(buf)@ == old(buf)@,
    {
        match self.block.encode(buf, off + 12) {
            Ok(_) => (),
            Err(e) => { return Err(e) },
        }
        self.header.encode(buf, off);
        proof {
            assert(buf@ =~= spliced(old(buf)@, off as int, self.wire_spec()));
        }
        Ok(())
    }

    /// Law: decoding an encoded in-range column recovers it exactly.
    pub proof fn lemma_round_trip(c: Column)
        requires
            c.valid(),
        ensures
            Self::column_of(c.block.profile(), c.wire_spec()) == c,
    {
        let profile = c.block.profile();
        let w = c.wire_spec();
        Block::lemma_wire_width(c.block);
        assert(w.subrange(0, 12) =~= c.header.wire_spec());
        assert(w.subrange(12, 12 + profile.block_width_spec()) =~= c.block.wire_spec());
        Header::lemma_round_trip(c.header);
        Block::lemma_round_trip(c.block);
    }

    /// Law: the decoded header — its validity bit included — depends on
    /// the header bytes alone, never on the return-block contents.
    pub proof fn lemma_validity_isolation(profile: Profile, s1: Seq<u8>, s2: Seq<u8>)
        requires
            profile.has_codec(),
            s1.len() == column_width_spec(profile),
            s2.len() == column_width_spec(profile),
            s1.subrange(0, 12) == s2.subrange(0, 12),
        ensures
            Self::column_of(profile, s1).header == Self::column_of(profile, s2).header,
    {
        assert(s1[11] == s1.subrange(0, 12)[11]);
        assert(s2[11] == s2.subrange(0, 12)[11]);
    }
}

impl Default for Column {
    /// A zeroed single-return column marked valid.
    fn default() -> (r: Self)
        ensures
            r == (Column {
                header: Header { timestamp: 0, measurement_id: 0, status: Status::Valid },
                block: Block::SingleReturn(
                    crate::lidar::single_returns::SingleReturnBlock {
                        range: 0,
                        reflectivity: 0,
                        signal: 0,
                        near_ir: 0,
                    },
                ),
            }),
    {
        Column { header: Header::default(), block: Block::SingleReturn(Default::default()) }
    }
}

} // verus!
