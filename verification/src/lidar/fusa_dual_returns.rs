//! Return-block codec for the functional-safety dual-return profile
//! (`FUSA_RNG15_RFL8_NIR8_DUAL`, 8 bytes per block).
//!
//! Wire layout, little-endian words: a 16-bit word holding the first
//! 15-bit range in its top bits (mask `0xFFFE`, shift 1), the first
//! reflectivity, the shared near-infrared, a second 16-bit range word,
//! the second reflectivity, and one reserved byte written as zero on
//! encode.

use crate::packing::{
    lemma_u16_le_round, read_u16_le, spliced, u16_le_bytes, u16_le_spec, write_u16_le,
    PackingError,
};
use vstd::arithmetic::div_mod::lemma_div_by_multiple;
use vstd::prelude::*;

verus! {

/// Largest value of either 15-bit range field.
pub const MAX_RANGE: u16 = 0x7FFF;

/// True when `range` fits the 15-bit range fields of this profile.
pub fn valid_range(range: u16) -> (r: bool)
    ensures
        r == (range <= 0x7FFF),
{
    range <= MAX_RANGE
}

/// One decoded functional-safety dual-return measurement block: two
/// ranked detections with a reduced field set.
#[derive(Debug, PartialEq, Eq, Clone, Structural)]
pub struct FuSaDualReturnBlock {
    /// Range of the first detection; must fit 15 bits to encode.
    pub range: u16,
    /// Reflectivity of the first detection.
    pub reflectivity: u8,
    /// Range of the second detection; must fit 15 bits to encode.
    pub range2: u16,
    /// Reflectivity of the second detection.
    pub reflectivity2: u8,
    /// Near-infrared photons, shared by both detections.
    pub near_ir: u8,
}

impl FuSaDualReturnBlock {
    /// Width in bytes of one encoded block.
    pub const WIDTH: usize = 8;

    /// Construct a block from its fields.
    pub fn new(range: u16, reflectivity: u8, range2: u16, reflectivity2: u8, near_ir: u8) -> (r:
        Self)
        ensures
            r == (FuSaDualReturnBlock { range, reflectivity, range2, reflectivity2, near_ir }),
    {
        FuSaDualReturnBlock { range, reflectivity, range2, reflectivity2, near_ir }
    }

    /// True when every bit-packed field fits its declared width.
    pub open spec fn valid(self) -> bool {
        self.range <= 0x7FFF && self.range2 <= 0x7FFF
    }

    /// The 8 bytes of the encoded block.
    pub open spec fn wire_spec(self) -> Seq<u8>
        recommends
            self.valid(),
    {
        u16_le_bytes((self.range * 2) as u16) + seq![self.reflectivity, self.near_ir]
            + u16_le_bytes((self.range2 * 2) as u16) + seq![self.reflectivity2, 0u8]
    }

    /// The block stored in the 8 bytes of `s`.
    pub open spec fn block_of(s: Seq<u8>) -> Self
        recommends
            s.len() == 8,
    {
        FuSaDualReturnBlock {
            range: (u16_le_spec(s.subrange(0, 2)) / 2) as u16,
            reflectivity: s[2],
            range2: (u16_le_spec(s.subrange(4, 6)) / 2) as u16,
            reflectivity2: s[6],
            near_ir: s[3],
        }
    }

    /// Decode the block stored in the 8 bytes of `b` starting at
    /// `off`.  Rejects only a buffer too short for the block.
    pub fn decode(b: &[u8], off: usize) -> (r: Result<Self, PackingError>)
        ensures
            off + 8 <= b@.len() ==> r == Ok::<Self, PackingError>(
                Self::block_of(b@.subrange(off as int, off + 8)),
            ),
            off + 8 > b@.len() ==> r == Err::<Self, PackingError>(PackingError::TruncatedInput),
    {
        let n = b.len();
        if n < 8 || off > n - 8 {
            return Err(PackingError::TruncatedInput);
        }
        let word = read_u16_le(b, off);
        let reflectivity = b[off + 2];
        let near_ir = b[off + 3];
        let word2 = read_u16_le(b, off + 4);
        let reflectivity2 = b[off + 6];
        proof {
            let s = b@.subrange(off as int, off + 8);
            assert(b@.subrange(off as int, off + 2) =~= s.subrange(0, 2));
            assert(b@.subrange(off + 4, off + 6) =~= s.subrange(4, 6));
        }
        Ok(
            FuSaDualReturnBlock {
                range: word / 2,
                reflectivity,
                range2: word2 / 2,
                reflectivity2,
                near_ir,
            },
        )
    }

    /// Encode the block into the 8 bytes of `buf` starting at `off`.
    /// Succeeds exactly when both ranges fit their 15 bits; on failure
    /// nothing is written.
    pub fn encode(&self, buf: &mut Vec<u8>, off: usize) -> (r: Result<(), PackingError>)
        requires
            off + 8 <= old(buf).len(),
        ensures
            self.valid() ==> r == Ok::<(), PackingError>(()) && final(buf)@ == spliced(
                old(buf)@,
                off as int,
                self.wire_spec(),
            ),
            !self.valid() ==> r == Err::<(), PackingError>(PackingError::FieldOverflow)
                && final(buf)@ == old(buf)@,
    {
        if !valid_range(self.range) || !valid_range(self.range2) {
            return Err(PackingError::FieldOverflow);
        }
        write_u16_le(buf, off, self.range * 2);
        buf[off + 2] = self.reflectivity;
        buf[off + 3] = self.near_ir;
        write_u16_le(buf, off + 4, self.range2 * 2);
        buf[off + 6] = self.reflectivity2;
        buf[off + 7] = 0;
        proof {
            assert(buf@ =~= spliced(old(buf)@, off as int, self.wire_spec()));
        }
        Ok(())
    }

    /// Law: decoding an encoded in-range block recovers the block
    /// exactly, both detections included.
    pub proof fn lemma_round_trip(b: FuSaDualReturnBlock)
        requires
            b.valid(),
        ensures
            Self::block_of(b.wire_spec()) == b,
    {
        let w = b.wire_spec();
        assert(w.subrange(0, 2) =~= u16_le_bytes((b.range * 2) as u16));
        assert(w.subrange(4, 6) =~= u16_le_bytes((b.range2 * 2) as u16));
        lemma_u16_le_round((b.range * 2) as u16);
        lemma_u16_le_round((b.range2 * 2) as u16);
        lemma_div_by_multiple(b.range as int, 2);
        lemma_div_by_multiple(b.range2 as int, 2);
    }
}

impl Default for FuSaDualReturnBlock {
    /// The all-zero block.
    fn default() -> (r: Self)
        ensures
            r == (FuSaDualReturnBlock {
                range: 0,
                reflectivity: 0,
                range2: 0,
                reflectivity2: 0,
                near_ir: 0,
            }),
    {
        FuSaDualReturnBlock { range: 0, reflectivity: 0, range2: 0, reflectivity2: 0, near_ir: 0 }
    }
}

} // verus!
