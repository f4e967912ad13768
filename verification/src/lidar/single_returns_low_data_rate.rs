//! Return-block codec for the low-data-rate single-return profile
//! (`RNG15_RFL8_NIR8`, 4 bytes per block).
//!
//! Wire layout, little-endian words: a 16-bit word holding the 15-bit
//! range in its top bits (mask `0xFFFE`, shift 1), an 8-bit
//! reflectivity and an 8-bit near-infrared; there is no signal field.

use crate::packing::{
    lemma_u16_le_round, read_u16_le, spliced, u16_le_bytes, u16_le_spec, write_u16_le,
    PackingError,
};
use vstd::arithmetic::div_mod::lemma_div_by_multiple;
use vstd::prelude::*;

verus! {

/// Largest value of the 15-bit range field.
pub const MAX_RANGE: u16 = 0x7FFF;

/// True when `range` fits the 15-bit range field of this profile.
pub fn valid_range(range: u16) -> (r: bool)
    ensures
        r == (range <= 0x7FFF),
{
    range <= MAX_RANGE
}

/// One decoded low-data-rate single-return measurement block.
#[derive(Debug, PartialEq, Eq, Clone, Structural)]
pub struct SingleLowDataRateReturnBlock {
    /// Detected range; must fit 15 bits to encode.
    pub range: u16,
    /// Calibrated reflectivity of the detection.
    pub reflectivity: u8,
    /// Near-infrared photons of the column.
    pub near_ir: u8,
}

impl SingleLowDataRateReturnBlock {
    /// Width in bytes of one encoded block.
    pub const WIDTH: usize = 4;

    /// Construct a block from its fields.
    pub fn new(range: u16, reflectivity: u8, near_ir: u8) -> (r: Self)
        ensures
            r == (SingleLowDataRateReturnBlock { range, reflectivity, near_ir }),
    {
        SingleLowDataRateReturnBlock { range, reflectivity, near_ir }
    }

    /// True when every bit-packed field fits its declared width.
    pub open spec fn valid(self) -> bool {
        self.range <= 0x7FFF
    }

    /// The 4 bytes of the encoded block.
    pub open spec fn wire_spec(self) -> Seq<u8>
        recommends
            self.valid(),
    {
        u16_le_bytes((self.range * 2) as u16) + seq![self.reflectivity, self.near_ir]
    }

    /// The block stored in the 4 bytes of `s`.
    pub open spec fn block_of(s: Seq<u8>) -> Self
        recommends
            s.len() == 4,
    {
        SingleLowDataRateReturnBlock {
            range: (u16_le_spec(s.subrange(0, 2)) / 2) as u16,
            reflectivity: s[2],
            near_ir: s[3],
        }
    }

    /// Decode the block stored in the 4 bytes of `b` starting at
    /// `off`.  Rejects only a buffer too short for the block.
    pub fn decode(b: &[u8], off: usize) -> (r: Result<Self, PackingError>)
        ensures
            off + 4 <= b@.len() ==> r == Ok::<Self, PackingError>(
                Self::block_of(b@.subrange(off as int, off + 4)),
            ),
            off + 4 > b@.len() ==> r == Err::<Self, PackingError>(PackingError::TruncatedInput),
    {
        let n = b.len();
        if n < 4 || off > n - 4 {
            return Err(PackingError::TruncatedInput);
        }
        let word = read_u16_le(b, off);
        let range = word / 2;
        let reflectivity = b[off + 2];
        let near_ir = b[off + 3];
        proof {
            let s = b@.subrange(off as int, off + 4);
            assert(b@.subrange(off as int, off + 2) =~= s.subrange(0, 2));
        }
        Ok(SingleLowDataRateReturnBlock { range, reflectivity, near_ir })
    }

    /// Encode the block into the 4 bytes of `buf` starting at `off`.
    /// Succeeds exactly when the range fits its 15 bits; on failure
    /// nothing is written.
    pub fn encode(&self, buf: &mut Vec<u8>, off: usize) -> (r: Result<(), PackingError>)
        requires
            off + 4 <= old(buf).len(),
        ensures
            self.valid() ==> r == Ok::<(), PackingError>(()) && final(buf)@ == spliced(
                old(buf)@,
                off as int,
                self.wire_spec(),
            ),
            !self.valid() ==> r == Err::<(), PackingError>(PackingError::FieldOverflow)
                && final(buf)@ == old(buf)@,
    {
        if !valid_range(self.range) {
            return Err(PackingError::FieldOverflow);
        }
        write_u16_le(buf, off, self.range * 2);
        buf[off + 2] = self.reflectivity;
        buf[off + 3] = self.near_ir;
        proof {
            assert(buf@ =~= spliced(old(buf)@, off as int, self.wire_spec()));
        }
        Ok(())
    }

    /// Law: decoding an encoded in-range block recovers the block
    /// exactly.
    pub proof fn lemma_round_trip(b: SingleLowDataRateReturnBlock)
        requires
            b.valid(),
        ensures
            Self::block_of(b.wire_spec()) == b,
    {
        let w = b.wire_spec();
        assert(w.subrange(0, 2) =~= u16_le_bytes((b.range * 2) as u16));
        lemma_u16_le_round((b.range * 2) as u16);
        lemma_div_by_multiple(b.range as int, 2);
    }
}

impl Default for SingleLowDataRateReturnBlock {
    /// The all-zero block.
    fn default() -> (r: Self)
        ensures
            r == (SingleLowDataRateReturnBlock { range: 0, reflectivity: 0, near_ir: 0 }),
    {
        SingleLowDataRateReturnBlock { range: 0, reflectivity: 0, near_ir: 0 }
    }
}

} // verus!
