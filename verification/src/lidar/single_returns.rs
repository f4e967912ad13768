//! Return-block codec for the single-return profile
//! (`RNG19_RFL8_SIG16_NIR16`, 12 bytes per block).
//!
//! Wire layout, little-endian words:
//! a 32-bit word holding the 19-bit range in its top bits
//! (mask `0xFFFF_E000`, shift 13), an 8-bit reflectivity, an 8-bit
//! reserved span, a 16-bit signal, a 16-bit near-infrared and a 16-bit
//! reserved span.  Encode writes canonical zero into every reserved
//! span; decode reads only the field bytes, so reserved contents never
//! leak into any field.

use crate::packing::{
    lemma_u16_le_round, lemma_u32_le_round, read_u16_le, read_u32_le, spliced, u16_le_bytes,
    u16_le_spec, u32_le_bytes, u32_le_spec, write_u16_le, write_u32_le, PackingError,
};
use vstd::arithmetic::div_mod::lemma_div_by_multiple;
use vstd::prelude::*;

verus! {

/// Largest value of the 19-bit range field.
pub const MAX_RANGE: u32 = 0x7FFFF;

/// True when `range` fits the 19-bit range field of this profile.
pub fn valid_range(range: u32) -> (r: bool)
    ensures
        r == (range <= 0x7FFFF),
{
    range <= MAX_RANGE
}

/// One decoded single-return measurement block.
#[derive(Debug, PartialEq, Eq, Clone, Structural)]
pub struct SingleReturnBlock {
    /// Detected range; must fit 19 bits to encode.
    pub range: u32,
    /// Calibrated reflectivity of the detection.
    pub reflectivity: u8,
    /// Signal photons of the detection.
    pub signal: u16,
    /// Near-infrared photons of the column.
    pub near_ir: u16,
}

impl SingleReturnBlock {
    /// Width in bytes of one encoded block.
    pub const WIDTH: usize = 12;

    /// True when every bit-packed field fits its declared width.
    pub open spec fn valid(self) -> bool {
        self.range <= 0x7FFFF
    }

    /// The 12 bytes of the encoded block.
    pub open spec fn wire_spec(self) -> Seq<u8>
        recommends
            self.valid(),
    {
        u32_le_bytes((self.range * 0x2000) as u32) + seq![self.reflectivity, 0u8]
            + u16_le_bytes(self.signal) + u16_le_bytes(self.near_ir) + seq![0u8, 0u8]
    }

    /// The block stored in the 12 bytes of `s`.
    pub open spec fn block_of(s: Seq<u8>) -> Self
        recommends
            s.len() == 12,
    {
        SingleReturnBlock {
            range: (u32_le_spec(s.subrange(0, 4)) / 0x2000) as u32,
            reflectivity: s[4],
            signal: u16_le_spec(s.subrange(6, 8)),
            near_ir: u16_le_spec(s.subrange(8, 10)),
        }
    }

    /// Decode the block stored in the 12 bytes of `b` starting at
    /// `off`.  Rejects only a buffer too short for the block.
    pub fn decode(b: &[u8], off: usize) -> (r: Result<Self, PackingError>)
        ensures
            off + 12 <= b@.len() ==> r == Ok::<Self, PackingError>(
                Self::block_of(b@.subrange(off as int, off + 12)),
            ),
            off + 12 > b@.len() ==> r == Err::<Self, PackingError>(PackingError::TruncatedInput),
    {
        let n = b.len();
        if n < 12 || off > n - 12 {
            return Err(PackingError::TruncatedInput);
        }
        let word = read_u32_le(b, off);
        let range = word / 0x2000;
        let reflectivity = b[off + 4];
        let signal = read_u16_le(b, off + 6);
        let near_ir = read_u16_le(b, off + 8);
        proof {
            let s = b@.subrange(off as int, off + 12);
            assert(b@.subrange(off as int, off + 4) =~= s.subrange(0, 4));
            assert(b@.subrange(off + 6, off + 8) =~= s.subrange(6, 8));
            assert(b@.subrange(off + 8, off + 10) =~= s.subrange(8, 10));
        }
        Ok(SingleReturnBlock { range, reflectivity, signal, near_ir })
    }

    /// Encode the block into the 12 bytes of `buf` starting at `off`.
    /// Succeeds exactly when the range fits its 19 bits; on failure
    /// nothing is written.
    pub fn encode(&self, buf: &mut Vec<u8>, off: usize) -> (r: Result<(), PackingError>)
        requires
            off + 12 <= old(buf).len(),
        ensures
            self.valid() ==> r == Ok::<(), PackingError>(()) && final(buf)@ == spliced(
                old(buf)@,
                off as int,
                self.wire_spec(),
            ),
            !self.valid() ==> r == Err::<(), PackingError>(PackingError::FieldOverflow)
                && final(buf)@ == old(buf)@,
    {
        if !valid_range(self.range) {
            return Err(PackingError::FieldOverflow);
        }
        write_u32_le(buf, off, self.range * 0x2000);
        buf[off + 4] = self.reflectivity;
        buf[off + 5] = 0;
        write_u16_le(buf, off + 6, self.signal);
        write_u16_le(buf, off + 8, self.near_ir);
        buf[off + 10] = 0;
        buf[off + 11] = 0;
        proof {
            assert(buf@ =~= spliced(old(buf)@, off as int, self.wire_spec()));
        }
        Ok(())
    }

    /// Law: whatever the destination buffer held before — every byte
    /// set, included — encoding a block into it and decoding that span
    /// recovers the block exactly: no prior contents and no reserved
    /// padding leak into reflectivity, signal or near-infrared.
    pub proof fn lemma_reserved_bit_isolation(b: SingleReturnBlock, orig: Seq<u8>, off: int)
        requires
            b.valid(),
            0 <= off,
            off + 12 <= orig.len(),
        ensures
            Self::block_of(spliced(orig, off, b.wire_spec()).subrange(off, off + 12)) == b,
    {
        crate::packing::lemma_spliced_window(orig, off, b.wire_spec());
        Self::lemma_round_trip(b);
    }

    /// Law: decoding an encoded in-range block recovers the block
    /// exactly; in particular the reserved spans never leak into
    /// reflectivity, signal or near-infrared.
    pub proof fn lemma_round_trip(b: SingleReturnBlock)
        requires
            b.valid(),
        ensures
            Self::block_of(b.wire_spec()) == b,
    {
        let w = b.wire_spec();
        assert(w.subrange(0, 4) =~= u32_le_bytes((b.range * 0x2000) as u32));
        assert(w.subrange(6, 8) =~= u16_le_bytes(b.signal));
        assert(w.subrange(8, 10) =~= u16_le_bytes(b.near_ir));
        lemma_u32_le_round((b.range * 0x2000) as u32);
        lemma_u16_le_round(b.signal);
        lemma_u16_le_round(b.near_ir);
        lemma_div_by_multiple(b.range as int, 0x2000);
    }
}

impl Default for SingleReturnBlock {
    /// The all-zero block.
    fn default() -> (r: Self)
        ensures
            r == (SingleReturnBlock { range: 0, reflectivity: 0, signal: 0, near_ir: 0 }),
    {
        SingleReturnBlock { range: 0, reflectivity: 0, signal: 0, near_ir: 0 }
    }
}

} // verus!
