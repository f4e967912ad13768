//! Return-block codec for the dual-return profile
//! (`RNG19_RFL8_SIG16_NIR16_DUAL`, 16 bytes per block).
//!
//! Wire layout, little-endian words: two 32-bit words each packing a
//! 19-bit range (mask `0xFFFF_E000`, shift 13) with an 8-bit
//! reflectivity in the low byte, two 16-bit signal fields, one shared
//! 16-bit near-infrared and a 16-bit reserved span, written as zero on
//! encode.

use crate::packing::{
    lemma_u16_le_round, lemma_u32_le_round, read_u16_le, read_u32_le, spliced, u16_le_bytes,
    u16_le_spec, u32_le_bytes, u32_le_spec, write_u16_le, write_u32_le, PackingError,
};
use vstd::arithmetic::div_mod::{lemma_div_multiples_vanish_fancy, lemma_mod_multiples_vanish};
use vstd::prelude::*;

verus! {

/// Largest value of either 19-bit range field.
pub const MAX_RANGE: u32 = 0x7FFFF;

/// True when `range` fits the 19-bit range fields of this profile.
pub fn valid_range(range: u32) -> (r: bool)
    ensures
        r == (range <= 0x7FFFF),
{
    range <= MAX_RANGE
}

/// One decoded dual-return measurement block: two ranked detections
/// plus the shared near-infrared photons.
#[derive(Debug, PartialEq, Eq, Clone, Structural)]
pub struct DualReturnBlock {
    /// Range of the first detection; must fit 19 bits to encode.
    pub range: u32,
    /// Reflectivity of the first detection.
    pub reflectivity: u8,
    /// Range of the second detection; must fit 19 bits to encode.
    pub range2: u32,
    /// Reflectivity of the second detection.
    pub reflectivity2: u8,
    /// Signal photons of the first detection.
    pub signal: u16,
    /// Signal photons of the second detection.
    pub signal2: u16,
    /// Near-infrared photons, shared by both detections.
    pub near_ir: u16,
}

/// The 32-bit word packing one range/reflectivity pair.
pub open spec fn rr_word_spec(range: u32, reflectivity: u8) -> u32
    recommends
        range <= 0x7FFFF,
{
    (reflectivity + range * 0x2000) as u32
}

/// Law: both fields come back out of a packed range/reflectivity word.
pub proof fn lemma_rr_word_round(range: u32, reflectivity: u8)
    requires
        range <= 0x7FFFF,
    ensures
        rr_word_spec(range, reflectivity) / 0x2000 == range,
        rr_word_spec(range, reflectivity) % 0x100 == reflectivity,
{
    let w = rr_word_spec(range, reflectivity) as int;
    lemma_div_multiples_vanish_fancy(range as int, reflectivity as int, 0x2000);
    assert(0x2000 * (range as int) == 0x100 * (32 * (range as int))) by (nonlinear_arith);
    lemma_mod_multiples_vanish(32 * (range as int), reflectivity as int, 0x100);
}

impl DualReturnBlock {
    /// Width in bytes of one encoded block.
    pub const WIDTH: usize = 16;

    /// Construct a block from its fields.
    pub fn new(
        range: u32,
        reflectivity: u8,
        range2: u32,
        reflectivity2: u8,
        signal: u16,
        signal2: u16,
        near_ir: u16,
    ) -> (r: Self)
        ensures
            r == (DualReturnBlock {
                range,
                reflectivity,
                range2,
                reflectivity2,
                signal,
                signal2,
                near_ir,
            }),
    {
        DualReturnBlock { range, reflectivity, range2, reflectivity2, signal, signal2, near_ir }
    }

    /// True when every bit-packed field fits its declared width.
    pub open spec fn valid(self) -> bool {
        self.range <= 0x7FFFF && self.range2 <= 0x7FFFF
    }

    /// The 16 bytes of the encoded block.
    pub open spec fn wire_spec(self) -> Seq<u8>
        recommends
            self.valid(),
    {
        u32_le_bytes(rr_word_spec(self.range, self.reflectivity)) + u32_le_bytes(
            rr_word_spec(self.range2, self.reflectivity2),
        ) + u16_le_bytes(self.signal) + u16_le_bytes(self.signal2) + u16_le_bytes(self.near_ir)
            + seq![0u8, 0u8]
    }

    /// The block stored in the 16 bytes of `s`.
    pub open spec fn block_of(s: Seq<u8>) -> Self
        recommends
            s.len() == 16,
    {
        DualReturnBlock {
            range: (u32_le_spec(s.subrange(0, 4)) / 0x2000) as u32,
            reflectivity: (u32_le_spec(s.subrange(0, 4)) % 0x100) as u8,
            range2: (u32_le_spec(s.subrange(4, 8)) / 0x2000) as u32,
            reflectivity2: (u32_le_spec(s.subrange(4, 8)) % 0x100) as u8,
            signal: u16_le_spec(s.subrange(8, 10)),
            signal2: u16_le_spec(s.subrange(10, 12)),
            near_ir: u16_le_spec(s.subrange(12, 14)),
        }
    }

    /// Decode the block stored in the 16 bytes of `b` starting at
    /// `off`.  Rejects only a buffer too short for the block.
    pub fn decode(b: &[u8], off: usize) -> (r: Result<Self, PackingError>)
        ensures
            off + 16 <= b@.len() ==> r == Ok::<Self, PackingError>(
                Self::block_of(b@.subrange(off as int, off + 16)),
            ),
            off + 16 > b@.len() ==> r == Err::<Self, PackingError>(PackingError::TruncatedInput),
    {
        let n = b.len();
        if n < 16 || off > n - 16 {
            return Err(PackingError::TruncatedInput);
        }
        let word = read_u32_le(b, off);
        let word2 = read_u32_le(b, off + 4);
        let signal = read_u16_le(b, off + 8);
        let signal2 = read_u16_le(b, off + 10);
        let near_ir = read_u16_le(b, off + 12);
        proof {
            let s = b@.subrange(off as int, off + 16);
            assert(b@.subrange(off as int, off + 4) =~= s.subrange(0, 4));
            assert(b@.subrange(off + 4, off + 8) =~= s.subrange(4, 8));
            assert(b@.subrange(off + 8, off + 10) =~= s.subrange(8, 10));
            assert(b@.subrange(off + 10, off + 12) =~= s.subrange(10, 12));
            assert(b@.subrange(off + 12, off + 14) =~= s.subrange(12, 14));
        }
        Ok(
            DualReturnBlock {
                range: word / 0x2000,
                reflectivity: (word % 0x100) as u8,
                range2: word2 / 0x2000,
                reflectivity2: (word2 % 0x100) as u8,
                signal,
                signal2,
                near_ir,
            },
        )
    }

    /// Encode the block into the 16 bytes of `buf` starting at `off`.
    /// Succeeds exactly when both ranges fit their 19 bits; on failure
    /// nothing is written.
    pub fn encode(&self, buf: &mut Vec<u8>, off: usize) -> (r: Result<(), PackingError>)
        requires
            off + 16 <= old(buf).len(),
        ensures
            self.valid() ==> r == Ok::<(), PackingError>(()) && final(buf)@ == spliced(
                old(buf)@,
                off as int,
                self.wire_spec(),
            ),
            !self.valid() ==> r == Err::<(), PackingError>(PackingError::FieldOverflow)
                && final(buf)@ == old(buf)@,
    {
        if !valid_range(self.range) || !valid_range(self.range2) {
            return Err(PackingError::FieldOverflow);
        }
        write_u32_le(buf, off, self.reflectivity as u32 + self.range * 0x2000);
        write_u32_le(buf, off + 4, self.reflectivity2 as u32 + self.range2 * 0x2000);
        write_u16_le(buf, off + 8, self.signal);
        write_u16_le(buf, off + 10, self.signal2);
        write_u16_le(buf, off + 12, self.near_ir);
        buf[off + 14] = 0;
        buf[off + 15] = 0;
        proof {
            assert(buf@ =~= spliced(old(buf)@, off as int, self.wire_spec()));
        }
        Ok(())
    }

    /// Law: decoding an encoded in-range block recovers the block
    /// exactly, both detections included.
    pub proof fn lemma_round_trip(b: DualReturnBlock)
        requires
            b.valid(),
        ensures
            Self::block_of(b.wire_spec()) == b,
    {
        let w = b.wire_spec();
        assert(w.subrange(0, 4) =~= u32_le_bytes(rr_word_spec(b.range, b.reflectivity)));
        assert(w.subrange(4, 8) =~= u32_le_bytes(rr_word_spec(b.range2, b.reflectivity2)));
        assert(w.subrange(8, 10) =~= u16_le_bytes(b.signal));
        assert(w.subrange(10, 12) =~= u16_le_bytes(b.signal2));
        assert(w.subrange(12, 14) =~= u16_le_bytes(b.near_ir));
        lemma_u32_le_round(rr_word_spec(b.range, b.reflectivity));
        lemma_u32_le_round(rr_word_spec(b.range2, b.reflectivity2));
        lemma_u16_le_round(b.signal);
        lemma_u16_le_round(b.signal2);
        lemma_u16_le_round(b.near_ir);
        lemma_rr_word_round(b.range, b.reflectivity);
        lemma_rr_word_round(b.range2, b.reflectivity2);
    }
}

impl Default for DualReturnBlock {
    /// The all-zero block.
    fn default() -> (r: Self)
        ensures
            r == (DualReturnBlock {
                range: 0,
                reflectivity: 0,
                range2: 0,
                reflectivity2: 0,
                signal: 0,
                signal2: 0,
                near_ir: 0,
            }),
    {
        DualReturnBlock {
            range: 0,
            reflectivity: 0,
            range2: 0,
            reflectivity2: 0,
            signal: 0,
            signal2: 0,
            near_ir: 0,
        }
    }
}

} // verus!
