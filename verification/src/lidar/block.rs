//! The tagged union over the four return-block codecs, selected once
//! per decoding session by the active profile.

use crate::lidar::dual_returns::DualReturnBlock;
use crate::lidar::fusa_dual_returns::FuSaDualReturnBlock;
use crate::lidar::profile::Profile;
use crate::lidar::single_returns::SingleReturnBlock;
use crate::lidar::single_returns_low_data_rate::SingleLowDataRateReturnBlock;
use crate::packing::{spliced, PackingError};
use vstd::prelude::*;

verus! {

/// The measurement block of one column, in the layout of the active
/// profile.
#[derive(Debug, PartialEq, Eq, Clone, Structural)]
pub enum Block {
    /// Dual-return block, 16 bytes.
    DualReturn(DualReturnBlock),
    /// Single-return block, 12 bytes.
    SingleReturn(SingleReturnBlock),
    /// Low-data-rate single-return block, 4 bytes.
    SingleLowDataRateReturn(SingleLowDataRateReturnBlock),
    /// Functional-safety dual-return block, 8 bytes.
    FuSaDualReturn(FuSaDualReturnBlock),
}

impl Block {
    /// The profile whose codec produced or encodes this block.
    pub open spec fn profile(self) -> Profile {
        match self {
            Block::DualReturn(_) => Profile::DualReturns,
            Block::SingleReturn(_) => Profile::SingleReturns,
            Block::SingleLowDataRateReturn(_) => Profile::SingleReturnsLowDataRate,
            Block::FuSaDualReturn(_) => Profile::FuSaTwoWordPixel,
        }
    }

    /// True when every bit-packed field fits its declared width.
    pub open spec fn valid(self) -> bool {
        match self {
            Block::DualReturn(b) => b.valid(),
            Block::SingleReturn(b) => b.valid(),
            Block::SingleLowDataRateReturn(b) => b.valid(),
            Block::FuSaDualReturn(b) => b.valid(),
        }
    }

    /// The encoded bytes of the block, in its profile's fixed width.
    pub open spec fn wire_spec(self) -> Seq<u8>
        recommends
            self.valid(),
    {
        match self {
            Block::DualReturn(b) => b.wire_spec(),
            Block::SingleReturn(b) => b.wire_spec(),
            Block::SingleLowDataRateReturn(b) => b.wire_spec(),
            Block::FuSaDualReturn(b) => b.wire_spec(),
        }
    }

    /// The block stored in the `profile.block_width_spec()` bytes of
    /// `s`, under `profile`'s layout.
    pub open spec fn block_of(profile: Profile, s: Seq<u8>) -> Self
        recommends
            profile.has_codec(),
            s.len() == profile.block_width_spec(),
    {
        match profile {
            Profile::DualReturns => Block::DualReturn(DualReturnBlock::block_of(s)),
            Profile::SingleReturnsLowDataRate => Block::SingleLowDataRateReturn(
                SingleLowDataRateReturnBlock::block_of(s),
            ),
            Profile::FuSaTwoWordPixel => Block::FuSaDualReturn(FuSaDualReturnBlock::block_of(s)),
            _ => Block::SingleReturn(SingleReturnBlock::block_of(s)),
        }
    }

    /// Width in bytes of this block's encoding.
    pub fn width(&self) -> (w: usize)
        ensures
            w == self.profile().block_width_spec(),
    {
        match self {
            Block::DualReturn(_) => 16,
            Block::SingleReturn(_) => 12,
            Block::SingleLowDataRateReturn(_) => 4,
            Block::FuSaDualReturn(_) => 8,
        }
    }

    /// Decode the block stored at `off` in `b`, under `profile`'s
    /// layout.  Rejects only a buffer too short for the block.
    pub fn decode(profile: Profile, b: &[u8], off: usize) -> (r: Result<Self, PackingError>)
        requires
            profile.has_codec(),
        ensures
            off + profile.block_width_spec() <= b@.len() ==> r == Ok::<Self, PackingError>(
                Self::block_of(
                    profile,
                    b@.subrange(off as int, off + profile.block_width_spec()),
                ),
            ),
            off + profile.block_width_spec() > b@.len() ==> r == Err::<Self, PackingError>(
                PackingError::TruncatedInput,
            ),
    {
        match profile {
            Profile::DualReturns => match DualReturnBlock::decode(b, off) {
                Ok(blk) => Ok(Block::DualReturn(blk)),
                Err(e) => Err(e),
            },
            Profile::SingleReturnsLowDataRate => match SingleLowDataRateReturnBlock::decode(
                b,
                off,
            ) {
                Ok(blk) => Ok(Block::SingleLowDataRateReturn(blk)),
                Err(e) => Err(e),
            },
            Profile::FuSaTwoWordPixel => match FuSaDualReturnBlock::decode(b, off) {
                Ok(blk) => Ok(Block::FuSaDualReturn(blk)),
                Err(e) => Err(e),
            },
            _ => match SingleReturnBlock::decode(b, off) {
                Ok(blk) => Ok(Block::SingleReturn(blk)),
                Err(e) => Err(e),
            },
        }
    }

    /// Encode the block at `off` in `buf`, in its profile's layout.
    /// Succeeds exactly when every range fits its declared width; on
    /// failure nothing is written.
    pub fn encode(&self, buf: &mut Vec<u8>, off: usize) -> (r: Result<(), PackingError>)
        requires
            off + self.profile().block_width_spec() <= old(buf).len(),
        ensures
            self.valid() ==> r == Ok::<(), PackingError>(()) && final(buf)@ == spliced(
                old(buf)@,
                off as int,
                self.wire_spec(),
            ),
            !self.valid() ==> r == Err::<(), PackingError>(PackingError::FieldOverflow)
                && final(buf)@ == old(buf)@,
    {
        match self {
            Block::DualReturn(blk) => blk.encode(buf, off),
            Block::SingleReturn(blk) => blk.encode(buf, off),
            Block::SingleLowDataRateReturn(blk) => blk.encode(buf, off),
            Block::FuSaDualReturn(blk) => blk.encode(buf, off),
        }
    }

    /// Law: for every profile, decoding an encoded in-range block
    /// recovers the block exactly.
    pub proof fn lemma_round_trip(b: Block)
        requires
            b.valid(),
        ensures
            Self::block_of(b.profile(), b.wire_spec()) == b,
    {
        match b {
            Block::DualReturn(blk) => DualReturnBlock::lemma_round_trip(blk),
            Block::SingleReturn(blk) => SingleReturnBlock::lemma_round_trip(blk),
            Block::SingleLowDataRateReturn(blk) => SingleLowDataRateReturnBlock::lemma_round_trip(
                blk,
            ),
            Block::FuSaDualReturn(blk) => FuSaDualReturnBlock::lemma_round_trip(blk),
        }
    }

    /// Law: a decoded block is always in range, whatever bytes it came
    /// from — the masks guarantee every extracted value already fits
    /// its declared width, so decoding never rejects a value.
    pub proof fn lemma_decoded_in_range(profile: Profile, s: Seq<u8>)
        requires
            profile.has_codec(),
        ensures
            Block::block_of(profile, s).valid(),
    {
    }

    /// Law: an encoded block is exactly as wide as its profile says.
    pub proof fn lemma_wire_width(b: Block)
        requires
            b.valid(),
        ensures
            b.wire_spec().len() == b.profile().block_width_spec(),
    {
    }
}

} // verus!
