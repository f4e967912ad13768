//! The LIDAR packet codec: a fixed-length ordered sequence of columns
//! over one UDP payload.
//!
//! The columns-per-packet count is external configuration; the wire
//! format has no length prefix, trailer, column-count or boundary
//! marker, so a wrong count or profile silently misdecodes and cannot
//! be detected here.

use crate::lidar::column::{column_width_spec, Column};
use crate::lidar::profile::Profile;
use crate::packing::PackingError;
use vstd::prelude::*;

verus! {

/// One decoded LIDAR packet: its columns, in wire order.
#[derive(Debug, PartialEq, Eq, Clone)]
pub struct Packet {
    /// The packet's columns, in wire order.
    pub columns: Vec<Column>,
}

/// The columns stored in `s` under `profile`'s layout, reading
/// `columns_per_packet` consecutive fixed-width columns from the start.
pub open spec fn packet_of(s: Seq<u8>, profile: Profile, columns_per_packet: int) -> Seq<Column>
    recommends
        profile.has_codec(),
        columns_per_packet * column_width_spec(profile) <= s.len(),
{
    Seq::new(
        columns_per_packet as nat,
        |i: int|
            Column::column_of(
                profile,
                s.subrange(
                    i * column_width_spec(profile),
                    (i + 1) * column_width_spec(profile),
                ),
            ),
    )
}

impl Packet {
    /// Decode `columns_per_packet` columns from the start of `b` under
    /// `profile`'s layout, in order.  Rejects exactly the buffers too
    /// short to hold them all.
    pub fn decode(profile: Profile, b: &[u8], columns_per_packet: usize) -> (r: Result<
        Self,
        PackingError,
    >)
        requires
            profile.has_codec(),
        ensures
            columns_per_packet * column_width_spec(profile) <= b@.len() ==> r is Ok
                && r->Ok_0.columns@ == packet_of(b@, profile, columns_per_packet as int),
            columns_per_packet * column_width_spec(profile) > b@.len() ==> r == Err::<
                Self,
                PackingError,
            >(PackingError::TruncatedInput),
    {
        let width = 12 + profile.block_width();
        let n = b.len();
        let mut columns: Vec<Column> = Vec::new();
        let mut off: usize = 0;
        let mut i: usize = 0;
        while i < columns_per_packet
            invariant
                profile.has_codec(),
                width == column_width_spec(profile),
                n == b@.len(),
                i <= columns_per_packet,
                off == i * width,
                off <= n,
                columns@.len() == i,
                forall|j: int|
                    0 <= j < i ==> columns@[j] == Column::column_of(
                        profile,
                        b@.subrange(j * (width as int), (j + 1) * (width as int)),
                    ),
            decreases columns_per_packet - i,
        {
            if n - off < width {
                proof {
                    assert((columns_per_packet as int) * (width as int) >= i * (width as int)
                        + width) by (nonlinear_arith)
                        requires
                            i < columns_per_packet,
                            width >= 0,
                    ;
                }
                return Err(PackingError::TruncatedInput);
            }
            let col = match Column::decode(profile, b, off) {
                Ok(c) => c,
                Err(e) => { return Err(e) },
            };
            columns.push(col);
            proof {
                assert((i + 1) * (width as int) == i * (width as int) + width) by (nonlinear_arith);
            }
            i = i + 1;
            off = off + width;
        }
        proof {
            assert(columns@ =~= packet_of(b@, profile, columns_per_packet as int));
        }
        Ok(Packet { columns })
    }

    /// Encode the packet's columns back to back into a fresh buffer.
    /// Succeeds exactly when every column's block is in range; the
    /// result is `columns-per-packet` times the column width under
    /// `profile`, with no length prefix and no trailer.
    #[verifier::rlimit(30)]
    pub fn encode(&self, profile: Profile) -> (r: Result<Vec<u8>, PackingError>)
        requires
            profile.has_codec(),
            forall|j: int|
                0 <= j < self.columns@.len() ==> (#[trigger] self.columns@[j]).block.profile()
                    == profile,
            self.columns@.len() * column_width_spec(profile) <= usize::MAX,
        ensures
            (forall|j: int| 0 <= j < self.columns@.len() ==> (#[trigger] self.columns@[j]).valid())
                ==> r is Ok && r->Ok_0@.len() == self.columns@.len() * column_width_spec(profile)
                && (forall|j: int|
                0 <= j < self.columns@.len() ==> r->Ok_0@.subrange(
                    j * column_width_spec(profile),
                    (j + 1) * column_width_spec(profile),
                ) == (#[trigger] self.columns@[j]).wire_spec()),
            (exists|j: int|
                0 <= j < self.columns@.len() && !(#[trigger] self.columns@[j]).valid()) ==> r
                == Err::<Vec<u8>, PackingError>(PackingError::FieldOverflow),
    {
        let width = 12 + profile.block_width();
        let count = self.columns.len();
        let total = count * width;
        let mut bytes: Vec<u8> = vec![0u8; total];
        let mut off: usize = 0;
        let mut i: usize = 0;
        while i < count
            invariant
                profile.has_codec(),
                width == column_width_spec(profile),
                count == self.columns@.len(),
                forall|j: int|
                    0 <= j < count ==> (#[trigger] self.columns@[j]).block.profile() == profile,
                total == count * width,
                bytes@.len() == total,
                i <= count,
                off == i * width,
                off <= total,
                forall|j: int|
                    0 <= j < i ==> ((#[trigger] self.columns@[j]).valid() && bytes@.subrange(
                        j * (width as int),
                        (j + 1) * (width as int),
                    ) == self.columns@[j].wire_spec()),
            decreases count - i,
        {
            proof {
                assert((i + 1) * (width as int) == i * (width as int) + width) by (nonlinear_arith);
                assert((i + 1) * (width as int) <= (count as int) * (width as int))
                    by (nonlinear_arith)
                    requires
                        i + 1 <= count,
                        width >= 0,
                ;
            }
            let ghost prev = bytes@;
            let col = &self.columns[i];
            match col.encode(&mut bytes, off) {
                Ok(_) => (),
                Err(e) => { return Err(e) },
            }
            proof {
                let w = width as int;
                let wire = self.columns@[i as int].wire_spec();
                crate::lidar::block::Block::lemma_wire_width(self.columns@[i as int].block);
                crate::packing::lemma_spliced_window(prev, off as int, wire);
                assert forall|j: int| 0 <= j < i implies bytes@.subrange(j * w, (j + 1) * w)
                    == self.columns@[j].wire_spec() by {
                    assert(0 <= j * w && j * w <= (j + 1) * w && (j + 1) * w <= i * w)
                        by (nonlinear_arith)
                        requires
                            0 <= j,
                            j + 1 <= i,
                            w >= 0,
                    ;
                    crate::packing::lemma_spliced_outside(prev, off as int, wire, j * w, (j + 1)
                        * w);
                }
            }
            i = i + 1;
            off = off + width;
        }
        Ok(bytes)
    }

    /// Law: decoding an encoded packet recovers every column in order.
    pub proof fn lemma_round_trip(columns: Seq<Column>, bytes: Seq<u8>, profile: Profile)
        requires
            profile.has_codec(),
            forall|j: int| 0 <= j < columns.len() ==> (#[trigger] columns[j]).valid(),
            forall|j: int|
                0 <= j < columns.len() ==> (#[trigger] columns[j]).block.profile() == profile,
            bytes.len() == columns.len() * column_width_spec(profile),
            forall|j: int|
                0 <= j < columns.len() ==> bytes.subrange(
                    j * column_width_spec(profile),
                    (j + 1) * column_width_spec(profile),
                ) == (#[trigger] columns[j]).wire_spec(),
        ensures
            packet_of(bytes, profile, columns.len() as int) == columns,
    {
        assert forall|j: int| 0 <= j < columns.len() implies packet_of(
            bytes,
            profile,
            columns.len() as int,
        )[j] == columns[j] by {
            Column::lemma_round_trip(columns[j]);
        }
        assert(packet_of(bytes, profile, columns.len() as int) =~= columns);
    }
}

} // verus!
