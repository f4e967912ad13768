//! Byte-level primitives shared by every packet codec: little-endian
//! words read from and written into byte buffers, and the error type of
//! the codecs.
//!
//! All multi-byte words on the wire are little-endian.  The
//! specification functions recover a word from its bytes in nested
//! (Horner) form, `b0 + 0x100 * (b1 + 0x100 * ...)`, which keeps every
//! proof about composition and decomposition inside linear arithmetic.

use vstd::prelude::*;

verus! {

/// Error taxonomy of the packet codecs.
#[derive(Debug, Clone, Copy, PartialEq, Eq, Structural)]
pub enum PackingError {
    /// Encode-time: a field value exceeds its declared bit width.
    /// The encode is rejected with no partial write.
    FieldOverflow,
    /// Decode-time: the buffer is shorter than the profile's fixed
    /// width.  Only the offending datagram is rejected.
    TruncatedInput,
    /// Decode-time: a field holds a value that names nothing.
    InvalidValue,
}

/// The 16-bit word stored little-endian in the two bytes of `s`.
pub open spec fn u16_le_spec(s: Seq<u8>) -> u16
    recommends
        s.len() == 2,
{
    (s[0] + 0x100 * s[1]) as u16
}

/// The 32-bit word stored little-endian in the four bytes of `s`.
pub open spec fn u32_le_spec(s: Seq<u8>) -> u32
    recommends
        s.len() == 4,
{
    (s[0] + 0x100 * (s[1] + 0x100 * (s[2] + 0x100 * s[3]))) as u32
}

/// The 64-bit word stored little-endian in the eight bytes of `s`.
pub open spec fn u64_le_spec(s: Seq<u8>) -> u64
    recommends
        s.len() == 8,
{
    (s[0] + 0x100 * (s[1] + 0x100 * (s[2] + 0x100 * (s[3] + 0x100 * (s[4] + 0x100 * (s[5]
        + 0x100 * (s[6] + 0x100 * s[7]))))))) as u64
}

/// The two little-endian bytes of a 16-bit word.
pub open spec fn u16_le_bytes(v: u16) -> Seq<u8> {
    seq![(v % 0x100) as u8, (v / 0x100) as u8]
}

/// The four little-endian bytes of a 32-bit word.
pub open spec fn u32_le_bytes(v: u32) -> Seq<u8> {
    seq![
        (v % 0x100) as u8,
        ((v / 0x100) % 0x100) as u8,
        ((v / 0x10000) % 0x100) as u8,
        (v / 0x1000000) as u8,
    ]
}

/// The eight little-endian bytes of a 64-bit word.
pub open spec fn u64_le_bytes(v: u64) -> Seq<u8> {
    seq![
        (v % 0x100) as u8,
        ((v / 0x100) % 0x100) as u8,
        ((v / 0x10000) % 0x100) as u8,
        ((v / 0x1000000) % 0x100) as u8,
        ((v / 0x100000000) % 0x100) as u8,
        ((v / 0x10000000000) % 0x100) as u8,
        ((v / 0x1000000000000) % 0x100) as u8,
        (v / 0x100000000000000) as u8,
    ]
}

/// A 16-bit word survives the trip through its little-endian bytes.
pub proof fn lemma_u16_le_round(v: u16)
    ensures
        u16_le_spec(u16_le_bytes(v)) == v,
{
}

/// A 32-bit word survives the trip through its little-endian bytes.
pub proof fn lemma_u32_le_round(v: u32)
    ensures
        u32_le_spec(u32_le_bytes(v)) == v,
{
}

/// A 64-bit word survives the trip through its little-endian bytes.
pub proof fn lemma_u64_le_round(v: u64)
    ensures
        u64_le_spec(u64_le_bytes(v)) == v,
{
    let x = v as int;
    vstd::arithmetic::div_mod::lemma_div_denominator(x, 0x100, 0x100);
    vstd::arithmetic::div_mod::lemma_div_denominator(x, 0x10000, 0x100);
    vstd::arithmetic::div_mod::lemma_div_denominator(x, 0x1000000, 0x100);
    vstd::arithmetic::div_mod::lemma_div_denominator(x, 0x100000000, 0x100);
    vstd::arithmetic::div_mod::lemma_div_denominator(x, 0x10000000000, 0x100);
    vstd::arithmetic::div_mod::lemma_div_denominator(x, 0x1000000000000, 0x100);
}

/// `orig` with the span starting at `off` replaced by `w`.
pub open spec fn spliced(orig: Seq<u8>, off: int, w: Seq<u8>) -> Seq<u8>
    recommends
        0 <= off,
        off + w.len() <= orig.len(),
{
    orig.take(off) + w + orig.skip(off + w.len())
}

/// The 16-bit word stored big-endian in the two bytes of `s`.
pub open spec fn u16_be_spec(s: Seq<u8>) -> u16
    recommends
        s.len() == 2,
{
    (s[1] + 0x100 * s[0]) as u16
}

/// The 32-bit word stored big-endian in the four bytes of `s`.
pub open spec fn u32_be_spec(s: Seq<u8>) -> u32
    recommends
        s.len() == 4,
{
    (s[3] + 0x100 * (s[2] + 0x100 * (s[1] + 0x100 * s[0]))) as u32
}

/// The two big-endian bytes of a 16-bit word.
pub open spec fn u16_be_bytes(v: u16) -> Seq<u8> {
    seq![(v / 0x100) as u8, (v % 0x100) as u8]
}

/// The four big-endian bytes of a 32-bit word.
pub open spec fn u32_be_bytes(v: u32) -> Seq<u8> {
    seq![
        (v / 0x1000000) as u8,
        ((v / 0x10000) % 0x100) as u8,
        ((v / 0x100) % 0x100) as u8,
        (v % 0x100) as u8,
    ]
}

/// A 16-bit word survives the trip through its big-endian bytes.
pub proof fn lemma_u16_be_round(v: u16)
    ensures
        u16_be_spec(u16_be_bytes(v)) == v,
{
}

/// A 32-bit word survives the trip through its big-endian bytes.
pub proof fn lemma_u32_be_round(v: u32)
    ensures
        u32_be_spec(u32_be_bytes(v)) == v,
{
}

/// Read the big-endian 16-bit word at `off`.
pub fn read_u16_be(b: &[u8], off: usize) -> (r: u16)
    requires
        off + 2 <= b@.len(),
    ensures
        r == u16_be_spec(b@.subrange(off as int, off + 2)),
{
    let hi = b[off] as u16;
    let lo = b[off + 1] as u16;
    lo + 0x100 * hi
}

/// Read the big-endian 32-bit word at `off`.
pub fn read_u32_be(b: &[u8], off: usize) -> (r: u32)
    requires
        off + 4 <= b@.len(),
    ensures
        r == u32_be_spec(b@.subrange(off as int, off + 4)),
{
    let b0 = b[off] as u32;
    let b1 = b[off + 1] as u32;
    let b2 = b[off + 2] as u32;
    let b3 = b[off + 3] as u32;
    b3 + 0x100 * (b2 + 0x100 * (b1 + 0x100 * b0))
}

/// Replacing a span leaves every byte before and after it unchanged.
pub proof fn lemma_spliced_outside(orig: Seq<u8>, off: int, w: Seq<u8>, a: int, b: int)
    requires
        0 <= off,
        off + w.len() <= orig.len(),
        0 <= a <= b <= orig.len(),
        b <= off || a >= off + w.len(),
    ensures
        spliced(orig, off, w).subrange(a, b) == orig.subrange(a, b),
{
    assert(spliced(orig, off, w).subrange(a, b) =~= orig.subrange(a, b));
}

/// The replaced span of a splice reads back as the written bytes.
pub proof fn lemma_spliced_window(orig: Seq<u8>, off: int, w: Seq<u8>)
    requires
        0 <= off,
        off + w.len() <= orig.len(),
    ensures
        spliced(orig, off, w).subrange(off, off + w.len()) == w,
{
    assert(spliced(orig, off, w).subrange(off, off + w.len()) =~= w);
}

/// Read the little-endian 16-bit word at `off`.
pub fn read_u16_le(b: &[u8], off: usize) -> (r: u16)
    requires
        off + 2 <= b@.len(),
    ensures
        r == u16_le_spec(b@.subrange(off as int, off + 2)),
{
    let lo = b[off] as u16;
    let hi = b[off + 1] as u16;
    lo + 0x100 * hi
}

/// Read the little-endian 32-bit word at `off`.
pub fn read_u32_le(b: &[u8], off: usize) -> (r: u32)
    requires
        off + 4 <= b@.len(),
    ensures
        r == u32_le_spec(b@.subrange(off as int, off + 4)),
{
    let b0 = b[off] as u32;
    let b1 = b[off + 1] as u32;
    let b2 = b[off + 2] as u32;
    let b3 = b[off + 3] as u32;
    b0 + 0x100 * (b1 + 0x100 * (b2 + 0x100 * b3))
}

/// Read the little-endian 64-bit word at `off`.
pub fn read_u64_le(b: &[u8], off: usize) -> (r: u64)
    requires
        off + 8 <= b@.len(),
    ensures
        r == u64_le_spec(b@.subrange(off as int, off + 8)),
{
    let b0 = b[off] as u64;
    let b1 = b[off + 1] as u64;
    let b2 = b[off + 2] as u64;
    let b3 = b[off + 3] as u64;
    let b4 = b[off + 4] as u64;
    let b5 = b[off + 5] as u64;
    let b6 = b[off + 6] as u64;
    let b7 = b[off + 7] as u64;
    b0 + 0x100 * (b1 + 0x100 * (b2 + 0x100 * (b3 + 0x100 * (b4 + 0x100 * (b5 + 0x100 * (b6
        + 0x100 * b7))))))
}

/// Write `v` little-endian into the two bytes at `off`, leaving the
/// rest of the buffer unchanged.
pub fn write_u16_le(buf: &mut Vec<u8>, off: usize, v: u16)
    requires
        off + 2 <= old(buf).len(),
    ensures
        final(buf)@ == spliced(old(buf)@, off as int, u16_le_bytes(v)),
{
    buf[off] = (v % 0x100) as u8;
    buf[off + 1] = (v / 0x100) as u8;
    proof {
        assert(buf@ =~= spliced(old(buf)@, off as int, u16_le_bytes(v)));
    }
}

/// Write `v` little-endian into the four bytes at `off`, leaving the
/// rest of the buffer unchanged.
pub fn write_u32_le(buf: &mut Vec<u8>, off: usize, v: u32)
    requires
        off + 4 <= old(buf).len(),
    ensures
        final(buf)@ == spliced(old(buf)@, off as int, u32_le_bytes(v)),
{
    buf[off] = (v % 0x100) as u8;
    buf[off + 1] = ((v / 0x100) % 0x100) as u8;
    buf[off + 2] = ((v / 0x10000) % 0x100) as u8;
    buf[off + 3] = (v / 0x1000000) as u8;
    proof {
        assert(buf@ =~= spliced(old(buf)@, off as int, u32_le_bytes(v)));
    }
}

/// Write `v` little-endian into the eight bytes at `off`, leaving the
/// rest of the buffer unchanged.
pub fn write_u64_le(buf: &mut Vec<u8>, off: usize, v: u64)
    requires
        off + 8 <= old(buf).len(),
    ensures
        final(buf)@ == spliced(old(buf)@, off as int, u64_le_bytes(v)),
{
    buf[off] = (v % 0x100) as u8;
    buf[off + 1] = ((v / 0x100) % 0x100) as u8;
    buf[off + 2] = ((v / 0x10000) % 0x100) as u8;
    buf[off + 3] = ((v / 0x1000000) % 0x100) as u8;
    buf[off + 4] = ((v / 0x100000000) % 0x100) as u8;
    buf[off + 5] = ((v / 0x10000000000) % 0x100) as u8;
    buf[off + 6] = ((v / 0x1000000000000) % 0x100) as u8;
    buf[off + 7] = (v / 0x100000000000000) as u8;
    proof {
        assert(buf@ =~= spliced(old(buf)@, off as int, u64_le_bytes(v)));
    }
}

} // verus!
