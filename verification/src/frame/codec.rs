//! Big-endian integer fields in byte buffers.

use vstd::prelude::*;

verus! {

/// The big-endian `u16` stored at `s[i..i + 2]`.
pub open spec fn spec_be16(s: Seq<u8>, i: int) -> u16 {
    (s[i] as int * 0x100 + s[i + 1] as int) as u16
}

/// The big-endian `u32` stored at `s[i..i + 4]`.
pub open spec fn spec_be32(s: Seq<u8>, i: int) -> u32 {
    (s[i] as int * 0x100_0000 + s[i + 1] as int * 0x1_0000 + s[i + 2] as int * 0x100 + s[i
        + 3] as int) as u32
}

/// The big-endian encoding of a `u16`.
pub open spec fn spec_be16_bytes(v: u16) -> Seq<u8> {
    seq![(v / 0x100) as u8, (v % 0x100) as u8]
}

/// The big-endian encoding of a `u32`.
pub open spec fn spec_be32_bytes(v: u32) -> Seq<u8> {
    seq![
        (v / 0x100_0000) as u8,
        ((v / 0x1_0000) % 0x100) as u8,
        ((v / 0x100) % 0x100) as u8,
        (v % 0x100) as u8,
    ]
}

/// `s` with the bytes from `i` on replaced by `bytes`, keeping its length.
pub open spec fn spec_splice(s: Seq<u8>, i: int, bytes: Seq<u8>) -> Seq<u8> {
    s.subrange(0, i) + bytes + s.subrange(i + bytes.len(), s.len() as int)
}

/// A run of bytes that reads as `a + b` at `pos` reads as `a` at `pos` and as
/// `b` right after it.
pub proof fn lemma_split_run(s: Seq<u8>, pos: int, a: Seq<u8>, b: Seq<u8>)
    requires
        0 <= pos,
        pos + a.len() + b.len() <= s.len(),
        s.subrange(pos, pos + a.len() + b.len()) == a + b,
    ensures
        s.subrange(pos, pos + a.len()) == a,
        s.subrange(pos + a.len(), pos + a.len() + b.len()) == b,
{
    let whole = s.subrange(pos, pos + a.len() + b.len());
    assert forall|i: int| 0 <= i < a.len() implies s.subrange(pos, pos + a.len())[i] == a[i] by {
        assert(whole[i] == (a + b)[i]);
    }
    assert forall|i: int| 0 <= i < b.len() implies s.subrange(pos + a.len(), pos + a.len() + b.len())[i]
        == b[i] by {
        assert(whole[a.len() + i] == (a + b)[a.len() + i]);
    }
    assert(s.subrange(pos, pos + a.len()) =~= a);
    assert(s.subrange(pos + a.len(), pos + a.len() + b.len()) =~= b);
}

/// Reading back a written `u16` gives the value.
pub proof fn lemma_be16_roundtrip(v: u16)
    ensures
        spec_be16(spec_be16_bytes(v), 0) == v,
        spec_be16_bytes(v).len() == 2,
{
}

/// Reading back a written `u32` gives the value.
pub proof fn lemma_be32_roundtrip(v: u32)
    ensures
        spec_be32(spec_be32_bytes(v), 0) == v,
        spec_be32_bytes(v).len() == 4,
{
    let b0 = v / 0x100_0000;
    let b1 = (v / 0x1_0000) % 0x100;
    let b2 = (v / 0x100) % 0x100;
    let b3 = v % 0x100;
    assert(b0 * 0x100_0000 + b1 * 0x1_0000 + b2 * 0x100 + b3 == v) by (nonlinear_arith)
        requires
            b0 == v / 0x100_0000,
            b1 == (v / 0x1_0000) % 0x100,
            b2 == (v / 0x100) % 0x100,
            b3 == v % 0x100,
    ;
}

/// Writing back a read `u32` leaves the bytes as they were.
pub proof fn lemma_be32_bytes_of_read(s: Seq<u8>, i: int)
    requires
        0 <= i,
        i + 4 <= s.len(),
    ensures
        spec_be32_bytes(spec_be32(s, i)) == s.subrange(i, i + 4),
{
    let v = spec_be32(s, i);
    let b0 = s[i] as int;
    let b1 = s[i + 1] as int;
    let b2 = s[i + 2] as int;
    let b3 = s[i + 3] as int;
    assert(v == b0 * 0x100_0000 + b1 * 0x1_0000 + b2 * 0x100 + b3);
    assert(v / 0x100_0000 == b0 && (v / 0x1_0000) % 0x100 == b1 && (v / 0x100) % 0x100 == b2
        && v % 0x100 == b3) by (nonlinear_arith)
        requires
            v == b0 * 0x100_0000 + b1 * 0x1_0000 + b2 * 0x100 + b3,
            0 <= b0 < 0x100,
            0 <= b1 < 0x100,
            0 <= b2 < 0x100,
            0 <= b3 < 0x100,
    ;
    assert(spec_be32_bytes(v) =~= s.subrange(i, i + 4));
}

/// Reads the big-endian `u16` at `offset`.
pub fn read_u16(buf: &[u8], offset: usize) -> (r: u16)
    requires
        offset + 2 <= buf@.len(),
    ensures
        r == spec_be16(buf@, offset as int),
{
    (buf[offset] as u16) * 0x100 + (buf[offset + 1] as u16)
}

/// Reads the big-endian `u32` at `offset`.
pub fn read_u32(buf: &[u8], offset: usize) -> (r: u32)
    requires
        offset + 4 <= buf@.len(),
    ensures
        r == spec_be32(buf@, offset as int),
{
    (buf[offset] as u32) * 0x100_0000 + (buf[offset + 1] as u32) * 0x1_0000 + (buf[offset
        + 2] as u32) * 0x100 + (buf[offset + 3] as u32)
}

/// Writes `value` in big-endian order at `offset`.
pub fn write_u16(buf: &mut Vec<u8>, offset: usize, value: u16)
    requires
        offset + 2 <= old(buf)@.len(),
    ensures
        final(buf)@ == spec_splice(old(buf)@, offset as int, spec_be16_bytes(value)),
{
    let len = buf.len();
    buf[offset] = (value / 0x100) as u8;
    buf[offset + 1] = (value % 0x100) as u8;
    assert(buf@ =~= spec_splice(old(buf)@, offset as int, spec_be16_bytes(value)));
}

/// Writes `value` in big-endian order at `offset`.
pub fn write_u32(buf: &mut Vec<u8>, offset: usize, value: u32)
    requires
        offset + 4 <= old(buf)@.len(),
    ensures
        final(buf)@ == spec_splice(old(buf)@, offset as int, spec_be32_bytes(value)),
{
    let len = buf.len();
    buf[offset] = (value / 0x100_0000) as u8;
    buf[offset + 1] = ((value / 0x1_0000) % 0x100) as u8;
    buf[offset + 2] = ((value / 0x100) % 0x100) as u8;
    buf[offset + 3] = (value % 0x100) as u8;
    assert(buf@ =~= spec_splice(old(buf)@, offset as int, spec_be32_bytes(value)));
}

/// Appends `value` in big-endian order.
pub fn push_u16(buf: &mut Vec<u8>, value: u16)
    ensures
        final(buf)@ == old(buf)@ + spec_be16_bytes(value),
{
    buf.push((value / 0x100) as u8);
    buf.push((value % 0x100) as u8);
    assert(buf@ =~= old(buf)@ + spec_be16_bytes(value));
}

/// Appends `value` in big-endian order.
pub fn push_u32(buf: &mut Vec<u8>, value: u32)
    ensures
        final(buf)@ == old(buf)@ + spec_be32_bytes(value),
{
    buf.push((value / 0x100_0000) as u8);
    buf.push(((value / 0x1_0000) % 0x100) as u8);
    buf.push(((value / 0x100) % 0x100) as u8);
    buf.push((value % 0x100) as u8);
    assert(buf@ =~= old(buf)@ + spec_be32_bytes(value));
}

/// Appends the bytes of `data`.
pub fn push_bytes(buf: &mut Vec<u8>, data: &[u8])
    ensures
        final(buf)@ == old(buf)@ + data@,
{
    let mut i: usize = 0;
    while i < data.len()
        invariant
            i <= data@.len(),
            buf@ == old(buf)@ + data@.subrange(0, i as int),
        decreases data@.len() - i,
    {
        buf.push(data[i]);
        i = i + 1;
        assert(data@.subrange(0, i as int) =~= data@.subrange(0, (i - 1) as int).push(
            data@[i - 1],
        ));
    }
    assert(data@.subrange(0, i as int) =~= data@);
}

/// The bytes `s[start..end]` of a mutable slice, borrowed mutably.
///
/// Calls the range indexing of `<[u8]>` (`&mut s[start..end]`). The contract
/// states what Rust's slices guarantee: the borrowed part holds those bytes,
/// the rest of `s` is untouched while it is borrowed, and a slice borrowed
/// mutably keeps its length, so `s` keeps its length too.
#[verifier::external_body]
pub(crate) fn subslice_mut(s: &mut [u8], start: usize, end: usize) -> (r: &mut [u8])
    requires
        start <= end <= old(s)@.len(),
    ensures
        r@ == old(s)@.subrange(start as int, end as int),
        final(r)@.len() == r@.len(),
        final(s)@ == old(s)@.subrange(0, start as int) + final(r)@ + old(s)@.subrange(
            end as int,
            old(s)@.len() as int,
        ),
{
    &mut s[start..end]
}

} // verus!
