//! The byte-buffer boundary of the library: the growable buffer type of the
//! `bytes` crate, a view of its contents as a sequence of bytes, and the few
//! buffer operations the codec and the builder rely on, together with the
//! big-endian byte order used everywhere on the wire.

use vstd::prelude::*;

use byteorder::ByteOrder;
use bytes::Buf;
use bytes::BufMut;
use bytes::BytesMut;

verus! {

#[verifier::external_type_specification]
#[verifier::external_body]
pub struct ExBytesMut(BytesMut);

/// The bytes a buffer holds, in order.
pub uninterp spec fn buf_view(b: BytesMut) -> Seq<u8>;

/// The big-endian value of four bytes.
pub open spec fn spec_u32_from_be(b0: u8, b1: u8, b2: u8, b3: u8) -> u32 {
    (b0 as u32) << 24 | (b1 as u32) << 16 | (b2 as u32) << 8 | (b3 as u32)
}

/// The four big-endian bytes of a 32-bit value, most significant first.
pub open spec fn spec_u32_to_be(x: u32) -> Seq<u8> {
    seq![(x >> 24) as u8, (x >> 16) as u8, (x >> 8) as u8, x as u8]
}

/// The big-endian value of eight bytes.
pub open spec fn spec_u64_from_be(
    b0: u8,
    b1: u8,
    b2: u8,
    b3: u8,
    b4: u8,
    b5: u8,
    b6: u8,
    b7: u8,
) -> u64 {
    (b0 as u64) << 56 | (b1 as u64) << 48 | (b2 as u64) << 40 | (b3 as u64) << 32 | (b4 as u64)
        << 24 | (b5 as u64) << 16 | (b6 as u64) << 8 | (b7 as u64)
}

/// The eight big-endian bytes of a 64-bit value, most significant first.
pub open spec fn spec_u64_to_be(x: u64) -> Seq<u8> {
    seq![
        (x >> 56) as u8,
        (x >> 48) as u8,
        (x >> 40) as u8,
        (x >> 32) as u8,
        (x >> 24) as u8,
        (x >> 16) as u8,
        (x >> 8) as u8,
        x as u8,
    ]
}

/// A 32-bit value survives being written big-endian and read back.
pub proof fn lemma_u32_be_roundtrip(x: u32)
    ensures
        spec_u32_from_be((x >> 24) as u8, (x >> 16) as u8, (x >> 8) as u8, x as u8) == x,
{
    assert(((x >> 24) as u8 as u32) << 24 | ((x >> 16) as u8 as u32) << 16 | ((x >> 8) as u8
        as u32) << 8 | (x as u8 as u32) == x) by (bit_vector);
}

/// A 64-bit value survives being written big-endian and read back.
pub proof fn lemma_u64_be_roundtrip(x: u64)
    ensures
        spec_u64_from_be(
            (x >> 56) as u8,
            (x >> 48) as u8,
            (x >> 40) as u8,
            (x >> 32) as u8,
            (x >> 24) as u8,
            (x >> 16) as u8,
            (x >> 8) as u8,
            x as u8,
        ) == x,
{
    assert(((x >> 56) as u8 as u64) << 56 | ((x >> 48) as u8 as u64) << 48 | ((x >> 40) as u8
        as u64) << 40 | ((x >> 32) as u8 as u64) << 32 | ((x >> 24) as u8 as u64) << 24 | ((x >> 16)
        as u8 as u64) << 16 | ((x >> 8) as u8 as u64) << 8 | (x as u8 as u64) == x)
        by (bit_vector);
}

/// Four bytes survive being read as a big-endian value and written back.
pub proof fn lemma_u32_be_bytes_roundtrip(b0: u8, b1: u8, b2: u8, b3: u8)
    ensures
        spec_u32_to_be(spec_u32_from_be(b0, b1, b2, b3)) == seq![b0, b1, b2, b3],
{
    let x = spec_u32_from_be(b0, b1, b2, b3);
    assert(((((b0 as u32) << 24 | (b1 as u32) << 16 | (b2 as u32) << 8 | (b3 as u32)) >> 24) as u8)
        == b0 && ((((b0 as u32) << 24 | (b1 as u32) << 16 | (b2 as u32) << 8 | (b3 as u32)) >> 16)
        as u8) == b1 && ((((b0 as u32) << 24 | (b1 as u32) << 16 | (b2 as u32) << 8 | (b3 as u32))
        >> 8) as u8) == b2 && (((b0 as u32) << 24 | (b1 as u32) << 16 | (b2 as u32) << 8 | (b3
        as u32)) as u8) == b3) by (bit_vector);
    assert(spec_u32_to_be(x) =~= seq![b0, b1, b2, b3]);
}

/// Eight bytes survive being read as a big-endian value and written back.
pub proof fn lemma_u64_be_bytes_roundtrip(b0: u8, b1: u8, b2: u8, b3: u8, b4: u8, b5: u8, b6: u8, b7: u8)
    ensures
        spec_u64_to_be(spec_u64_from_be(b0, b1, b2, b3, b4, b5, b6, b7)) == seq![
            b0,
            b1,
            b2,
            b3,
            b4,
            b5,
            b6,
            b7,
        ],
{
    let x = spec_u64_from_be(b0, b1, b2, b3, b4, b5, b6, b7);
    assert(((x >> 56) as u8) == b0 && ((x >> 48) as u8) == b1 && ((x >> 40) as u8) == b2 && ((x
        >> 32) as u8) == b3 && ((x >> 24) as u8) == b4 && ((x >> 16) as u8) == b5 && ((x >> 8)
        as u8) == b6 && (x as u8) == b7) by (bit_vector)
        requires
            x == (b0 as u64) << 56 | (b1 as u64) << 48 | (b2 as u64) << 40 | (b3 as u64) << 32 | (
            b4 as u64) << 24 | (b5 as u64) << 16 | (b6 as u64) << 8 | (b7 as u64),
    ;
    assert(spec_u64_to_be(x) =~= seq![b0, b1, b2, b3, b4, b5, b6, b7]);
}

/// Relies on bytes::BytesMut::len: the number of bytes the buffer holds.
#[verifier::external_body]
pub(crate) fn buf_len(b: &BytesMut) -> (r: usize)
    ensures
        r == buf_view(*b).len(),
{
    b.len()
}

/// Relies on the slice indexing that bytes::BytesMut dereferences to.
#[verifier::external_body]
pub(crate) fn buf_get(b: &BytesMut, i: usize) -> (r: u8)
    requires
        i < buf_view(*b).len(),
    ensures
        r == buf_view(*b)[i as int],
{
    b[i]
}

/// Relies on bytes::Buf::advance for BytesMut: discards the first `cnt`
/// bytes and keeps the rest; panics only when `cnt` exceeds the length.
#[verifier::external_body]
pub(crate) fn buf_advance(b: &mut BytesMut, cnt: usize)
    requires
        cnt <= buf_view(*old(b)).len(),
    ensures
        buf_view(*final(b)) == buf_view(*old(b)).skip(cnt as int),
{
    b.advance(cnt)
}

/// Relies on bytes::BytesMut::split_to: removes and returns the first `at`
/// bytes, leaving the rest; panics only when `at` exceeds the length.
#[verifier::external_body]
pub(crate) fn buf_split_to(b: &mut BytesMut, at: usize) -> (r: BytesMut)
    requires
        at <= buf_view(*old(b)).len(),
    ensures
        buf_view(r) == buf_view(*old(b)).take(at as int),
        buf_view(*final(b)) == buf_view(*old(b)).skip(at as int),
{
    b.split_to(at)
}

/// Relies on bytes::BytesMut::reserve: makes room for `additional` more
/// bytes without touching the contents; panics only when the new capacity
/// overflows usize.
#[verifier::external_body]
pub(crate) fn buf_reserve(b: &mut BytesMut, additional: usize)
    requires
        buf_view(*old(b)).len() + additional <= usize::MAX,
    ensures
        buf_view(*final(b)) == buf_view(*old(b)),
{
    b.reserve(additional)
}

/// Relies on bytes::BufMut::put_u8 for BytesMut: appends one byte, growing
/// the buffer as needed.
#[verifier::external_body]
pub(crate) fn buf_put_u8(b: &mut BytesMut, x: u8)
    requires
        buf_view(*old(b)).len() + 1 <= usize::MAX,
    ensures
        buf_view(*final(b)) == buf_view(*old(b)).push(x),
{
    b.put_u8(x)
}

/// Relies on bytes::BufMut::put_u32 for BytesMut: appends the four bytes of
/// the value in big-endian order, growing the buffer as needed.
#[verifier::external_body]
pub(crate) fn buf_put_u32(b: &mut BytesMut, x: u32)
    requires
        buf_view(*old(b)).len() + 4 <= usize::MAX,
    ensures
        buf_view(*final(b)) == buf_view(*old(b)) + spec_u32_to_be(x),
{
    b.put_u32(x)
}

/// Relies on bytes::BufMut::put_u64 for BytesMut: appends the eight bytes of
/// the value in big-endian order, growing the buffer as needed.
#[verifier::external_body]
pub(crate) fn buf_put_u64(b: &mut BytesMut, x: u64)
    requires
        buf_view(*old(b)).len() + 8 <= usize::MAX,
    ensures
        buf_view(*final(b)) == buf_view(*old(b)) + spec_u64_to_be(x),
{
    b.put_u64(x)
}

/// Relies on bytes::BytesMut::extend_from_slice: appends a copy of the other
/// buffer's bytes, growing this one as needed.
#[verifier::external_body]
pub(crate) fn buf_put_all(b: &mut BytesMut, p: &BytesMut)
    requires
        buf_view(*old(b)).len() + buf_view(*p).len() <= usize::MAX,
    ensures
        buf_view(*final(b)) == buf_view(*old(b)) + buf_view(*p),
{
    b.extend_from_slice(p.as_ref())
}

/// Relies on byteorder's BigEndian::read_u32: the big-endian value of the
/// four bytes starting at `off`.
#[verifier::external_body]
pub(crate) fn buf_read_u32_be(b: &BytesMut, off: usize) -> (r: u32)
    requires
        off + 4 <= buf_view(*b).len(),
    ensures
        r == spec_u32_from_be(
            buf_view(*b)[off as int],
            buf_view(*b)[off as int + 1],
            buf_view(*b)[off as int + 2],
            buf_view(*b)[off as int + 3],
        ),
{
    byteorder::BigEndian::read_u32(&b[off..off + 4])
}

/// Relies on byteorder's BigEndian::read_u64: the big-endian value of the
/// eight bytes starting at `off`.
#[verifier::external_body]
pub(crate) fn buf_read_u64_be(b: &BytesMut, off: usize) -> (r: u64)
    requires
        off + 8 <= buf_view(*b).len(),
    ensures
        r == spec_u64_from_be(
            buf_view(*b)[off as int],
            buf_view(*b)[off as int + 1],
            buf_view(*b)[off as int + 2],
            buf_view(*b)[off as int + 3],
            buf_view(*b)[off as int + 4],
            buf_view(*b)[off as int + 5],
            buf_view(*b)[off as int + 6],
            buf_view(*b)[off as int + 7],
        ),
{
    byteorder::BigEndian::read_u64(&b[off..off + 8])
}

} // verus!
