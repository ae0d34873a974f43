//! Big-endian integer encoding and the byte buffer type of the `bytebuffer`
//! crate, which frames travel in.
use vstd::prelude::*;
use bytebuffer::ByteBuffer;

verus! {

#[verifier::external_type_specification]
#[verifier::external_body]
pub struct ExByteBuffer(ByteBuffer);

/// The bytes held by a buffer, from its first to its last.
pub uninterp spec fn buffer_data(b: ByteBuffer) -> Seq<u8>;

/// Relies on `ByteBuffer::from_vec`: the buffer takes the vector as its data.
pub assume_specification[ ByteBuffer::from_vec ](vec: Vec<u8>) -> (r: ByteBuffer)
    ensures
        buffer_data(r) == vec@,
;

/// Relies on `ByteBuffer::as_bytes`: a view of all of the buffer's data.
pub assume_specification[ ByteBuffer::as_bytes ](b: &ByteBuffer) -> (r: &[u8])
    ensures
        r@ == buffer_data(*b),
;

/// Relies on `ByteBuffer::into_vec`: the buffer's data, handed over whole.
pub assume_specification[ ByteBuffer::into_vec ](b: ByteBuffer) -> (r: Vec<u8>)
    ensures
        r@ == buffer_data(b),
;

/// The two bytes of `x`, most significant first.
pub open spec fn be_u16(x: u16) -> Seq<u8> {
    seq![(x >> 8u16) as u8, x as u8]
}

/// The four bytes of `x`, most significant first.
pub open spec fn be_u32(x: u32) -> Seq<u8> {
    seq![(x >> 24u32) as u8, (x >> 16u32) as u8, (x >> 8u32) as u8, x as u8]
}

/// The eight bytes of `x`, most significant first.
pub open spec fn be_u64(x: u64) -> Seq<u8> {
    be_u32((x >> 32u64) as u32) + be_u32(x as u32)
}

/// The number whose big-endian encoding is the first two bytes of `s`.
pub open spec fn u16_from_be(s: Seq<u8>) -> u16 {
    (((s[0] as u16) << 8u16) | (s[1] as u16)) as u16
}

/// The number whose big-endian encoding is the first four bytes of `s`.
pub open spec fn u32_from_be(s: Seq<u8>) -> u32 {
    (((s[0] as u32) << 24u32) | ((s[1] as u32) << 16u32) | ((s[2] as u32) << 8u32) | (s[3] as u32)) as u32
}

/// The number whose big-endian encoding is the first eight bytes of `s`.
pub open spec fn u64_from_be(s: Seq<u8>) -> u64 {
    ((((u32_from_be(s) as u64) << 32u64) | (u32_from_be(s.subrange(4, 8)) as u64))) as u64
}

/// Decoding the encoding of a 16-bit number gives it back.
pub proof fn lemma_u16_round_trip(x: u16)
    ensures
        u16_from_be(be_u16(x)) == x,
{
    let hi = (x >> 8u16) as u8;
    let lo = x as u8;
    assert((((hi as u16) << 8u16) | (lo as u16)) == x) by (bit_vector)
        requires
            hi == (x >> 8u16) as u8,
            lo == x as u8,
    ;
}

/// Decoding the encoding of a 32-bit number gives it back.
pub proof fn lemma_u32_round_trip(x: u32)
    ensures
        u32_from_be(be_u32(x)) == x,
{
    let b0 = (x >> 24u32) as u8;
    let b1 = (x >> 16u32) as u8;
    let b2 = (x >> 8u32) as u8;
    let b3 = x as u8;
    assert((((b0 as u32) << 24u32) | ((b1 as u32) << 16u32) | ((b2 as u32) << 8u32) | (b3 as u32))
        == x) by (bit_vector)
        requires
            b0 == (x >> 24u32) as u8,
            b1 == (x >> 16u32) as u8,
            b2 == (x >> 8u32) as u8,
            b3 == x as u8,
    ;
}

/// Decoding the encoding of a 64-bit number gives it back.
pub proof fn lemma_u64_round_trip(x: u64)
    ensures
        u64_from_be(be_u64(x)) == x,
{
    let hi = (x >> 32u64) as u32;
    let lo = x as u32;
    lemma_u32_round_trip(hi);
    lemma_u32_round_trip(lo);
    let s = be_u64(x);
    assert(s.subrange(0, 4) =~= be_u32(hi));
    assert(s.subrange(4, 8) =~= be_u32(lo));
    assert(u32_from_be(s) == u32_from_be(be_u32(hi)));
    assert((((hi as u64) << 32u64) | (lo as u64)) == x) by (bit_vector)
        requires
            hi == (x >> 32u64) as u32,
            lo == x as u32,
    ;
}

/// The encoding of 0 is four zero bytes.
pub proof fn lemma_be_u32_zero()
    ensures
        be_u32(0) == seq![0u8, 0, 0, 0],
{
    assert((0u32 >> 24u32) as u8 == 0 && (0u32 >> 16u32) as u8 == 0 && (0u32 >> 8u32) as u8 == 0
        && 0u32 as u8 == 0) by (bit_vector);
    assert(be_u32(0) =~= seq![0u8, 0, 0, 0]);
}

/// Appends the big-endian encoding of `x` to `v`.
pub fn push_u16(v: &mut Vec<u8>, x: u16)
    ensures
        final(v)@ == old(v)@ + be_u16(x),
{
    v.push((x >> 8u16) as u8);
    v.push(x as u8);
    assert(final(v)@ =~= old(v)@ + be_u16(x));
}

/// Appends the big-endian encoding of `x` to `v`.
pub fn push_u32(v: &mut Vec<u8>, x: u32)
    ensures
        final(v)@ == old(v)@ + be_u32(x),
{
    v.push((x >> 24u32) as u8);
    v.push((x >> 16u32) as u8);
    v.push((x >> 8u32) as u8);
    v.push(x as u8);
    assert(final(v)@ =~= old(v)@ + be_u32(x));
}

/// Appends the big-endian encoding of `x` to `v`.
pub fn push_u64(v: &mut Vec<u8>, x: u64)
    ensures
        final(v)@ == old(v)@ + be_u64(x),
{
    push_u32(v, (x >> 32u64) as u32);
    push_u32(v, x as u32);
    assert(final(v)@ =~= old(v)@ + be_u64(x));
}

/// Appends every byte of `s` to `v`.
pub fn push_all(v: &mut Vec<u8>, s: &[u8])
    ensures
        final(v)@ == old(v)@ + s@,
{
    let mut i: usize = 0;
    while i < s.len()
        invariant
            0 <= i <= s@.len(),
            v@ == old(v)@ + s@.subrange(0, i as int),
        decreases s@.len() - i,
    {
        v.push(s[i]);
        i = i + 1;
        assert(v@ =~= old(v)@ + s@.subrange(0, i as int));
    }
    assert(s@.subrange(0, i as int) =~= s@);
}

/// The 32-bit number encoded big-endian at `off` in `s`.
pub fn read_u32(s: &[u8], off: usize) -> (r: u32)
    requires
        off + 4 <= s@.len(),
    ensures
        r == u32_from_be(s@.subrange(off as int, off + 4)),
{
    ((s[off] as u32) << 24u32) | ((s[off + 1] as u32) << 16u32) | ((s[off + 2] as u32) << 8u32)
        | (s[off + 3] as u32)
}

/// The 16-bit number encoded big-endian at `off` in `s`.
pub fn read_u16(s: &[u8], off: usize) -> (r: u16)
    requires
        off + 2 <= s@.len(),
    ensures
        r == u16_from_be(s@.subrange(off as int, off + 2)),
{
    ((s[off] as u16) << 8u16) | (s[off + 1] as u16)
}

} // verus!
