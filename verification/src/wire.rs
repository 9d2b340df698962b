use vstd::prelude::*;

verus! {

broadcast use vstd::slice::axiom_spec_len;

/// The little-endian bytes of a signed 32-bit value: the bytes of its
/// two's-complement reinterpretation as `u32`.
pub open spec fn spec_i32_to_le_bytes(x: i32) -> Seq<u8> {
    vstd::bytes::spec_u32_to_le_bytes(x as u32)
}

/// The signed 32-bit value read from four little-endian bytes.
pub open spec fn spec_i32_from_le_bytes(s: Seq<u8>) -> i32
    recommends
        s.len() == 4,
{
    vstd::bytes::spec_u32_from_le_bytes(s) as i32
}

/// Encoding and decoding a signed 32-bit value through its little-endian
/// bytes are mutually inverse.
pub proof fn lemma_i32_le_bytes_round_trip(x: i32)
    ensures
        spec_i32_to_le_bytes(x).len() == 4,
        spec_i32_from_le_bytes(spec_i32_to_le_bytes(x)) == x,
{
    vstd::bytes::lemma_auto_spec_u32_to_from_le_bytes();
    let u = x as u32;
    assert(vstd::bytes::spec_u32_to_le_bytes(u).len() == 4);
    assert(vstd::bytes::spec_u32_from_le_bytes(vstd::bytes::spec_u32_to_le_bytes(u)) == u);
    assert(((x as u32) as i32) == x) by (bit_vector);
}

/// Appends the four little-endian bytes of `x` to `out`.
pub fn push_u32_le(out: &mut Vec<u8>, x: u32)
    ensures
        final(out)@ == old(out)@ + vstd::bytes::spec_u32_to_le_bytes(x),
{
    let bytes = vstd::bytes::u32_to_le_bytes(x);
    push_bytes(out, bytes.as_slice());
}

/// Appends the eight little-endian bytes of `x` to `out`.
pub fn push_u64_le(out: &mut Vec<u8>, x: u64)
    ensures
        final(out)@ == old(out)@ + vstd::bytes::spec_u64_to_le_bytes(x),
{
    let bytes = vstd::bytes::u64_to_le_bytes(x);
    push_bytes(out, bytes.as_slice());
}

/// Appends the four little-endian bytes of the signed value `x` to `out`.
pub fn push_i32_le(out: &mut Vec<u8>, x: i32)
    ensures
        final(out)@ == old(out)@ + spec_i32_to_le_bytes(x),
{
    push_u32_le(out, x as u32);
}

/// Appends all of `data` to `out`.
pub fn push_bytes(out: &mut Vec<u8>, data: &[u8])
    ensures
        final(out)@ == old(out)@ + data@,
{
    let mut i: usize = 0;
    while i < data.len()
        invariant
            i <= data@.len(),
            out@ == old(out)@ + data@.subrange(0, i as int),
        decreases data@.len() - i,
    {
        out.push(*vstd::slice::slice_index_get(data, i));
        proof {
            assert(old(out)@ + data@.subrange(0, i as int) + seq![data@[i as int]]
                =~= old(out)@ + data@.subrange(0, i + 1));
        }
        i = i + 1;
    }
    proof {
        assert(out@ =~= old(out)@ + data@);
    }
}

/// Reads the unsigned 32-bit value stored little-endian at `bytes[off..off + 4]`.
pub fn read_u32_at(bytes: &[u8], off: usize) -> (x: u32)
    requires
        off + 4 <= bytes@.len(),
    ensures
        x == vstd::bytes::spec_u32_from_le_bytes(bytes@.subrange(off as int, off + 4)),
{
    // Naming the slice's length shows that `off + 4` fits in `usize`.
    let _len = bytes.len();
    vstd::bytes::u32_from_le_bytes(vstd::slice::slice_subrange(bytes, off, off + 4))
}

/// Reads the unsigned 64-bit value stored little-endian at `bytes[off..off + 8]`.
pub fn read_u64_at(bytes: &[u8], off: usize) -> (x: u64)
    requires
        off + 8 <= bytes@.len(),
    ensures
        x == vstd::bytes::spec_u64_from_le_bytes(bytes@.subrange(off as int, off + 8)),
{
    // Naming the slice's length shows that `off + 8` fits in `usize`.
    let _len = bytes.len();
    vstd::bytes::u64_from_le_bytes(vstd::slice::slice_subrange(bytes, off, off + 8))
}

/// Reads the signed 32-bit value stored little-endian at `bytes[off..off + 4]`.
pub fn read_i32_at(bytes: &[u8], off: usize) -> (x: i32)
    requires
        off + 4 <= bytes@.len(),
    ensures
        x == spec_i32_from_le_bytes(bytes@.subrange(off as int, off + 4)),
{
    read_u32_at(bytes, off) as i32
}

/// Copies `bytes[start..end]` out into a fresh vector.
pub fn copy_range(bytes: &[u8], start: usize, end: usize) -> (r: Vec<u8>)
    requires
        start <= end <= bytes@.len(),
    ensures
        r@ == bytes@.subrange(start as int, end as int),
{
    vstd::slice::slice_to_vec(vstd::slice::slice_subrange(bytes, start, end))
}

} // verus!
