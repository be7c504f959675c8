//! Little-endian bit encodings of bytes and 64-bit amounts, together with the
//! decodings that read an encoded value back.

use vstd::prelude::*;

verus! {

/// The eight bits of one byte, least-significant bit first.
pub open spec fn byte_bits(b: u8) -> Seq<bool> {
    Seq::new(8, |i: int| (b >> (i as u8)) & 1 == 1)
}

/// The bits of a byte sequence: each byte expanded least-significant-bit
/// first, bytes kept in input order.
pub open spec fn bytes_to_bits_le(s: Seq<u8>) -> Seq<bool> {
    Seq::new(8 * s.len(), |i: int| byte_bits(s[i / 8])[i % 8])
}

/// The byte written by eight bits, least-significant bit first.
pub open spec fn byte_of_bits(bits: Seq<bool>) -> u8
    recommends
        bits.len() == 8,
{
    ((if bits[0] { 1int } else { 0int }) + (if bits[1] { 2int } else { 0int })
        + (if bits[2] { 4int } else { 0int }) + (if bits[3] { 8int } else { 0int })
        + (if bits[4] { 16int } else { 0int }) + (if bits[5] { 32int } else { 0int })
        + (if bits[6] { 64int } else { 0int }) + (if bits[7] { 128int } else { 0int })) as u8
}

/// The bytes read back from a bit sequence, eight bits at a time,
/// least-significant bit first within each group.
pub open spec fn decode_bytes(bits: Seq<bool>) -> Seq<u8> {
    Seq::new(bits.len() / 8, |j: int| byte_of_bits(bits.subrange(8 * j, 8 * j + 8)))
}

/// The eight little-endian bytes of a 64-bit amount.
pub open spec fn u64_le_bytes(v: u64) -> Seq<u8> {
    seq![
        (v & 0xff) as u8,
        ((v >> 8) & 0xff) as u8,
        ((v >> 16) & 0xff) as u8,
        ((v >> 24) & 0xff) as u8,
        ((v >> 32) & 0xff) as u8,
        ((v >> 40) & 0xff) as u8,
        ((v >> 48) & 0xff) as u8,
        ((v >> 56) & 0xff) as u8,
    ]
}

/// The amount written by eight little-endian bytes.
pub open spec fn u64_of_le_bytes(s: Seq<u8>) -> int
    recommends
        s.len() == 8,
{
    s[0] + 0x100 * s[1] + 0x1_0000 * s[2] + 0x100_0000 * s[3] + 0x1_0000_0000 * s[4]
        + 0x100_0000_0000 * s[5] + 0x1_0000_0000_0000 * s[6] + 0x100_0000_0000_0000 * s[7]
}

/// Expanding one byte to bits and reading the bits back yields the byte.
pub proof fn lemma_byte_roundtrip(b: u8)
    ensures
        byte_of_bits(byte_bits(b)) == b,
{
    let bits = byte_bits(b);
    assert(b == (if (b >> 0u8) & 1 == 1 { 1int } else { 0int })
        + (if (b >> 1u8) & 1 == 1 { 2int } else { 0int })
        + (if (b >> 2u8) & 1 == 1 { 4int } else { 0int })
        + (if (b >> 3u8) & 1 == 1 { 8int } else { 0int })
        + (if (b >> 4u8) & 1 == 1 { 16int } else { 0int })
        + (if (b >> 5u8) & 1 == 1 { 32int } else { 0int })
        + (if (b >> 6u8) & 1 == 1 { 64int } else { 0int })
        + (if (b >> 7u8) & 1 == 1 { 128int } else { 0int })) by (bit_vector);
}

/// Expanding a byte sequence to bits least-significant-bit first and reading
/// the bits back in groups of eight reconstructs the sequence exactly.
pub proof fn lemma_bit_encoding_roundtrip(s: Seq<u8>)
    ensures
        decode_bytes(bytes_to_bits_le(s)) == s,
{
    let bits = bytes_to_bits_le(s);
    assert(bits.len() == 8 * s.len());
    assert(bits.len() / 8 == s.len());
    assert forall|j: int| 0 <= j < s.len() implies decode_bytes(bits)[j] == s[j] by {
        let window = bits.subrange(8 * j, 8 * j + 8);
        assert forall|i: int| 0 <= i < 8 implies window[i] == byte_bits(s[j])[i] by {
            assert((8 * j + i) / 8 == j && (8 * j + i) % 8 == i) by (nonlinear_arith)
                requires
                    0 <= i < 8,
                    0 <= j,
            ;
            assert(window[i] == bits[8 * j + i]);
        }
        assert(window =~= byte_bits(s[j]));
        lemma_byte_roundtrip(s[j]);
    }
    assert(decode_bytes(bits) =~= s);
}

/// Splitting an amount into its little-endian bytes and reading the bytes
/// back yields the amount.
pub proof fn lemma_amount_roundtrip(v: u64)
    ensures
        u64_of_le_bytes(u64_le_bytes(v)) == v,
{
    assert((v & 0xff) <= 0xff && ((v >> 8) & 0xff) <= 0xff && ((v >> 16) & 0xff) <= 0xff
        && ((v >> 24) & 0xff) <= 0xff && ((v >> 32) & 0xff) <= 0xff && ((v >> 40) & 0xff) <= 0xff
        && ((v >> 48) & 0xff) <= 0xff && ((v >> 56) & 0xff) <= 0xff) by (bit_vector);
    assert(v == (v & 0xff) + 0x100 * ((v >> 8) & 0xff) + 0x1_0000 * ((v >> 16) & 0xff)
        + 0x100_0000 * ((v >> 24) & 0xff) + 0x1_0000_0000 * ((v >> 32) & 0xff)
        + 0x100_0000_0000 * ((v >> 40) & 0xff) + 0x1_0000_0000_0000 * ((v >> 48) & 0xff)
        + 0x100_0000_0000_0000 * ((v >> 56) & 0xff)) by (bit_vector);
}

} // verus!

