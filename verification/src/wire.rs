//! Big-endian integer encoding and decoding for the wire format.
//!
//! Every multi-byte integer of the protocol travels most-significant byte
//! first; these helpers are shared by the frame encoder, the feedback
//! decoder and the error-reply parser.
use vstd::prelude::*;

verus! {

/// Big-endian encoding of a 16-bit value: high byte first.
pub open spec fn spec_be16(n: u16) -> Seq<u8> {
    seq![(n / 256) as u8, (n % 256) as u8]
}

/// Big-endian encoding of a 32-bit value: most-significant byte first.
pub open spec fn spec_be32(n: u32) -> Seq<u8> {
    seq![
        (n / 0x1000000) as u8,
        ((n / 0x10000) % 256) as u8,
        ((n / 256) % 256) as u8,
        (n % 256) as u8,
    ]
}

/// The 32-bit value read from four big-endian bytes.
pub open spec fn spec_be32_val(s: Seq<u8>) -> u32
    recommends
        s.len() == 4,
{
    (s[0] * 0x1000000 + s[1] * 0x10000 + s[2] * 256 + s[3]) as u32
}

/// Writes a 16-bit value as two big-endian bytes.
pub fn be16_bytes(n: u16) -> (r: Vec<u8>)
    ensures
        r@ == spec_be16(n),
{
    let mut v: Vec<u8> = Vec::new();
    v.push((n / 256) as u8);
    v.push((n % 256) as u8);
    proof {
        assert(v@ =~= spec_be16(n));
    }
    v
}

/// Writes a 32-bit value as four big-endian bytes.
pub fn be32_bytes(n: u32) -> (r: Vec<u8>)
    ensures
        r@ == spec_be32(n),
{
    let mut v: Vec<u8> = Vec::new();
    v.push((n / 0x1000000) as u8);
    v.push(((n / 0x10000) % 256) as u8);
    v.push(((n / 256) % 256) as u8);
    v.push((n % 256) as u8);
    proof {
        assert(v@ =~= spec_be32(n));
    }
    v
}

/// Reads the 32-bit value held by four big-endian bytes.
pub fn be32_val(s: &[u8]) -> (r: u32)
    requires
        s@.len() == 4,
    ensures
        r == spec_be32_val(s@),
{
    (s[0] as u32) * 0x1000000 + (s[1] as u32) * 0x10000 + (s[2] as u32) * 256 + (s[3] as u32)
}

} // verus!
