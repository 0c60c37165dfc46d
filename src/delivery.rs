//! The wire format by which the runtime's payload is delivered: a 32-bit
//! little-endian length, then that many payload bytes.

use vstd::prelude::*;

verus! {

/// The four little-endian bytes of `n`.
pub open spec fn le_bytes(n: u32) -> Seq<u8> {
    seq![(n % 0x100) as u8, (n / 0x100 % 0x100) as u8, (n / 0x1_0000 % 0x100) as u8, (n / 0x100_0000) as u8]
}

/// The four little-endian bytes of `n`.
pub fn to_le_bytes(n: u32) -> (r: [u8; 4])
    ensures
        r@ == le_bytes(n),
{
    let r = [(n % 0x100) as u8, (n / 0x100 % 0x100) as u8, (n / 0x1_0000 % 0x100) as u8, (n / 0x100_0000) as u8];
    assert(r@ =~= le_bytes(n));
    r
}

/// What is sent for `payload`: its length in four little-endian bytes, then
/// the payload itself.
pub fn frame_payload(payload: &Vec<u8>) -> (r: Vec<u8>)
    requires
        payload@.len() <= u32::MAX,
    ensures
        r@ == le_bytes(payload@.len() as u32) + payload@,
{
    let header = to_le_bytes(payload.len() as u32);
    let mut out: Vec<u8> = Vec::new();
    let mut i: usize = 0;
    while i < 4
        invariant
            i <= 4,
            out@ == header@.take(i as int),
        decreases 4 - i,
    {
        out.push(header[i]);
        assert(out@ =~= header@.take((i + 1) as int));
        i = i + 1;
    }
    let mut j: usize = 0;
    while j < payload.len()
        invariant
            j <= payload@.len(),
            out@ == header@ + payload@.take(j as int),
        decreases payload@.len() - j,
    {
        out.push(payload[j]);
        assert(out@ =~= header@ + payload@.take((j + 1) as int));
        j = j + 1;
    }
    assert(payload@.take(payload@.len() as int) =~= payload@);
    out
}

} // verus!
