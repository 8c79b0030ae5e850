//! Little-endian and address serialization helpers shared by the record
//! layout and the instruction envelope.

use vstd::prelude::*;
use crate::Address;

verus! {

/// The eight little-endian bytes of a 64-bit integer.
pub open spec fn spec_u64_le(d: u64) -> Seq<u8> {
    seq![
        (d & 0xff) as u8,
        ((d >> 8) & 0xff) as u8,
        ((d >> 16) & 0xff) as u8,
        ((d >> 24) & 0xff) as u8,
        ((d >> 32) & 0xff) as u8,
        ((d >> 40) & 0xff) as u8,
        ((d >> 48) & 0xff) as u8,
        ((d >> 56) & 0xff) as u8,
    ]
}

/// The 64-bit integer read from eight little-endian bytes.
pub open spec fn spec_le_to_u64(b: Seq<u8>) -> u64
    recommends
        b.len() == 8,
{
    ((b[0] as u64) | ((b[1] as u64) << 8) | ((b[2] as u64) << 16) | ((b[3] as u64) << 24)
        | ((b[4] as u64) << 32) | ((b[5] as u64) << 40) | ((b[6] as u64) << 48)
        | ((b[7] as u64) << 56)) as u64
}

/// Reading back the little-endian bytes of `d` yields `d`.
pub proof fn lemma_u64_le_round_trip(d: u64)
    ensures
        spec_le_to_u64(spec_u64_le(d)) == d,
{
    assert(((((d & 0xff) as u8) as u64) | ((((d >> 8) & 0xff) as u8 as u64) << 8)
        | ((((d >> 16) & 0xff) as u8 as u64) << 16) | ((((d >> 24) & 0xff) as u8 as u64) << 24)
        | ((((d >> 32) & 0xff) as u8 as u64) << 32) | ((((d >> 40) & 0xff) as u8 as u64) << 40)
        | ((((d >> 48) & 0xff) as u8 as u64) << 48) | ((((d >> 56) & 0xff) as u8 as u64) << 56))
        == d) by (bit_vector);
}

/// The little-endian bytes of the integer read from eight bytes are those
/// eight bytes again.
pub proof fn lemma_le_bytes_round_trip(b: Seq<u8>)
    requires
        b.len() == 8,
    ensures
        spec_u64_le(spec_le_to_u64(b)) == b,
{
    let x = spec_le_to_u64(b);
    let b0 = b[0];
    let b1 = b[1];
    let b2 = b[2];
    let b3 = b[3];
    let b4 = b[4];
    let b5 = b[5];
    let b6 = b[6];
    let b7 = b[7];
    assert((x & 0xff) as u8 == b0 && ((x >> 8) & 0xff) as u8 == b1 && ((x >> 16) & 0xff) as u8
        == b2 && ((x >> 24) & 0xff) as u8 == b3 && ((x >> 32) & 0xff) as u8 == b4 && ((x >> 40)
        & 0xff) as u8 == b5 && ((x >> 48) & 0xff) as u8 == b6 && ((x >> 56) & 0xff) as u8 == b7)
        by (bit_vector)
        requires
            x == ((b0 as u64) | ((b1 as u64) << 8) | ((b2 as u64) << 16) | ((b3 as u64) << 24)
                | ((b4 as u64) << 32) | ((b5 as u64) << 40) | ((b6 as u64) << 48) | ((b7 as u64)
                << 56)) as u64,
    ;
    assert(spec_u64_le(spec_le_to_u64(b)) =~= b);
}

/// Appends the eight little-endian bytes of `d`.
pub fn push_u64_le(v: &mut Vec<u8>, d: u64)
    ensures
        final(v)@ == old(v)@ + spec_u64_le(d),
{
    assert(d & 0xff < 256 && (d >> 8) & 0xff < 256 && (d >> 16) & 0xff < 256
        && (d >> 24) & 0xff < 256 && (d >> 32) & 0xff < 256 && (d >> 40) & 0xff < 256
        && (d >> 48) & 0xff < 256 && (d >> 56) & 0xff < 256) by (bit_vector);
    v.push((d & 0xff) as u8);
    v.push(((d >> 8) & 0xff) as u8);
    v.push(((d >> 16) & 0xff) as u8);
    v.push(((d >> 24) & 0xff) as u8);
    v.push(((d >> 32) & 0xff) as u8);
    v.push(((d >> 40) & 0xff) as u8);
    v.push(((d >> 48) & 0xff) as u8);
    v.push(((d >> 56) & 0xff) as u8);
    proof {
        assert(final(v)@ =~= old(v)@ + spec_u64_le(d));
    }
}

/// Reads the 64-bit integer stored little-endian at `off`.
pub fn read_u64_le(data: &Vec<u8>, off: usize) -> (r: u64)
    requires
        off + 8 <= data@.len(),
    ensures
        r == spec_le_to_u64(data@.subrange(off as int, off as int + 8)),
{
    let n = data.len();
    assert(off + 8 <= n);
    let r: u64 = (data[off] as u64) | ((data[off + 1] as u64) << 8)
        | ((data[off + 2] as u64) << 16) | ((data[off + 3] as u64) << 24)
        | ((data[off + 4] as u64) << 32) | ((data[off + 5] as u64) << 40)
        | ((data[off + 6] as u64) << 48) | ((data[off + 7] as u64) << 56);
    proof {
        let b = data@.subrange(off as int, off as int + 8);
        assert(b[0] == data@[off as int] && b[1] == data@[off as int + 1]
            && b[2] == data@[off as int + 2] && b[3] == data@[off as int + 3]
            && b[4] == data@[off as int + 4] && b[5] == data@[off as int + 5]
            && b[6] == data@[off as int + 6] && b[7] == data@[off as int + 7]);
    }
    r
}

/// Appends the 32 bytes of an address.
pub fn push_address(v: &mut Vec<u8>, a: &Address)
    ensures
        final(v)@ == old(v)@ + a@,
{
    let mut i: usize = 0;
    while i < 32
        invariant
            i <= 32,
            v@ == old(v)@ + a@.subrange(0, i as int),
        decreases 32 - i,
    {
        v.push(a.bytes[i]);
        proof {
            assert(old(v)@ + a@.subrange(0, i as int) + seq![a@[i as int]]
                =~= old(v)@ + a@.subrange(0, i as int + 1));
        }
        i += 1;
    }
    proof {
        assert(a@.subrange(0, 32) =~= a@);
    }
}

/// Reads the 32-byte address stored at `off`.
pub fn read_address(data: &Vec<u8>, off: usize) -> (r: Address)
    requires
        off + 32 <= data@.len(),
    ensures
        r@ == data@.subrange(off as int, off as int + 32),
{
    let n = data.len();
    let mut out: [u8; 32] = [0u8; 32];
    let mut i: usize = 0;
    while i < 32
        invariant
            i <= 32,
            off + 32 <= n,
            n == data@.len(),
            forall|j: int| 0 <= j < i ==> out@[j] == data@[off + j],
        decreases 32 - i,
    {
        out[i] = data[off + i];
        i += 1;
    }
    let r = Address { bytes: out };
    proof {
        assert(r@ =~= data@.subrange(off as int, off as int + 32));
    }
    r
}

} // verus!
