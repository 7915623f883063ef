//! Little-endian integers and 32-byte keys in byte strings.
//!
//! Values are stated by arithmetic on the bytes: byte `i` of an integer
//! counts `256^i` times its value.

use vstd::prelude::*;

verus! {

/// The value of two bytes read as a little-endian integer.
pub open spec fn u16_from_le(b: Seq<u8>) -> int
    recommends
        b.len() == 2,
{
    b[0] as int + 0x100 * b[1] as int
}

/// The value of eight bytes read as a little-endian integer.
pub open spec fn u64_from_le(b: Seq<u8>) -> int
    recommends
        b.len() == 8,
{
    b[0] as int + 0x100 * b[1] as int + 0x1_0000 * b[2] as int + 0x100_0000 * b[3] as int
        + 0x1_0000_0000 * b[4] as int + 0x100_0000_0000 * b[5] as int + 0x1_0000_0000_0000
        * b[6] as int + 0x100_0000_0000_0000 * b[7] as int
}

/// The value of sixteen bytes read as a little-endian integer: the low
/// eight bytes, and the high eight counted `2^64` times.
pub open spec fn u128_from_le(b: Seq<u8>) -> int
    recommends
        b.len() == 16,
{
    u64_from_le(b.subrange(0, 8)) + 0x1_0000_0000_0000_0000 * u64_from_le(b.subrange(8, 16))
}

/// The two bytes of `v`, low byte first.
pub open spec fn u16_to_le(v: u16) -> Seq<u8> {
    seq![(v % 0x100) as u8, (v / 0x100) as u8]
}

/// The eight bytes of `v`, low byte first.
pub open spec fn u64_to_le(v: u64) -> Seq<u8> {
    seq![
        (v % 0x100) as u8,
        (v / 0x100 % 0x100) as u8,
        (v / 0x1_0000 % 0x100) as u8,
        (v / 0x100_0000 % 0x100) as u8,
        (v / 0x1_0000_0000 % 0x100) as u8,
        (v / 0x100_0000_0000 % 0x100) as u8,
        (v / 0x1_0000_0000_0000 % 0x100) as u8,
        (v / 0x100_0000_0000_0000) as u8,
    ]
}

/// The sixteen bytes of `v`, low byte first.
pub open spec fn u128_to_le(v: u128) -> Seq<u8> {
    u64_to_le((v % 0x1_0000_0000_0000_0000) as u64) + u64_to_le(
        (v / 0x1_0000_0000_0000_0000) as u64,
    )
}

/// Reading back the bytes of a 16-bit integer gives the integer.
pub proof fn lemma_u16_le_roundtrip(v: u16)
    ensures
        u16_to_le(v).len() == 2,
        u16_from_le(u16_to_le(v)) == v,
{
}

/// Reading back the bytes of a 64-bit integer gives the integer.
pub proof fn lemma_u64_le_roundtrip(v: u64)
    ensures
        u64_to_le(v).len() == 8,
        u64_from_le(u64_to_le(v)) == v,
{
    let q1 = v / 0x100;
    let q2 = q1 / 0x100;
    let q3 = q2 / 0x100;
    let q4 = q3 / 0x100;
    let q5 = q4 / 0x100;
    let q6 = q5 / 0x100;
    let q7 = q6 / 0x100;
    assert(q2 == v / 0x1_0000);
    assert(q3 == v / 0x100_0000);
    assert(q4 == v / 0x1_0000_0000);
    assert(q5 == v / 0x100_0000_0000);
    assert(q6 == v / 0x1_0000_0000_0000);
    assert(q7 == v / 0x100_0000_0000_0000);
    let b = u64_to_le(v);
    assert(b[0] == v - 0x100 * q1);
    assert(b[1] == q1 - 0x100 * q2);
    assert(b[2] == q2 - 0x100 * q3);
    assert(b[3] == q3 - 0x100 * q4);
    assert(b[4] == q4 - 0x100 * q5);
    assert(b[5] == q5 - 0x100 * q6);
    assert(b[6] == q6 - 0x100 * q7);
    assert(b[7] == q7);
}

/// Reading back the bytes of a 128-bit integer gives the integer.
pub proof fn lemma_u128_le_roundtrip(v: u128)
    ensures
        u128_to_le(v).len() == 16,
        u128_from_le(u128_to_le(v)) == v,
{
    let low = (v % 0x1_0000_0000_0000_0000) as u64;
    let high = (v / 0x1_0000_0000_0000_0000) as u64;
    lemma_u64_le_roundtrip(low);
    lemma_u64_le_roundtrip(high);
    assert(u128_to_le(v).subrange(0, 8) =~= u64_to_le(low));
    assert(u128_to_le(v).subrange(8, 16) =~= u64_to_le(high));
}

/// Reads the little-endian 16-bit integer at `data[at..at + 2]`.
pub fn read_u16_le(data: &[u8], at: usize) -> (v: u16)
    requires
        at + 2 <= data.len(),
    ensures
        v == u16_from_le(data@.subrange(at as int, at + 2)),
{
    let low: u16 = data[at] as u16;
    let high: u16 = data[at + 1] as u16;
    low + 0x100 * high
}

/// Reads the little-endian 64-bit integer at `data[at..at + 8]`.
pub fn read_u64_le(data: &[u8], at: usize) -> (v: u64)
    requires
        at + 8 <= data.len(),
    ensures
        v == u64_from_le(data@.subrange(at as int, at + 8)),
{
    let b0: u64 = data[at] as u64;
    let b1: u64 = data[at + 1] as u64;
    let b2: u64 = data[at + 2] as u64;
    let b3: u64 = data[at + 3] as u64;
    let b4: u64 = data[at + 4] as u64;
    let b5: u64 = data[at + 5] as u64;
    let b6: u64 = data[at + 6] as u64;
    let b7: u64 = data[at + 7] as u64;
    b0 + 0x100 * b1 + 0x1_0000 * b2 + 0x100_0000 * b3 + 0x1_0000_0000 * b4 + 0x100_0000_0000 * b5
        + 0x1_0000_0000_0000 * b6 + 0x100_0000_0000_0000 * b7
}

/// Reads the little-endian 128-bit integer at `data[at..at + 16]`.
pub fn read_u128_le(data: &[u8], at: usize) -> (v: u128)
    requires
        at + 16 <= data.len(),
    ensures
        v == u128_from_le(data@.subrange(at as int, at + 16)),
{
    let low: u64 = read_u64_le(data, at);
    let high: u64 = read_u64_le(data, at + 8);
    proof {
        let whole = data@.subrange(at as int, at + 16);
        assert(whole.subrange(0, 8) =~= data@.subrange(at as int, at + 8));
        assert(whole.subrange(8, 16) =~= data@.subrange(at + 8, at + 16));
    }
    (low as u128) + 0x1_0000_0000_0000_0000 * (high as u128)
}

/// Copies the 32-byte key at `data[at..at + 32]`.
pub fn read_key(data: &[u8], at: usize) -> (key: [u8; 32])
    requires
        at + 32 <= data.len(),
    ensures
        key@ == data@.subrange(at as int, at + 32),
{
    let mut key: [u8; 32] = [0u8; 32];
    let mut i: usize = 0;
    while i < 32
        invariant
            i <= 32,
            at + 32 <= data.len(),
            forall|j: int| 0 <= j < i ==> key@[j] == data@[at + j],
        decreases 32 - i,
    {
        key[i] = data[at + i];
        i += 1;
    }
    assert(key@ =~= data@.subrange(at as int, at + 32));
    key
}

/// Appends the two bytes of `v`, low byte first.
pub fn push_u16_le(out: &mut Vec<u8>, v: u16)
    ensures
        final(out)@ == old(out)@ + u16_to_le(v),
{
    out.push((v % 0x100) as u8);
    out.push((v / 0x100) as u8);
    assert(out@ =~= old(out)@ + u16_to_le(v));
}

/// Appends the eight bytes of `v`, low byte first.
pub fn push_u64_le(out: &mut Vec<u8>, v: u64)
    ensures
        final(out)@ == old(out)@ + u64_to_le(v),
{
    out.push((v % 0x100) as u8);
    out.push((v / 0x100 % 0x100) as u8);
    out.push((v / 0x1_0000 % 0x100) as u8);
    out.push((v / 0x100_0000 % 0x100) as u8);
    out.push((v / 0x1_0000_0000 % 0x100) as u8);
    out.push((v / 0x100_0000_0000 % 0x100) as u8);
    out.push((v / 0x1_0000_0000_0000 % 0x100) as u8);
    out.push((v / 0x100_0000_0000_0000) as u8);
    assert(out@ =~= old(out)@ + u64_to_le(v));
}

/// Appends the sixteen bytes of `v`, low byte first.
pub fn push_u128_le(out: &mut Vec<u8>, v: u128)
    ensures
        final(out)@ == old(out)@ + u128_to_le(v),
{
    push_u64_le(out, (v % 0x1_0000_0000_0000_0000) as u64);
    push_u64_le(out, (v / 0x1_0000_0000_0000_0000) as u64);
    assert(out@ =~= old(out)@ + u128_to_le(v));
}

/// Appends the 32 bytes of a key.
pub fn push_key(out: &mut Vec<u8>, key: &[u8; 32])
    ensures
        final(out)@ == old(out)@ + key@,
{
    let mut i: usize = 0;
    while i < 32
        invariant
            i <= 32,
            out@ == old(out)@ + key@.subrange(0, i as int),
        decreases 32 - i,
    {
        out.push(key[i]);
        assert(out@ =~= old(out)@ + key@.subrange(0, i + 1));
        i += 1;
    }
    assert(key@.subrange(0, 32) =~= key@);
}

/// Whether two keys hold the same bytes.
pub fn keys_equal(a: &[u8; 32], b: &[u8; 32]) -> (same: bool)
    ensures
        same <==> a@ == b@,
{
    let mut i: usize = 0;
    while i < 32
        invariant
            i <= 32,
            forall|j: int| 0 <= j < i ==> a@[j] == b@[j],
        decreases 32 - i,
    {
        if a[i] != b[i] {
            return false;
        }
        i += 1;
    }
    assert(a@ =~= b@);
    true
}

} // verus!
