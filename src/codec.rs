//! Byte encodings of the values that get hashed or signed.
//!
//! Integers are little-endian of fixed width; lengths of variable-size data use
//! the compact prefix (two low bits select the width of what follows).
use vstd::prelude::*;

verus! {

/// The `k` low bytes of `n`, least significant first.
pub open spec fn le_bytes(n: nat, k: nat) -> Seq<u8>
    decreases k,
{
    if k == 0 {
        Seq::empty()
    } else {
        seq![(n % 256) as u8] + le_bytes(n / 256, (k - 1) as nat)
    }
}

/// Number of bytes needed to write `n` (at least one).
pub open spec fn byte_len(n: nat) -> nat
    decreases n,
{
    if n < 256 {
        1
    } else {
        1 + byte_len(n / 256)
    }
}

/// The compact prefix of a length or count.
pub open spec fn compact(n: nat) -> Seq<u8> {
    if n < 0x40 {
        le_bytes(4 * n, 1)
    } else if n < 0x4000 {
        le_bytes(4 * n + 1, 2)
    } else if n < 0x4000_0000 {
        le_bytes(4 * n + 2, 4)
    } else {
        seq![((byte_len(n) - 4) * 4 + 3) as u8] + le_bytes(n, byte_len(n))
    }
}

/// A length-prefixed byte string.
pub open spec fn bytes_enc(b: Seq<u8>) -> Seq<u8> {
    compact(b.len()) + b
}

/// A 32-bit integer.
pub open spec fn u32_enc(x: u32) -> Seq<u8> {
    le_bytes(x as nat, 4)
}

/// Appends the `k` low bytes of `v`.
pub fn push_le(out: &mut Vec<u8>, v: u64, k: usize)
    ensures
        final(out)@ == old(out)@ + le_bytes(v as nat, k as nat),
    decreases k,
{
    if k == 0 {
        assert(old(out)@ + le_bytes(v as nat, 0) =~= old(out)@);
        return;
    }
    let ghost before = out@;
    out.push((v % 256) as u8);
    push_le(out, v / 256, k - 1);
    assert(before + le_bytes(v as nat, k as nat) =~= before.push((v % 256) as u8) + le_bytes(
        (v / 256) as nat,
        (k - 1) as nat,
    ));
}

/// Number of bytes needed to write `v`.
fn byte_count(v: u64) -> (r: usize)
    ensures
        r as nat == byte_len(v as nat),
        1 <= r <= 8,
{
    proof {
        reveal_with_fuel(byte_len, 9);
    }
    if v < 0x100 {
        1
    } else if v < 0x1_0000 {
        2
    } else if v < 0x100_0000 {
        3
    } else if v < 0x1_0000_0000 {
        4
    } else if v < 0x100_0000_0000 {
        5
    } else if v < 0x1_0000_0000_0000 {
        6
    } else if v < 0x100_0000_0000_0000 {
        7
    } else {
        8
    }
}

/// Appends the compact prefix of `n`.
pub fn push_compact(out: &mut Vec<u8>, n: u64)
    ensures
        final(out)@ == old(out)@ + compact(n as nat),
{
    if n < 0x40 {
        push_le(out, n * 4, 1);
    } else if n < 0x4000 {
        push_le(out, n * 4 + 1, 2);
    } else if n < 0x4000_0000 {
        push_le(out, n * 4 + 2, 4);
    } else {
        let k = byte_count(n);
        proof {
            reveal_with_fuel(byte_len, 5);
        }
        assert(k >= 4);
        let ghost before = out@;
        out.push(((k - 4) * 4 + 3) as u8);
        push_le(out, n, k);
        assert(before + compact(n as nat) =~= before.push(((k - 4) * 4 + 3) as u8) + le_bytes(
            n as nat,
            k as nat,
        ));
    }
}

/// Appends every byte of `b`.
pub fn push_all(out: &mut Vec<u8>, b: &Vec<u8>)
    ensures
        final(out)@ == old(out)@ + b@,
{
    let ghost before = out@;
    let mut i: usize = 0;
    while i < b.len()
        invariant
            i <= b@.len(),
            out@ == before + b@.subrange(0, i as int),
        decreases b@.len() - i,
    {
        out.push(b[i]);
        i = i + 1;
        assert(out@ =~= before + b@.subrange(0, i as int));
    }
    assert(b@.subrange(0, b@.len() as int) =~= b@);
}

/// Appends `b` with its length prefix.
pub fn push_bytes(out: &mut Vec<u8>, b: &Vec<u8>)
    ensures
        final(out)@ == old(out)@ + bytes_enc(b@),
{
    let ghost before = out@;
    push_compact(out, b.len() as u64);
    push_all(out, b);
    assert(before + bytes_enc(b@) =~= before + compact(b@.len()) + b@);
}

/// Appends a 32-bit integer.
pub fn push_u32(out: &mut Vec<u8>, x: u32)
    ensures
        final(out)@ == old(out)@ + u32_enc(x),
{
    push_le(out, x as u64, 4);
}

} // verus!
