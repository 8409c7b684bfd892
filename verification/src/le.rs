//! Fixed-width little-endian integers, as bytes and back.

use vstd::prelude::*;

verus! {

/// 256 to the power of `exp`.
pub open spec fn pow256(exp: nat) -> nat
    decreases exp,
{
    if exp == 0 {
        1
    } else {
        256 * pow256((exp - 1) as nat)
    }
}

/// The `width` low-order bytes of `value`, least significant first.
pub open spec fn le_bytes(value: nat, width: nat) -> Seq<u8>
    decreases width,
{
    if width == 0 {
        Seq::empty()
    } else {
        seq![(value % 256) as u8] + le_bytes(value / 256, (width - 1) as nat)
    }
}

/// The number that `bytes` hold, least significant byte first.
pub open spec fn le_value(bytes: Seq<u8>) -> nat
    decreases bytes.len(),
{
    if bytes.len() == 0 {
        0
    } else {
        bytes[0] as nat + 256 * le_value(bytes.skip(1))
    }
}

/// An encoding of `width` bytes has `width` bytes.
pub proof fn lemma_le_bytes_len(value: nat, width: nat)
    ensures
        le_bytes(value, width).len() == width,
    decreases width,
{
    if width > 0 {
        lemma_le_bytes_len(value / 256, (width - 1) as nat);
    }
}

/// The powers of 256 grow with the exponent, from 1.
pub proof fn lemma_pow256_grows(low: nat, high: nat)
    requires
        low <= high,
    ensures
        1 <= pow256(low) <= pow256(high),
    decreases high,
{
    if high == 0 {
    } else if low == high {
        lemma_pow256_grows((low - 1) as nat, (high - 1) as nat);
    } else {
        lemma_pow256_grows(low, (high - 1) as nat);
    }
}

/// Eight bytes reach up to the 64-bit integers and sixteen up to the 128-bit ones.
pub proof fn lemma_pow256_widths()
    ensures
        pow256(8) == 0x1_0000_0000_0000_0000,
        pow256(16) == 0x1_0000_0000_0000_0000_0000_0000_0000_0000,
{
    reveal_with_fuel(pow256, 9);
    assert(pow256(8) == 0x1_0000_0000_0000_0000);
    assert(pow256(16) == pow256(8) * pow256(8)) by {
        assert(pow256(12) == 256 * (256 * (256 * (256 * pow256(8)))));
        assert(pow256(16) == 256 * (256 * (256 * (256 * pow256(12)))));
    }
}

/// The number that `bytes` hold is below 256 to the power of their count.
pub proof fn lemma_le_value_bound(bytes: Seq<u8>)
    ensures
        le_value(bytes) < pow256(bytes.len()),
    decreases bytes.len(),
{
    if bytes.len() > 0 {
        lemma_le_value_bound(bytes.skip(1));
    }
}

/// Decoding undoes encoding, for a value that fits the width.
pub proof fn lemma_le_round_trip(value: nat, width: nat)
    requires
        value < pow256(width),
    ensures
        le_value(le_bytes(value, width)) == value,
    decreases width,
{
    if width > 0 {
        let rest = le_bytes(value / 256, (width - 1) as nat);
        let bytes = le_bytes(value, width);
        assert(bytes.skip(1) =~= rest);
        lemma_le_round_trip(value / 256, (width - 1) as nat);
    }
}

/// Appends the 8-byte little-endian encoding of `value` to `out`.
pub fn put_u64_le(out: &mut Vec<u8>, value: u64)
    ensures
        final(out)@ == old(out)@ + le_bytes(value as nat, 8),
{
    let mut rest: u64 = value;
    let mut i: usize = 0;
    while i < 8
        invariant
            i <= 8,
            out@ + le_bytes(rest as nat, (8 - i) as nat) == old(out)@ + le_bytes(value as nat, 8),
        decreases 8 - i,
    {
        let byte: u8 = (rest % 256) as u8;
        out.push(byte);
        rest = rest / 256;
        i = i + 1;
    }
}

/// Reads the little-endian integer of `width` bytes that starts at `start`.
fn read_le(bytes: &[u8], start: usize, width: usize) -> (value: u128)
    requires
        width <= 16,
        start + width <= bytes@.len(),
    ensures
        value == le_value(bytes@.subrange(start as int, start + width)),
{
    let ghost end = start + width;
    let len = bytes.len();
    let mut value: u128 = 0;
    let mut i: usize = width;
    while i > 0
        invariant
            i <= width <= 16,
            end == start + width,
            end <= bytes@.len() == len,
            value == le_value(bytes@.subrange(start + i, end)),
        decreases i,
    {
        let byte = bytes[start + (i - 1)];
        proof {
            let upper = bytes@.subrange(start + i, end);
            let whole = bytes@.subrange(start + i - 1, end);
            assert(whole.skip(1) =~= upper);
            lemma_le_value_bound(upper);
            lemma_pow256_grows(upper.len(), 15);
            lemma_pow256_grows(15, 16);
            lemma_pow256_widths();
        }
        value = value * 256 + byte as u128;
        i = i - 1;
    }
    value
}

/// Reads the 8-byte little-endian integer that starts at `start`.
pub fn read_u64_le(bytes: &[u8], start: usize) -> (value: u64)
    requires
        start + 8 <= bytes@.len(),
    ensures
        value == le_value(bytes@.subrange(start as int, start + 8)),
{
    let wide = read_le(bytes, start, 8);
    proof {
        lemma_le_value_bound(bytes@.subrange(start as int, start + 8));
        lemma_pow256_widths();
    }
    wide as u64
}

/// Reads the 16-byte little-endian integer that starts at `start`.
pub fn read_u128_le(bytes: &[u8], start: usize) -> (value: u128)
    requires
        start + 16 <= bytes@.len(),
    ensures
        value == le_value(bytes@.subrange(start as int, start + 16)),
{
    read_le(bytes, start, 16)
}

} // verus!
