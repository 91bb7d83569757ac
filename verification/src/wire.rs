//! Fixed-width little-endian integers, as a datagram carries them.
//!
//! A number of `width` bytes is written least significant byte first. The
//! model is positional arithmetic in base 256, with no bit operations.

use vstd::prelude::*;

verus! {

/// The number of values that `width` bytes can tell apart: 256 to the `width`.
pub open spec fn capacity(width: nat) -> nat
    decreases width,
{
    if width == 0 {
        1
    } else {
        256 * capacity((width - 1) as nat)
    }
}

/// The `width` bytes that stand for `value`, least significant first. A value
/// too large for the width loses its upper part.
pub open spec fn le_bytes(value: nat, width: nat) -> Seq<u8>
    decreases width,
{
    if width == 0 {
        Seq::empty()
    } else {
        seq![(value % 256) as u8] + le_bytes(value / 256, (width - 1) as nat)
    }
}

/// The number that the bytes stand for, least significant first.
pub open spec fn le_value(bytes: Seq<u8>) -> nat
    decreases bytes.len(),
{
    if bytes.len() == 0 {
        0
    } else {
        bytes[0] as nat + 256 * le_value(bytes.drop_first())
    }
}

/// A number takes exactly as many bytes as its width says.
pub proof fn lemma_le_bytes_len(value: nat, width: nat)
    ensures
        le_bytes(value, width).len() == width,
    decreases width,
{
    if width > 0 {
        lemma_le_bytes_len(value / 256, (width - 1) as nat);
    }
}

/// Reading back what was written gives the number again, as long as the
/// number fits in the width.
pub proof fn lemma_le_value_of_bytes(value: nat, width: nat)
    requires
        value < capacity(width),
    ensures
        le_value(le_bytes(value, width)) == value,
    decreases width,
{
    if width > 0 {
        let rest = le_bytes(value / 256, (width - 1) as nat);
        let all = le_bytes(value, width);
        lemma_le_bytes_len(value / 256, (width - 1) as nat);
        lemma_le_value_of_bytes(value / 256, (width - 1) as nat);
        assert(all.drop_first() =~= rest);
        assert(all[0] == (value % 256) as u8);
    }
}

/// Bytes stand for a number below the capacity of their count, and writing
/// that number gives the same bytes: no two byte strings of one length stand
/// for the same number.
pub proof fn lemma_le_bytes_of_value(bytes: Seq<u8>)
    ensures
        le_value(bytes) < capacity(bytes.len()),
        le_bytes(le_value(bytes), bytes.len()) == bytes,
    decreases bytes.len(),
{
    if bytes.len() > 0 {
        let tail = bytes.drop_first();
        lemma_le_bytes_of_value(tail);
        let value = le_value(bytes);
        assert(value == bytes[0] as nat + 256 * le_value(tail));
        assert(value / 256 == le_value(tail));
        assert(value % 256 == bytes[0] as nat);
        assert(le_bytes(value, bytes.len()) =~= bytes);
    }
}

/// Four bytes tell 2^32 values apart, and eight bytes 2^64.
pub proof fn lemma_capacity_of_words()
    ensures
        capacity(4) == 0x1_0000_0000,
        capacity(8) == 0x1_0000_0000_0000_0000,
{
    reveal_with_fuel(capacity, 9);
}

/// Appends `value` to `out` as `width` little-endian bytes.
pub fn push_le(out: &mut Vec<u8>, value: u64, width: usize)
    ensures
        final(out)@ == old(out)@ + le_bytes(value as nat, width as nat),
{
    let mut rest: u64 = value;
    let mut written: usize = 0;
    while written < width
        invariant
            written <= width,
            out@ + le_bytes(rest as nat, (width - written) as nat) == old(out)@ + le_bytes(
                value as nat,
                width as nat,
            ),
        decreases width - written,
    {
        let ghost before = out@;
        let low: u8 = (rest % 256) as u8;
        out.push(low);
        proof {
            let tail = le_bytes((rest / 256) as nat, (width - written - 1) as nat);
            assert(le_bytes(rest as nat, (width - written) as nat) == seq![low] + tail);
            assert(before.push(low) + tail =~= before + (seq![low] + tail));
        }
        rest = rest / 256;
        written = written + 1;
    }
    assert(out@ + Seq::<u8>::empty() =~= out@);
}

/// Reads the `width` bytes of `bytes` that start at `at` as one little-endian
/// number.
pub fn read_le(bytes: &[u8], at: usize, width: usize) -> (value: u64)
    requires
        width <= 8,
        at + width <= bytes@.len(),
    ensures
        value as nat == le_value(bytes@.subrange(at as int, at + width)),
{
    let total: usize = bytes.len();
    let mut value: u64 = 0;
    let mut left: usize = width;
    while left > 0
        invariant
            left <= width <= 8,
            at + width <= total == bytes@.len(),
            value as nat == le_value(bytes@.subrange(at + left, at + width)),
            (value as nat) < capacity((width - left) as nat),
        decreases left,
    {
        left = left - 1;
        let digit: u8 = bytes[at + left];
        proof {
            let wider = bytes@.subrange(at + left, at + width);
            let narrower = bytes@.subrange(at + left + 1, at + width);
            assert(wider.drop_first() =~= narrower);
            assert(wider[0] == digit);
            assert(le_value(wider) == digit as nat + 256 * le_value(narrower));
            lemma_capacity_grows((width - left - 1) as nat, 7);
            assert(capacity(8) == 0x1_0000_0000_0000_0000) by {
                reveal_with_fuel(capacity, 9);
            }
        }
        value = value * 256 + digit as u64;
    }
    value
}

/// More bytes tell more values apart.
pub proof fn lemma_capacity_grows(narrow: nat, wide: nat)
    requires
        narrow <= wide,
    ensures
        capacity(narrow) <= capacity(wide),
    decreases wide,
{
    if narrow < wide {
        lemma_capacity_grows(narrow, (wide - 1) as nat);
    }
}

} // verus!
