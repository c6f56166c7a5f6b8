//! Little-endian integers in byte sequences.
//!
//! Every multi-byte field of a table is stored least significant byte first.

use vstd::prelude::*;

verus! {

/// The 16-bit number stored little-endian at `b[at..at + 2]`.
pub open spec fn le_u16(b: Seq<u8>, at: int) -> int {
    b[at] as int + 0x100 * (b[at + 1] as int)
}

/// The 32-bit number stored little-endian at `b[at..at + 4]`.
pub open spec fn le_u32(b: Seq<u8>, at: int) -> int {
    b[at] as int + 0x100 * (b[at + 1] as int) + 0x1_0000 * (b[at + 2] as int) + 0x100_0000 * (b[at
        + 3] as int)
}

/// The 64-bit number stored little-endian at `b[at..at + 8]`.
pub open spec fn le_u64(b: Seq<u8>, at: int) -> int {
    le_u32(b, at) + 0x1_0000_0000 * le_u32(b, at + 4)
}

/// `longer` is `shorter` with `count` more bytes behind it.
pub open spec fn grown_by(longer: Seq<u8>, shorter: Seq<u8>, count: int) -> bool {
    &&& longer.len() == shorter.len() + count
    &&& forall|k: int| 0 <= k < shorter.len() ==> #[trigger] longer[k] == shorter[k]
}

/// Reads the 16-bit number at `bytes[at..at + 2]`.
pub(crate) fn read_u16(bytes: &[u8], at: usize) -> (value: u16)
    requires
        at + 2 <= bytes.len(),
    ensures
        value == le_u16(bytes@, at as int),
{
    (bytes[at] as u16) + 0x100 * (bytes[at + 1] as u16)
}

/// Reads the 32-bit number at `bytes[at..at + 4]`.
pub(crate) fn read_u32(bytes: &[u8], at: usize) -> (value: u32)
    requires
        at + 4 <= bytes.len(),
    ensures
        value == le_u32(bytes@, at as int),
{
    (bytes[at] as u32) + 0x100 * (bytes[at + 1] as u32) + 0x1_0000 * (bytes[at + 2] as u32)
        + 0x100_0000 * (bytes[at + 3] as u32)
}

/// Reads the 64-bit number at `bytes[at..at + 8]`.
pub(crate) fn read_u64(bytes: &[u8], at: usize) -> (value: u64)
    requires
        at + 8 <= bytes.len(),
    ensures
        value == le_u64(bytes@, at as int),
{
    let low: u32 = read_u32(bytes, at);
    let high: u32 = read_u32(bytes, at + 4);
    (low as u64) + 0x1_0000_0000 * (high as u64)
}

/// Appends the two bytes of `value`.
pub(crate) fn push_u16(out: &mut Vec<u8>, value: u16)
    ensures
        grown_by(final(out)@, old(out)@, 2),
        le_u16(final(out)@, old(out)@.len() as int) == value,
{
    out.push((value % 0x100) as u8);
    out.push((value / 0x100) as u8);
}

/// Appends the four bytes of `value`.
pub(crate) fn push_u32(out: &mut Vec<u8>, value: u32)
    ensures
        grown_by(final(out)@, old(out)@, 4),
        le_u32(final(out)@, old(out)@.len() as int) == value,
{
    out.push((value % 0x100) as u8);
    out.push(((value / 0x100) % 0x100) as u8);
    out.push(((value / 0x1_0000) % 0x100) as u8);
    out.push((value / 0x100_0000) as u8);
}

/// Appends the eight bytes of `value`.
pub(crate) fn push_u64(out: &mut Vec<u8>, value: u64)
    ensures
        grown_by(final(out)@, old(out)@, 8),
        le_u64(final(out)@, old(out)@.len() as int) == value,
{
    push_u32(out, (value % 0x1_0000_0000) as u32);
    push_u32(out, (value / 0x1_0000_0000) as u32);
}

/// Copies the `N` bytes at `bytes[at..at + N]`.
pub(crate) fn read_array<const N: usize>(bytes: &[u8], at: usize) -> (out: [u8; N])
    requires
        at + N <= bytes.len(),
    ensures
        out@ =~= bytes@.subrange(at as int, at + N),
{
    let mut out: [u8; N] = [0u8; N];
    let mut i: usize = 0;
    while i < N
        invariant
            i <= N,
            at + N <= bytes.len(),
            forall|k: int| 0 <= k < i ==> out@[k] == bytes@[at + k],
        decreases N - i,
    {
        out[i] = bytes[at + i];
        i += 1;
    }
    out
}

/// Appends the `N` bytes of `field`.
pub(crate) fn push_array<const N: usize>(out: &mut Vec<u8>, field: &[u8; N])
    ensures
        grown_by(final(out)@, old(out)@, N as int),
        final(out)@.subrange(old(out)@.len() as int, old(out)@.len() + N) =~= field@,
{
    let mut i: usize = 0;
    while i < N
        invariant
            i <= N,
            grown_by(out@, old(out)@, i as int),
            forall|k: int| 0 <= k < i ==> out@[old(out)@.len() + k] == field@[k],
        decreases N - i,
    {
        out.push(field[i]);
        i += 1;
    }
}

/// Two byte pairs that hold the same 16-bit number are the same bytes.
pub proof fn lemma_le_u16_injective(a: Seq<u8>, i: int, b: Seq<u8>, j: int)
    requires
        le_u16(a, i) == le_u16(b, j),
    ensures
        a[i] == b[j],
        a[i + 1] == b[j + 1],
{
}

/// Two byte quadruples that hold the same 32-bit number are the same bytes.
pub proof fn lemma_le_u32_injective(a: Seq<u8>, i: int, b: Seq<u8>, j: int)
    requires
        le_u32(a, i) == le_u32(b, j),
    ensures
        a[i] == b[j],
        a[i + 1] == b[j + 1],
        a[i + 2] == b[j + 2],
        a[i + 3] == b[j + 3],
{
}

/// A number below 2^32 and a multiple of 2^32 add up in one way only.
proof fn lemma_split_at_32_bits(low_a: int, high_a: int, low_b: int, high_b: int)
    requires
        0 <= low_a < 0x1_0000_0000,
        0 <= low_b < 0x1_0000_0000,
        low_a + 0x1_0000_0000 * high_a == low_b + 0x1_0000_0000 * high_b,
    ensures
        low_a == low_b,
        high_a == high_b,
{
}

/// The number at four bytes is below 2^32.
proof fn lemma_le_u32_bound(b: Seq<u8>, at: int)
    ensures
        0 <= le_u32(b, at) < 0x1_0000_0000,
{
}

/// Two runs of eight bytes that hold the same 64-bit number are the same
/// bytes.
pub proof fn lemma_le_u64_injective(a: Seq<u8>, i: int, b: Seq<u8>, j: int)
    requires
        le_u64(a, i) == le_u64(b, j),
    ensures
        a[i] == b[j],
        a[i + 1] == b[j + 1],
        a[i + 2] == b[j + 2],
        a[i + 3] == b[j + 3],
        a[i + 4] == b[j + 4],
        a[i + 5] == b[j + 5],
        a[i + 6] == b[j + 6],
        a[i + 7] == b[j + 7],
{
    let low_a = le_u32(a, i);
    let high_a = le_u32(a, i + 4);
    let low_b = le_u32(b, j);
    let high_b = le_u32(b, j + 4);
    lemma_le_u32_bound(a, i);
    lemma_le_u32_bound(b, j);
    lemma_split_at_32_bits(low_a, high_a, low_b, high_b);
    lemma_le_u32_injective(a, i, b, j);
    lemma_le_u32_injective(a, i + 4, b, j + 4);
}

} // verus!
