//! Big-endian fixed-width fields inside a byte buffer.

use vstd::prelude::*;

verus! {

/// The 16-bit big-endian number at `at`.
pub open spec fn be_u16(bytes: Seq<u8>, at: int) -> int {
    bytes[at] as int * 0x100 + bytes[at + 1] as int
}

/// The 32-bit big-endian number at `at`.
pub open spec fn be_u32(bytes: Seq<u8>, at: int) -> int {
    be_u16(bytes, at) * 0x1_0000 + be_u16(bytes, at + 2)
}

/// The 64-bit big-endian number at `at`.
pub open spec fn be_u64(bytes: Seq<u8>, at: int) -> int {
    be_u32(bytes, at) * 0x1_0000_0000 + be_u32(bytes, at + 4)
}

/// The number that a byte string of any length denotes, read big-endian.
pub open spec fn be_nat(bytes: Seq<u8>) -> nat
    decreases bytes.len(),
{
    if bytes.len() == 0 {
        0
    } else {
        be_nat(bytes.drop_last()) * 0x100 + bytes.last() as nat
    }
}

/// Zero bytes denote zero.
pub proof fn lemma_zeros_denote_zero(bytes: Seq<u8>)
    requires
        forall|i: int| 0 <= i < bytes.len() ==> bytes[i] == 0,
    ensures
        be_nat(bytes) == 0,
    decreases bytes.len(),
{
    if bytes.len() > 0 {
        lemma_zeros_denote_zero(bytes.drop_last());
    }
}

/// Bytes that are zero but for the last denote what the last byte holds.
pub proof fn lemma_low_byte_value(bytes: Seq<u8>)
    requires
        bytes.len() > 0,
        forall|i: int| 0 <= i < bytes.len() - 1 ==> bytes[i] == 0,
    ensures
        be_nat(bytes) == bytes.last(),
{
    lemma_zeros_denote_zero(bytes.drop_last());
}

/// Reads the 16-bit big-endian number at `at`.
pub(crate) fn read_u16(buf: &[u8], at: usize) -> (value: u16)
    requires
        at + 2 <= buf@.len(),
    ensures
        value == be_u16(buf@, at as int),
{
    let hi: u16 = buf[at] as u16;
    let lo: u16 = buf[at + 1] as u16;
    hi * 0x100 + lo
}

/// Reads the 32-bit big-endian number at `at`.
pub(crate) fn read_u32(buf: &[u8], at: usize) -> (value: u32)
    requires
        at + 4 <= buf@.len(),
    ensures
        value == be_u32(buf@, at as int),
{
    let _ = buf.len();
    let hi: u32 = read_u16(buf, at) as u32;
    let lo: u32 = read_u16(buf, at + 2) as u32;
    hi * 0x1_0000 + lo
}

/// Reads the 64-bit big-endian number at `at`.
pub(crate) fn read_u64(buf: &[u8], at: usize) -> (value: u64)
    requires
        at + 8 <= buf@.len(),
    ensures
        value == be_u64(buf@, at as int),
{
    let _ = buf.len();
    let hi: u64 = read_u32(buf, at) as u64;
    let lo: u64 = read_u32(buf, at + 4) as u64;
    hi * 0x1_0000_0000 + lo
}

/// Copies the `N` bytes at `at` into an array.
pub(crate) fn read_array<const N: usize>(buf: &[u8], at: usize) -> (field: [u8; N])
    requires
        at + N <= buf@.len(),
    ensures
        field@ == buf@.subrange(at as int, at + N),
{
    let _ = buf.len();
    let mut field = [0u8; N];
    let mut i: usize = 0;
    while i < N
        invariant
            i <= N,
            at + N <= buf@.len() <= usize::MAX,
            forall|k: int| 0 <= k < i ==> field@[k] == buf@[at + k],
        decreases N - i,
    {
        field[i] = buf[at + i];
        i = i + 1;
    }
    assert(field@ =~= buf@.subrange(at as int, at + N));
    field
}

/// Copies the bytes from `from` up to `to` into a vector.
pub(crate) fn read_bytes(buf: &[u8], from: usize, to: usize) -> (field: Vec<u8>)
    requires
        from <= to <= buf@.len(),
    ensures
        field@ == buf@.subrange(from as int, to as int),
{
    let mut field: Vec<u8> = Vec::new();
    let mut i: usize = from;
    while i < to
        invariant
            from <= i <= to <= buf@.len(),
            field@ == buf@.subrange(from as int, i as int),
        decreases to - i,
    {
        field.push(buf[i]);
        assert(field@ =~= buf@.subrange(from as int, i + 1));
        i = i + 1;
    }
    field
}

} // verus!
