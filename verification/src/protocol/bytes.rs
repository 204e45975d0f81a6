use vstd::prelude::*;

verus! {

/// The little-endian `u16` stored at `off`.
pub open spec fn le_u16(b: Seq<u8>, off: int) -> u16 {
    (b[off] as int + 0x100 * b[off + 1] as int) as u16
}

/// The little-endian `u32` stored at `off`.
pub open spec fn le_u32(b: Seq<u8>, off: int) -> u32 {
    (b[off] as int + 0x100 * b[off + 1] as int + 0x1_0000 * b[off + 2] as int + 0x100_0000
        * b[off + 3] as int) as u32
}

/// The little-endian `u64` stored at `off`.
pub open spec fn le_u64(b: Seq<u8>, off: int) -> u64 {
    (le_u32(b, off) as int + 0x1_0000_0000 * le_u32(b, off + 4) as int) as u64
}

pub open spec fn u16_le_bytes(v: u16) -> Seq<u8> {
    seq![(v % 0x100) as u8, (v / 0x100) as u8]
}

pub open spec fn u32_le_bytes(v: u32) -> Seq<u8> {
    seq![
        (v % 0x100) as u8,
        ((v / 0x100) % 0x100) as u8,
        ((v / 0x1_0000) % 0x100) as u8,
        (v / 0x100_0000) as u8,
    ]
}

pub open spec fn u64_le_bytes(v: u64) -> Seq<u8> {
    u32_le_bytes((v % 0x1_0000_0000) as u32) + u32_le_bytes((v / 0x1_0000_0000) as u32)
}

/// `n` zero bytes.
pub open spec fn zeros(n: nat) -> Seq<u8> {
    Seq::new(n, |i: int| 0u8)
}

pub proof fn lemma_u16_round_trip(v: u16)
    ensures
        u16_le_bytes(v).len() == 2,
        le_u16(u16_le_bytes(v), 0) == v,
{
}

pub proof fn lemma_u32_round_trip(v: u32)
    ensures
        u32_le_bytes(v).len() == 4,
        le_u32(u32_le_bytes(v), 0) == v,
{
}

pub proof fn lemma_u64_round_trip(v: u64)
    ensures
        u64_le_bytes(v).len() == 8,
        le_u64(u64_le_bytes(v), 0) == v,
{
    let lo = (v % 0x1_0000_0000) as u32;
    let hi = (v / 0x1_0000_0000) as u32;
    lemma_u32_round_trip(lo);
    lemma_u32_round_trip(hi);
    let s = u64_le_bytes(v);
    assert(s.subrange(0, 4) =~= u32_le_bytes(lo));
    assert(s.subrange(4, 8) =~= u32_le_bytes(hi));
    assert(le_u32(s, 0) == le_u32(u32_le_bytes(lo), 0));
    assert(le_u32(s, 4) == le_u32(u32_le_bytes(hi), 0));
}

pub proof fn lemma_le_u16_bytes(b: Seq<u8>, off: int)
    requires
        0 <= off,
        off + 2 <= b.len(),
    ensures
        u16_le_bytes(le_u16(b, off)) == b.subrange(off, off + 2),
{
    assert(u16_le_bytes(le_u16(b, off)) =~= b.subrange(off, off + 2));
}

proof fn lemma_split_u32(x0: u32, x1: u32, x2: u32, x3: u32)
    by (bit_vector)
    requires
        x0 < 256,
        x1 < 256,
        x2 < 256,
        x3 < 256,
    ensures
        x0 + 256 * x1 + 65536 * x2 + 16777216 * x3 < 0x1_0000_0000,
        ((x0 + 256 * x1 + 65536 * x2 + 16777216 * x3) as u32) % 256 == x0,
        (((x0 + 256 * x1 + 65536 * x2 + 16777216 * x3) as u32) / 256) % 256 == x1,
        (((x0 + 256 * x1 + 65536 * x2 + 16777216 * x3) as u32) / 65536) % 256 == x2,
        ((x0 + 256 * x1 + 65536 * x2 + 16777216 * x3) as u32) / 16777216 == x3,
{
}

pub proof fn lemma_le_u32_bytes(b: Seq<u8>, off: int)
    requires
        0 <= off,
        off + 4 <= b.len(),
    ensures
        u32_le_bytes(le_u32(b, off)) == b.subrange(off, off + 4),
{
    let x0 = b[off] as u32;
    let x1 = b[off + 1] as u32;
    let x2 = b[off + 2] as u32;
    let x3 = b[off + 3] as u32;
    lemma_split_u32(x0, x1, x2, x3);
    let v = le_u32(b, off);
    assert(v == (x0 + 256 * x1 + 65536 * x2 + 16777216 * x3) as u32);
    assert(u32_le_bytes(v) =~= b.subrange(off, off + 4));
}

pub proof fn lemma_le_u64_bytes(b: Seq<u8>, off: int)
    requires
        0 <= off,
        off + 8 <= b.len(),
    ensures
        u64_le_bytes(le_u64(b, off)) == b.subrange(off, off + 8),
{
    let v = le_u64(b, off);
    let lo = le_u32(b, off);
    let hi = le_u32(b, off + 4);
    assert(v % 0x1_0000_0000 == lo);
    assert(v / 0x1_0000_0000 == hi);
    lemma_le_u32_bytes(b, off);
    lemma_le_u32_bytes(b, off + 4);
    assert(u64_le_bytes(v) =~= b.subrange(off, off + 8));
}

/// Reads the little-endian `u16` at `off`.
pub fn read_u16_le(bytes: &[u8], off: usize) -> (r: u16)
    requires
        off + 2 <= bytes@.len(),
    ensures
        r == le_u16(bytes@, off as int),
{
    (bytes[off] as u16) + (bytes[off + 1] as u16) * 0x100
}

/// Reads the little-endian `u32` at `off`.
pub fn read_u32_le(bytes: &[u8], off: usize) -> (r: u32)
    requires
        off + 4 <= bytes@.len(),
    ensures
        r == le_u32(bytes@, off as int),
{
    (bytes[off] as u32) + (bytes[off + 1] as u32) * 0x100 + (bytes[off + 2] as u32) * 0x1_0000
        + (bytes[off + 3] as u32) * 0x100_0000
}

/// Reads the little-endian `u64` at `off`.
pub fn read_u64_le(bytes: &[u8], off: usize) -> (r: u64)
    requires
        off + 8 <= bytes@.len(),
    ensures
        r == le_u64(bytes@, off as int),
{
    let len = bytes.len();
    let lo = read_u32_le(bytes, off) as u64;
    let hi = read_u32_le(bytes, off + 4) as u64;
    lo + hi * 0x1_0000_0000
}

pub fn push_u16_le(out: &mut Vec<u8>, v: u16)
    ensures
        final(out)@ == old(out)@ + u16_le_bytes(v),
{
    out.push((v % 0x100) as u8);
    out.push((v / 0x100) as u8);
    assert(out@ =~= old(out)@ + u16_le_bytes(v));
}

pub fn push_u32_le(out: &mut Vec<u8>, v: u32)
    ensures
        final(out)@ == old(out)@ + u32_le_bytes(v),
{
    out.push((v % 0x100) as u8);
    out.push(((v / 0x100) % 0x100) as u8);
    out.push(((v / 0x1_0000) % 0x100) as u8);
    out.push((v / 0x100_0000) as u8);
    assert(out@ =~= old(out)@ + u32_le_bytes(v));
}

pub fn push_u64_le(out: &mut Vec<u8>, v: u64)
    ensures
        final(out)@ == old(out)@ + u64_le_bytes(v),
{
    let ghost start = out@;
    push_u32_le(out, (v % 0x1_0000_0000) as u32);
    push_u32_le(out, (v / 0x1_0000_0000) as u32);
    assert(out@ =~= start + u64_le_bytes(v));
}

pub fn push_zeros(out: &mut Vec<u8>, n: usize)
    ensures
        final(out)@ == old(out)@ + zeros(n as nat),
{
    let ghost start = out@;
    let mut i: usize = 0;
    while i < n
        invariant
            i <= n,
            out@ == start + zeros(i as nat),
        decreases n - i,
    {
        out.push(0u8);
        i = i + 1;
        assert(out@ =~= start + zeros(i as nat));
    }
}

/* IEEE-754 binary32 values, held by their bit pattern. */

/// The value is neither infinite nor NaN: its exponent field is not all ones.
pub open spec fn f32_bits_is_finite(bits: u32) -> bool {
    (bits / 0x80_0000) % 0x100 != 0xFF
}

/// The value compares equal to `0.0` (either `+0.0` or `-0.0`).
pub open spec fn f32_bits_is_zero(bits: u32) -> bool {
    bits % 0x8000_0000 == 0
}

/// The value compares equal to `1.0`.
pub open spec fn f32_bits_is_one(bits: u32) -> bool {
    bits == 0x3F80_0000
}

/// For a finite value: it lies in the closed interval `[0.0, 1.0]`.
/// Non-negative values are ordered like their bit patterns, and `-0.0 == 0.0`.
pub open spec fn f32_bits_in_unit_interval(bits: u32) -> bool {
    bits <= 0x3F80_0000 || bits == 0x8000_0000
}

pub fn f32_bits_finite(bits: u32) -> (r: bool)
    ensures
        r == f32_bits_is_finite(bits),
{
    (bits / 0x80_0000) % 0x100 != 0xFF
}

pub fn f32_bits_zero(bits: u32) -> (r: bool)
    ensures
        r == f32_bits_is_zero(bits),
{
    bits % 0x8000_0000 == 0
}

pub fn f32_bits_one(bits: u32) -> (r: bool)
    ensures
        r == f32_bits_is_one(bits),
{
    bits == 0x3F80_0000
}

pub fn f32_bits_unit_interval(bits: u32) -> (r: bool)
    ensures
        r == f32_bits_in_unit_interval(bits),
{
    bits <= 0x3F80_0000 || bits == 0x8000_0000
}

/// The value is at least `0.5` (NaN compares false; `+inf` is included).
pub open spec fn f32_bits_at_least_half(bits: u32) -> bool {
    0x3F00_0000 <= bits <= 0x7F80_0000
}

pub fn f32_bits_half_or_more(bits: u32) -> (r: bool)
    ensures
        r == f32_bits_at_least_half(bits),
{
    0x3F00_0000 <= bits && bits <= 0x7F80_0000
}

} // verus!
