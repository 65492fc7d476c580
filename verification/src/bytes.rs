//! Little-endian field access on byte buffers.
//!
//! Every multi-byte field in the supported telemetry protocols is encoded
//! little-endian. Single-precision floating-point fields are carried through
//! the library as their raw IEEE-754 bit patterns (`u32`); the one decision the
//! protocols make about such a field, "is it finite?", is a property of the
//! exponent bits and is decided here.
use vstd::prelude::*;

verus! {

/// Unsigned value of the two bytes at `off`, least significant first.
pub open spec fn le_u16(s: Seq<u8>, off: int) -> int {
    s[off] as int + 256 * (s[off + 1] as int)
}

/// Unsigned value of the four bytes at `off`, least significant first.
pub open spec fn le_u32(s: Seq<u8>, off: int) -> int {
    s[off] as int + 256 * (s[off + 1] as int) + 65536 * (s[off + 2] as int)
        + 16777216 * (s[off + 3] as int)
}

/// Unsigned value of the eight bytes at `off`, least significant first.
pub open spec fn le_u64(s: Seq<u8>, off: int) -> int {
    le_u32(s, off) + 4294967296 * le_u32(s, off + 4)
}

/// Two's-complement reading of a 32-bit unsigned value.
pub open spec fn as_i32(u: int) -> int {
    if u < 0x8000_0000 { u } else { u - 0x1_0000_0000 }
}

/// Two's-complement reading of an 8-bit unsigned value.
pub open spec fn as_i8(u: int) -> int {
    if u < 0x80 { u } else { u - 0x100 }
}

/// The signed byte with the same bit pattern as `u`.
pub open spec fn wrap_i8(u: u8) -> i8 {
    as_i8(u as int) as i8
}

/// Two's-complement reading of a 16-bit unsigned value.
pub open spec fn as_i16(u: int) -> int {
    if u < 0x8000 { u } else { u - 0x1_0000 }
}

/// Signed value of the four bytes at `off`.
pub open spec fn le_i32(s: Seq<u8>, off: int) -> int {
    as_i32(le_u32(s, off))
}

/// An IEEE-754 single is finite unless its eight exponent bits are all set.
pub open spec fn float_bits_finite(bits: u32) -> bool {
    (bits / 0x80_0000) % 0x100 != 0xff
}

/// The bit pattern kept for a field whose non-finite values read as `+0.0`.
pub open spec fn finite_or_zero(bits: u32) -> u32 {
    if float_bits_finite(bits) { bits } else { 0 }
}

/// Whether `len` bytes starting at `off` lie inside a buffer of `n` bytes.
pub open spec fn in_bounds(n: int, off: int, len: int) -> bool {
    0 <= off && off + len <= n
}

/// Reads the unsigned 16-bit value at `off`.
pub fn read_u16_le(data: &[u8], off: usize) -> (r: u16)
    requires
        off + 2 <= data@.len(),
    ensures
        r as int == le_u16(data@, off as int),
{
    let b0 = data[off] as u16;
    let b1 = data[off + 1] as u16;
    b0 + 256 * b1
}

/// Reads the unsigned 32-bit value at `off`.
pub fn read_u32_le(data: &[u8], off: usize) -> (r: u32)
    requires
        off + 4 <= data@.len(),
    ensures
        r as int == le_u32(data@, off as int),
{
    let b0 = data[off] as u32;
    let b1 = data[off + 1] as u32;
    let b2 = data[off + 2] as u32;
    let b3 = data[off + 3] as u32;
    b0 + 256 * b1 + 65536 * b2 + 16777216 * b3
}

/// Reads the unsigned 64-bit value at `off`.
pub fn read_u64_le(data: &[u8], off: usize) -> (r: u64)
    requires
        off + 8 <= data@.len(),
    ensures
        r as int == le_u64(data@, off as int),
{
    let n = data.len();
    assert(off + 4 <= n);
    let lo = read_u32_le(data, off) as u64;
    let hi = read_u32_le(data, off + 4) as u64;
    lo + 4294967296 * hi
}

/// Reinterprets a 32-bit pattern as a two's-complement signed value.
pub fn u32_to_i32(u: u32) -> (r: i32)
    ensures
        r as int == as_i32(u as int),
{
    if u < 0x8000_0000 {
        u as i32
    } else {
        let d = (0xFFFF_FFFFu32 - u) as i32;
        -d - 1
    }
}

/// Reinterprets an 8-bit pattern as a two's-complement signed value.
pub fn u8_to_i8(u: u8) -> (r: i8)
    ensures
        r as int == as_i8(u as int),
{
    if u < 0x80 {
        u as i8
    } else {
        let d = (0xFFu8 - u) as i8;
        -d - 1
    }
}

/// Bit pattern of a two's-complement signed byte.
pub fn i8_to_u8(v: i8) -> (r: u8)
    ensures
        as_i8(r as int) == v as int,
        r as int == if v >= 0 { v as int } else { v as int + 256 },
{
    if v >= 0 {
        v as u8
    } else {
        let d = (-(v + 1)) as u8;
        255u8 - d
    }
}

/// Reinterprets a 16-bit pattern as a two's-complement signed value.
pub fn u16_to_i16(u: u16) -> (r: i16)
    ensures
        r as int == as_i16(u as int),
{
    if u < 0x8000 {
        u as i16
    } else {
        let d = (0xFFFFu16 - u) as i16;
        -d - 1
    }
}

/// Reads the signed 32-bit value at `off`.
pub fn read_i32_le(data: &[u8], off: usize) -> (r: i32)
    requires
        off + 4 <= data@.len(),
    ensures
        r as int == le_i32(data@, off as int),
{
    u32_to_i32(read_u32_le(data, off))
}

/// Whether a single-precision bit pattern encodes a finite number.
pub fn is_finite_bits(bits: u32) -> (r: bool)
    ensures
        r == float_bits_finite(bits),
{
    (bits / 0x80_0000) % 0x100 != 0xff
}

/// Reads the single-precision field at `off`, replacing NaN and infinities
/// by `+0.0`.
pub fn read_float_bits_finite(data: &[u8], off: usize) -> (r: u32)
    requires
        off + 4 <= data@.len(),
    ensures
        r == finite_or_zero(le_u32(data@, off as int) as u32),
{
    let b = read_u32_le(data, off);
    if is_finite_bits(b) { b } else { 0 }
}

/// The single-precision field at `off` when it lies inside `d` and is
/// finite.
pub open spec fn float_opt(d: Seq<u8>, off: int) -> Option<u32> {
    if in_bounds(d.len() as int, off, 4) && float_bits_finite(le_u32(d, off) as u32) {
        Some(le_u32(d, off) as u32)
    } else {
        None
    }
}

/// Reads the single-precision field at `off` when it lies inside `data` and
/// is finite; `None` otherwise.
pub fn get_float_bits(data: &[u8], off: usize) -> (r: Option<u32>)
    ensures
        r == float_opt(data@, off as int),
{
    if off <= data.len() && data.len() - off >= 4 {
        let b = read_u32_le(data, off);
        if is_finite_bits(b) { Some(b) } else { None }
    } else {
        None
    }
}

/// Reads the signed 32-bit field at `off` when it lies inside `data`.
pub fn get_i32(data: &[u8], off: usize) -> (r: Option<i32>)
    ensures
        r == (if in_bounds(data@.len() as int, off as int, 4) {
            Some(le_i32(data@, off as int) as i32)
        } else {
            None::<i32>
        }),
{
    if off <= data.len() && data.len() - off >= 4 {
        Some(read_i32_le(data, off))
    } else {
        None
    }
}

/// Reads the unsigned 32-bit field at `off` when it lies inside `data`.
pub fn get_u32(data: &[u8], off: usize) -> (r: Option<u32>)
    ensures
        r == (if in_bounds(data@.len() as int, off as int, 4) {
            Some(le_u32(data@, off as int) as u32)
        } else {
            None::<u32>
        }),
{
    if off <= data.len() && data.len() - off >= 4 {
        Some(read_u32_le(data, off))
    } else {
        None
    }
}

/// Reads the unsigned 16-bit field at `off` when it lies inside `data`.
pub fn get_u16(data: &[u8], off: usize) -> (r: Option<u16>)
    ensures
        r == (if in_bounds(data@.len() as int, off as int, 2) {
            Some(le_u16(data@, off as int) as u16)
        } else {
            None::<u16>
        }),
{
    if off <= data.len() && data.len() - off >= 2 {
        Some(read_u16_le(data, off))
    } else {
        None
    }
}

/// Reads the byte at `off`, or `0` past the end of `data`.
pub fn byte_or_zero(data: &[u8], off: usize) -> (r: u8)
    ensures
        r == (if (off as int) < data@.len() { data@[off as int] } else { 0u8 }),
{
    if off < data.len() { data[off] } else { 0 }
}

/// The two bytes of `v`, least significant first.
pub open spec fn u16_le_bytes(v: int) -> Seq<u8> {
    seq![(v % 256) as u8, ((v / 256) % 256) as u8]
}

/// The four bytes of `v`, least significant first.
pub open spec fn u32_le_bytes(v: int) -> Seq<u8> {
    seq![(v % 256) as u8, ((v / 256) % 256) as u8, ((v / 65536) % 256) as u8,
        ((v / 16777216) % 256) as u8]
}

/// The byte decomposition of a 16-bit value recombines to the value.
pub proof fn lemma_u16_bytes_recombine(v: u16)
    ensures
        (v % 256) as int + 256 * ((v / 256) % 256) as int == v as int,
{
    assert((v % 256) + 256 * ((v / 256) % 256) == v) by (bit_vector);
}

/// The byte decomposition of a 32-bit value recombines to the value.
pub proof fn lemma_u32_bytes_recombine(v: u32)
    ensures
        (v % 256) as int + 256 * ((v / 256) % 256) as int + 65536 * ((v / 65536) % 256) as int
            + 16777216 * ((v / 16777216) % 256) as int == v as int,
{
    assert((v % 256) + 256 * ((v / 256) % 256) + 65536 * ((v / 65536) % 256) + 16777216 * ((v
        / 16777216) % 256) == v) by (bit_vector);
}

/// Appends the two bytes of `v`, least significant first.
pub fn push_u16_le(buf: &mut Vec<u8>, v: u16)
    ensures
        final(buf)@ == old(buf)@ + u16_le_bytes(v as int),
        le_u16(final(buf)@, old(buf)@.len() as int) == v as int,
{
    let b0 = (v % 256) as u8;
    let b1 = ((v / 256) % 256) as u8;
    buf.push(b0);
    buf.push(b1);
    proof { lemma_u16_bytes_recombine(v); }
    assert(final(buf)@ == old(buf)@ + u16_le_bytes(v as int)) by {
        assert(buf@ =~= old(buf)@ + u16_le_bytes(v as int));
    }
}

/// Appends the four bytes of `v`, least significant first.
pub fn push_u32_le(buf: &mut Vec<u8>, v: u32)
    ensures
        final(buf)@ == old(buf)@ + u32_le_bytes(v as int),
        le_u32(final(buf)@, old(buf)@.len() as int) == v as int,
{
    let b0 = (v % 256) as u8;
    let b1 = ((v / 256) % 256) as u8;
    let b2 = ((v / 65536) % 256) as u8;
    let b3 = ((v / 16777216) % 256) as u8;
    buf.push(b0);
    buf.push(b1);
    buf.push(b2);
    buf.push(b3);
    proof { lemma_u32_bytes_recombine(v); }
    assert(buf@ =~= old(buf)@ + u32_le_bytes(v as int));
    let ghost n = old(buf)@.len() as int;
    assert(buf@[n] == b0 && buf@[n + 1] == b1 && buf@[n + 2] == b2 && buf@[n + 3] == b3);
}

/// The 32-bit two's-complement pattern of a signed value.
pub open spec fn i32_bits(v: int) -> int {
    if v >= 0 { v } else { v + 0x1_0000_0000 }
}

/// Bit pattern of a two's-complement signed 32-bit value.
pub fn i32_to_u32(v: i32) -> (r: u32)
    ensures
        r as int == i32_bits(v as int),
        as_i32(r as int) == v as int,
{
    if v >= 0 {
        v as u32
    } else {
        let shifted = (v + 0x4000_0000) + 0x4000_0000;
        (shifted as u32) + 0x8000_0000u32
    }
}

/// Appends the four bytes of a signed value, least significant first.
pub fn push_i32_le(buf: &mut Vec<u8>, v: i32)
    ensures
        final(buf)@ == old(buf)@ + u32_le_bytes(i32_bits(v as int)),
        le_i32(final(buf)@, old(buf)@.len() as int) == v as int,
{
    push_u32_le(buf, i32_to_u32(v));
}

/// `n` zero bytes.
pub open spec fn zeros(n: int) -> Seq<u8> {
    Seq::new(n as nat, |i: int| 0u8)
}

/// Appends `n` zero bytes.
pub fn push_zeros(buf: &mut Vec<u8>, n: usize)
    ensures
        final(buf)@ == old(buf)@ + zeros(n as int),
{
    let ghost start = buf@;
    let mut i: usize = 0;
    while i < n
        invariant
            i <= n,
            buf@ == start + zeros(i as int),
            start == old(buf)@,
        decreases n - i,
    {
        buf.push(0);
        i = i + 1;
        assert(buf@ =~= start + zeros(i as int));
    }
}

/// The two bytes at `off` hold `v` when they are its little-endian encoding.
pub proof fn lemma_le_u16_of(s: Seq<u8>, off: int, v: u16)
    requires
        0 <= off,
        off + 2 <= s.len(),
        s[off] == u16_le_bytes(v as int)[0],
        s[off + 1] == u16_le_bytes(v as int)[1],
    ensures
        le_u16(s, off) == v as int,
{
    lemma_u16_bytes_recombine(v);
}

/// The four bytes at `off` hold `v` when they are its little-endian encoding.
pub proof fn lemma_le_u32_of(s: Seq<u8>, off: int, v: u32)
    requires
        0 <= off,
        off + 4 <= s.len(),
        s[off] == u32_le_bytes(v as int)[0],
        s[off + 1] == u32_le_bytes(v as int)[1],
        s[off + 2] == u32_le_bytes(v as int)[2],
        s[off + 3] == u32_le_bytes(v as int)[3],
    ensures
        le_u32(s, off) == v as int,
{
    lemma_u32_bytes_recombine(v);
}

} // verus!
