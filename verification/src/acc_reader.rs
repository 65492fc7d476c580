//! Cursor over an ACC broadcasting-protocol datagram, and the protocol's
//! length-prefixed UTF-8 strings.
//!
//! Each read either consumes exactly the bytes of its field or fails without
//! moving the cursor. The `sp_*` functions state what a read starting at a
//! given offset yields: the value and the offset after it, or the error.
use crate::bytes::{finite_or_zero, le_i32, le_u16, le_u32, read_u16_le, read_u32_le, read_i32_le, u16_le_bytes};
use crate::error::TelemetryError;
use vstd::prelude::*;
use vstd::utf8::{decode_utf8, encode_utf8, valid_utf8};

verus! {

/// A read of `len` bytes at `off`: the end offset, or why it cannot be made.
pub open spec fn sp_exact(d: Seq<u8>, off: int, len: int) -> Result<int, TelemetryError> {
    if off + len > usize::MAX {
        Err(TelemetryError::OffsetOverflow)
    } else if off + len > d.len() {
        Err(TelemetryError::OutOfBounds { offset: off as usize, len: len as usize })
    } else {
        Ok(off + len)
    }
}

pub open spec fn sp_u8(d: Seq<u8>, off: int) -> Result<(u8, int), TelemetryError> {
    match sp_exact(d, off, 1) {
        Ok(o) => Ok((d[off], o)),
        Err(e) => Err(e),
    }
}

pub open spec fn sp_bool(d: Seq<u8>, off: int) -> Result<(bool, int), TelemetryError> {
    match sp_exact(d, off, 1) {
        Ok(o) => Ok((d[off] != 0, o)),
        Err(e) => Err(e),
    }
}

pub open spec fn sp_u16(d: Seq<u8>, off: int) -> Result<(u16, int), TelemetryError> {
    match sp_exact(d, off, 2) {
        Ok(o) => Ok((le_u16(d, off) as u16, o)),
        Err(e) => Err(e),
    }
}

pub open spec fn sp_i32(d: Seq<u8>, off: int) -> Result<(i32, int), TelemetryError> {
    match sp_exact(d, off, 4) {
        Ok(o) => Ok((le_i32(d, off) as i32, o)),
        Err(e) => Err(e),
    }
}

/// A single-precision field, non-finite values read as `+0.0`.
pub open spec fn sp_float(d: Seq<u8>, off: int) -> Result<(u32, int), TelemetryError> {
    match sp_exact(d, off, 4) {
        Ok(o) => Ok((finite_or_zero(le_u32(d, off) as u32), o)),
        Err(e) => Err(e),
    }
}

/// A string: a 16-bit byte count, then that many bytes of UTF-8.
pub open spec fn sp_string(d: Seq<u8>, off: int) -> Result<(Seq<char>, int), TelemetryError> {
    match sp_u16(d, off) {
        Err(e) => Err(e),
        Ok((n, o)) => match sp_exact(d, o, n as int) {
            Err(e) => Err(e),
            Ok(o2) => if valid_utf8(d.subrange(o, o2)) {
                Ok((decode_utf8(d.subrange(o, o2)), o2))
            } else {
                Err(TelemetryError::InvalidUtf8)
            },
        },
    }
}

/// Bytes of a string as the protocol encodes it.
pub open spec fn string_encoding(chars: Seq<char>) -> Seq<u8> {
    u16_le_bytes(encode_utf8(chars).len() as int) + encode_utf8(chars)
}

/// Decodes `bytes` as UTF-8 into an owned string (`String::from_utf8`).
#[verifier::external_body]
pub(crate) fn string_from_utf8(bytes: Vec<u8>) -> (r: Option<String>)
    ensures
        r is Some <==> valid_utf8(bytes@),
        r matches Some(s) ==> s@ == decode_utf8(bytes@),
{
    String::from_utf8(bytes).ok()
}

/// Reader over the bytes of one datagram.
pub struct PacketReader<'a> {
    pub data: &'a [u8],
    pub offset: usize,
}

impl<'a> PacketReader<'a> {
    pub fn new(data: &'a [u8]) -> (r: Self)
        ensures
            r.data@ == data@,
            r.offset == 0,
    {
        Self { data, offset: 0 }
    }

    /// Consumes the next `len` bytes.
    pub fn read_exact(&mut self, len: usize) -> (r: Result<&'a [u8], TelemetryError>)
        ensures
            final(self).data@ == old(self).data@,
            match sp_exact(old(self).data@, old(self).offset as int, len as int) {
                Ok(o) => r matches Ok(s) && s@ == old(self).data@.subrange(
                    old(self).offset as int,
                    o,
                ) && final(self).offset == o,
                Err(e) => r == Err::<&'a [u8], TelemetryError>(e) && final(self).offset == old(
                    self,
                ).offset,
            },
    {
        if len > usize::MAX - self.offset {
            return Err(TelemetryError::OffsetOverflow);
        }
        let end = self.offset + len;
        if end > self.data.len() {
            return Err(TelemetryError::OutOfBounds { offset: self.offset, len });
        }
        let slice = &self.data[self.offset..end];
        self.offset = end;
        Ok(slice)
    }

    pub fn read_u8(&mut self) -> (r: Result<u8, TelemetryError>)
        ensures
            final(self).data@ == old(self).data@,
            match sp_u8(old(self).data@, old(self).offset as int) {
                Ok((v, o)) => r == Ok::<u8, TelemetryError>(v) && final(self).offset == o,
                Err(e) => r == Err::<u8, TelemetryError>(e) && final(self).offset == old(
                    self,
                ).offset,
            },
    {
        let bytes = self.read_exact(1)?;
        Ok(bytes[0])
    }

    pub fn read_bool_u8(&mut self) -> (r: Result<bool, TelemetryError>)
        ensures
            final(self).data@ == old(self).data@,
            match sp_bool(old(self).data@, old(self).offset as int) {
                Ok((v, o)) => r == Ok::<bool, TelemetryError>(v) && final(self).offset == o,
                Err(e) => r == Err::<bool, TelemetryError>(e) && final(self).offset == old(
                    self,
                ).offset,
            },
    {
        Ok(self.read_u8()? != 0)
    }

    pub fn read_u16_le(&mut self) -> (r: Result<u16, TelemetryError>)
        ensures
            final(self).data@ == old(self).data@,
            match sp_u16(old(self).data@, old(self).offset as int) {
                Ok((v, o)) => r == Ok::<u16, TelemetryError>(v) && final(self).offset == o,
                Err(e) => r == Err::<u16, TelemetryError>(e) && final(self).offset == old(
                    self,
                ).offset,
            },
    {
        let start = self.offset;
        let bytes = self.read_exact(2)?;
        let v = read_u16_le(bytes, 0);
        assert(bytes@[0] == self.data@[start as int] && bytes@[1] == self.data@[start + 1]);
        Ok(v)
    }

    pub fn read_i32_le(&mut self) -> (r: Result<i32, TelemetryError>)
        ensures
            final(self).data@ == old(self).data@,
            match sp_i32(old(self).data@, old(self).offset as int) {
                Ok((v, o)) => r == Ok::<i32, TelemetryError>(v) && final(self).offset == o,
                Err(e) => r == Err::<i32, TelemetryError>(e) && final(self).offset == old(
                    self,
                ).offset,
            },
    {
        let start = self.offset;
        let bytes = self.read_exact(4)?;
        let v = read_i32_le(bytes, 0);
        assert(bytes@[0] == self.data@[start as int] && bytes@[1] == self.data@[start + 1]
            && bytes@[2] == self.data@[start + 2] && bytes@[3] == self.data@[start + 3]);
        Ok(v)
    }

    /// Reads a single-precision field; NaN and infinities read as `+0.0`.
    pub fn read_float_bits(&mut self) -> (r: Result<u32, TelemetryError>)
        ensures
            final(self).data@ == old(self).data@,
            match sp_float(old(self).data@, old(self).offset as int) {
                Ok((v, o)) => r == Ok::<u32, TelemetryError>(v) && final(self).offset == o,
                Err(e) => r == Err::<u32, TelemetryError>(e) && final(self).offset == old(
                    self,
                ).offset,
            },
    {
        let start = self.offset;
        let bytes = self.read_exact(4)?;
        let v = crate::bytes::read_float_bits_finite(bytes, 0);
        assert(bytes@[0] == self.data@[start as int] && bytes@[1] == self.data@[start + 1]
            && bytes@[2] == self.data@[start + 2] && bytes@[3] == self.data@[start + 3]);
        Ok(v)
    }
}

/// Reads a length-prefixed UTF-8 string.
pub fn read_acc_string(reader: &mut PacketReader<'_>) -> (r: Result<String, TelemetryError>)
    ensures
        final(reader).data@ == old(reader).data@,
        match sp_string(old(reader).data@, old(reader).offset as int) {
            Ok((s, o)) => r matches Ok(v) && v@ == s && final(reader).offset == o,
            Err(e) => r == Err::<String, TelemetryError>(e),
        },
{
    let length = reader.read_u16_le()? as usize;
    let raw = reader.read_exact(length)?;
    let bytes = vstd::slice::slice_to_vec(raw);
    match string_from_utf8(bytes) {
        Some(s) => Ok(s),
        None => Err(TelemetryError::InvalidUtf8),
    }
}

/// Appends `value` as a length-prefixed string.
pub fn write_acc_string(buffer: &mut Vec<u8>, value: &str) -> (r: Result<(), TelemetryError>)
    ensures
        encode_utf8(value@).len() > u16::MAX ==> r == Err::<(), TelemetryError>(
            TelemetryError::StringTooLong(encode_utf8(value@).len() as usize),
        ) && final(buffer)@ == old(buffer)@,
        encode_utf8(value@).len() <= u16::MAX ==> r is Ok && final(buffer)@ == old(buffer)@
            + string_encoding(value@),
{
    let bytes = value.as_bytes();
    if bytes.len() > 0xFFFF {
        return Err(TelemetryError::StringTooLong(bytes.len()));
    }
    let length = bytes.len() as u16;
    crate::bytes::push_u16_le(buffer, length);
    let ghost mid = buffer@;
    let mut i: usize = 0;
    while i < bytes.len()
        invariant
            i <= bytes@.len(),
            bytes@ == encode_utf8(value@),
            buffer@ == mid + bytes@.subrange(0, i as int),
        decreases bytes@.len() - i,
    {
        buffer.push(bytes[i]);
        i = i + 1;
        assert(buffer@ =~= mid + bytes@.subrange(0, i as int));
    }
    assert(bytes@.subrange(0, bytes@.len() as int) =~= bytes@);
    assert(buffer@ =~= old(buffer)@ + string_encoding(value@));
    Ok(())
}

/// A string written by [`write_acc_string`] reads back unchanged, whatever
/// precedes or follows it in the datagram.
pub proof fn lemma_string_roundtrip(before: Seq<u8>, chars: Seq<char>, after: Seq<u8>)
    requires
        encode_utf8(chars).len() <= u16::MAX,
        before.len() + string_encoding(chars).len() <= usize::MAX,
    ensures
        sp_string(before + string_encoding(chars) + after, before.len() as int) == Ok::<
            (Seq<char>, int),
            TelemetryError,
        >((chars, (before.len() + string_encoding(chars).len()) as int)),
{
    broadcast use vstd::utf8::encode_utf8_valid_utf8, vstd::utf8::encode_utf8_decode_utf8;

    let e = encode_utf8(chars);
    let d = before + string_encoding(chars) + after;
    let n = e.len();
    let b = before.len() as int;
    crate::bytes::lemma_u16_bytes_recombine(n as u16);
    assert(d[b] == u16_le_bytes(n as int)[0]);
    assert(d[b + 1] == u16_le_bytes(n as int)[1]);
    assert(le_u16(d, b) == n);
    assert(d.subrange(b + 2, b + 2 + n) =~= e);
}

} // verus!
