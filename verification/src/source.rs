//! A random-access byte source over an image held in memory.

use vstd::prelude::*;
use vstd::slice::slice_subrange;
use crate::error::DecodeError;
use crate::le::{le_u16, le_u32, u16_from_le_byte_slice, u32_from_le_byte_slice};

verus! {

/// The `n` bytes of `image` that start at `offset`, if the image holds them all.
pub open spec fn read_at(image: Seq<u8>, offset: int, n: int) -> Option<Seq<u8>> {
    if 0 <= offset && 0 <= n && offset + n <= image.len() {
        Some(image.subrange(offset, offset + n))
    } else {
        None
    }
}

/// The little-endian `u16` at `offset`, if the image holds its two bytes.
pub open spec fn u16_at(image: Seq<u8>, offset: int) -> Option<u16> {
    match read_at(image, offset, 2) {
        Some(bytes) => Some(le_u16(bytes) as u16),
        None => None,
    }
}

/// The little-endian `u32` at `offset`, if the image holds its four bytes.
pub open spec fn u32_at(image: Seq<u8>, offset: int) -> Option<u32> {
    match read_at(image, offset, 4) {
        Some(bytes) => Some(le_u32(bytes) as u32),
        None => None,
    }
}

/// An image together with a read cursor. The cursor may stand anywhere, also
/// past the end of the image; only a read there fails.
pub struct ByteSource<'a> {
    data: &'a [u8],
    pos: u64,
}

impl<'a> ByteSource<'a> {
    /// The bytes of the image.
    pub closed spec fn bytes(&self) -> Seq<u8> {
        self.data@
    }

    /// The position of the read cursor.
    pub closed spec fn cursor(&self) -> u64 {
        self.pos
    }

    /// A source over `data` with the cursor at its start.
    pub fn new(data: &'a [u8]) -> (source: Self)
        ensures
            source.bytes() == data@,
            source.cursor() == 0,
    {
        ByteSource { data, pos: 0 }
    }

    /// The position of the read cursor.
    pub fn position(&self) -> (offset: u64)
        ensures
            offset == self.cursor(),
    {
        self.pos
    }

    /// Moves the cursor to `offset`, counted from the start of the image.
    pub fn seek(&mut self, offset: u64)
        ensures
            final(self).bytes() == old(self).bytes(),
            final(self).cursor() == offset,
    {
        self.pos = offset;
    }

    /// Moves the cursor by `delta`. Fails, and leaves the cursor where it
    /// was, exactly when the new position would be negative or would not fit
    /// in 64 bits.
    pub fn seek_relative(&mut self, delta: i64) -> (moved: Result<(), DecodeError>)
        ensures
            final(self).bytes() == old(self).bytes(),
            moved is Ok <==> 0 <= old(self).cursor() + delta <= u64::MAX,
            moved is Ok ==> final(self).cursor() == old(self).cursor() + delta,
            moved is Err ==> moved == Err::<(), DecodeError>(DecodeError::Io)
                && final(self).cursor() == old(self).cursor(),
    {
        match self.pos.checked_add_signed(delta) {
            Some(target) => {
                self.pos = target;
                Ok(())
            },
            None => Err(DecodeError::Io),
        }
    }

    /// Reads the `n` bytes at the cursor and moves the cursor behind them.
    /// Fails, and leaves the cursor where it was, exactly when fewer than
    /// `n` bytes are left.
    pub fn read_exact(&mut self, n: usize) -> (chunk: Result<&'a [u8], DecodeError>)
        ensures
            final(self).bytes() == old(self).bytes(),
            match chunk {
                Ok(bytes) => read_at(old(self).bytes(), old(self).cursor() as int, n as int)
                    == Some(bytes@) && final(self).cursor() == old(self).cursor() + n,
                Err(e) => e == DecodeError::Io && read_at(
                    old(self).bytes(),
                    old(self).cursor() as int,
                    n as int,
                ) is None && final(self).cursor() == old(self).cursor(),
            },
    {
        let len: usize = self.data.len();
        if self.pos > len as u64 {
            return Err(DecodeError::Io);
        }
        let start: usize = self.pos as usize;
        if n > len - start {
            return Err(DecodeError::Io);
        }
        let bytes = slice_subrange(self.data, start, start + n);
        self.pos = self.pos + n as u64;
        Ok(bytes)
    }
}

/// Reads a little-endian `u16` at the cursor.
pub fn read_u16le(file: &mut ByteSource) -> (value: Result<u16, DecodeError>)
    ensures
        final(file).bytes() == old(file).bytes(),
        match value {
            Ok(v) => u16_at(old(file).bytes(), old(file).cursor() as int) == Some(v)
                && final(file).cursor() == old(file).cursor() + 2,
            Err(e) => e == DecodeError::Io && u16_at(old(file).bytes(), old(file).cursor() as int) is None
                && final(file).cursor() == old(file).cursor(),
        },
{
    match file.read_exact(2) {
        Ok(buffer) => Ok(u16_from_le_byte_slice(buffer)),
        Err(e) => Err(e),
    }
}

/// Reads a little-endian `u32` at the cursor.
pub fn read_u32le(file: &mut ByteSource) -> (value: Result<u32, DecodeError>)
    ensures
        final(file).bytes() == old(file).bytes(),
        match value {
            Ok(v) => u32_at(old(file).bytes(), old(file).cursor() as int) == Some(v)
                && final(file).cursor() == old(file).cursor() + 4,
            Err(e) => e == DecodeError::Io && u32_at(old(file).bytes(), old(file).cursor() as int) is None
                && final(file).cursor() == old(file).cursor(),
        },
{
    match file.read_exact(4) {
        Ok(buffer) => Ok(u32_from_le_byte_slice(buffer)),
        Err(e) => Err(e),
    }
}

} // verus!
