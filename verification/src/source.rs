//! A random-access byte source with a read cursor.
//!
//! All multi-byte reads are little-endian.  Every phase of a load seeks to an
//! absolute offset before reading, so no phase depends on the cursor position
//! left behind by a previous one.

use vstd::prelude::*;
use crate::error::PhotonError;

verus! {

/// Little-endian `u32` stored in `data` at byte offset `off`.
pub open spec fn le_u32_at(data: Seq<u8>, off: int) -> u32 {
    vstd::bytes::spec_u32_from_le_bytes(data.subrange(off, off + 4))
}

/// Little-endian `i32` stored in `data` at byte offset `off`: the `u32` bit
/// pattern reinterpreted as a signed value.
pub open spec fn le_i32_at(data: Seq<u8>, off: int) -> i32 {
    le_u32_at(data, off) as i32
}

/// Little-endian `u64` stored in `data` at byte offset `off`.
pub open spec fn le_u64_at(data: Seq<u8>, off: int) -> u64 {
    vstd::bytes::spec_u64_from_le_bytes(data.subrange(off, off + 8))
}

/// An in-memory byte source: the whole file's bytes plus a read cursor.
pub struct ByteSource {
    data: Vec<u8>,
    pos: usize,
}

impl ByteSource {
    /// The bytes of the source.
    pub closed spec fn bytes(self) -> Seq<u8> {
        self.data@
    }

    /// The current cursor position.
    pub closed spec fn cursor(self) -> int {
        self.pos as int
    }

    /// The cursor never runs past the end of the data.
    pub closed spec fn wf(self) -> bool {
        self.pos <= self.data.len()
    }

    /// Wrap a byte buffer as a source with the cursor at the start.
    pub fn new(data: Vec<u8>) -> (s: Self)
        ensures
            s.bytes() == data@,
            s.cursor() == 0,
            s.wf(),
    {
        ByteSource { data, pos: 0 }
    }

    /// Total number of bytes in the source.
    pub fn len(&self) -> (n: usize)
        ensures
            n == self.bytes().len(),
    {
        self.data.len()
    }

    /// Reposition the cursor to the absolute byte offset `offset`.
    /// Fails with `SeekOutOfRange`, leaving the cursor unchanged, exactly
    /// when the offset is negative or exceeds the source length.
    pub fn seek(&mut self, offset: i32) -> (r: Result<(), PhotonError>)
        requires
            old(self).wf(),
        ensures
            final(self).wf(),
            final(self).bytes() == old(self).bytes(),
            r is Ok <==> 0 <= offset && offset <= old(self).bytes().len(),
            r is Ok ==> final(self).cursor() == offset,
            r is Err ==> r == Result::<(), PhotonError>::Err(PhotonError::SeekOutOfRange)
                && final(self).cursor() == old(self).cursor(),
    {
        if offset < 0 {
            return Err(PhotonError::SeekOutOfRange);
        }
        let target = offset as usize;
        if target > self.data.len() {
            return Err(PhotonError::SeekOutOfRange);
        }
        self.pos = target;
        Ok(())
    }

    /// Number of bytes between the cursor and the end of the source.
    pub fn remaining(&self) -> (n: usize)
        requires
            self.wf(),
        ensures
            n == self.bytes().len() - self.cursor(),
    {
        self.data.len() - self.pos
    }

    /// Read `n` bytes at the cursor, advancing it.  Fails with `Truncated`,
    /// leaving the cursor unchanged, exactly when fewer than `n` bytes remain.
    pub fn read_bytes(&mut self, n: usize) -> (r: Result<Vec<u8>, PhotonError>)
        requires
            old(self).wf(),
        ensures
            final(self).wf(),
            final(self).bytes() == old(self).bytes(),
            r is Ok <==> old(self).cursor() + n <= old(self).bytes().len(),
            r matches Ok(v) ==> v@ == old(self).bytes().subrange(
                old(self).cursor(),
                old(self).cursor() + n,
            ) && final(self).cursor() == old(self).cursor() + n,
            r is Err ==> r == Result::<Vec<u8>, PhotonError>::Err(PhotonError::Truncated)
                && final(self).cursor() == old(self).cursor(),
    {
        if self.data.len() - self.pos < n {
            return Err(PhotonError::Truncated);
        }
        let mut out: Vec<u8> = Vec::new();
        let start = self.pos;
        let mut i: usize = 0;
        while i < n
            invariant
                start + n <= self.data.len(),
                i <= n,
                out@ == self.data@.subrange(start as int, start + i),
            decreases n - i,
        {
            out.push(self.data[start + i]);
            i = i + 1;
            proof {
                assert(out@ =~= self.data@.subrange(start as int, start + i));
            }
        }
        self.pos = start + n;
        Ok(out)
    }

    /// Read a little-endian `u32` at the cursor, advancing it by 4 bytes.
    /// Fails with `Truncated`, leaving the cursor unchanged, exactly when
    /// fewer than 4 bytes remain.
    pub fn read_u32_le(&mut self) -> (r: Result<u32, PhotonError>)
        requires
            old(self).wf(),
        ensures
            final(self).wf(),
            final(self).bytes() == old(self).bytes(),
            r is Ok <==> old(self).cursor() + 4 <= old(self).bytes().len(),
            r matches Ok(v) ==> v == le_u32_at(old(self).bytes(), old(self).cursor())
                && final(self).cursor() == old(self).cursor() + 4,
            r is Err ==> r == Result::<u32, PhotonError>::Err(PhotonError::Truncated)
                && final(self).cursor() == old(self).cursor(),
    {
        if self.data.len() - self.pos < 4 {
            return Err(PhotonError::Truncated);
        }
        let chunk = vstd::slice::slice_subrange(self.data.as_slice(), self.pos, self.pos + 4);
        let v = vstd::bytes::u32_from_le_bytes(chunk);
        self.pos = self.pos + 4;
        Ok(v)
    }

    /// Read a little-endian `i32` at the cursor, advancing it by 4 bytes.
    /// Fails with `Truncated`, leaving the cursor unchanged, exactly when
    /// fewer than 4 bytes remain.
    pub fn read_i32_le(&mut self) -> (r: Result<i32, PhotonError>)
        requires
            old(self).wf(),
        ensures
            final(self).wf(),
            final(self).bytes() == old(self).bytes(),
            r is Ok <==> old(self).cursor() + 4 <= old(self).bytes().len(),
            r matches Ok(v) ==> v == le_i32_at(old(self).bytes(), old(self).cursor())
                && final(self).cursor() == old(self).cursor() + 4,
            r is Err ==> r == Result::<i32, PhotonError>::Err(PhotonError::Truncated)
                && final(self).cursor() == old(self).cursor(),
    {
        let v = self.read_u32_le()?;
        Ok(#[verifier::truncate] (v as i32))
    }

    /// Read a little-endian `u64` at the cursor, advancing it by 8 bytes.
    /// Fails with `Truncated`, leaving the cursor unchanged, exactly when
    /// fewer than 8 bytes remain.
    pub fn read_u64_le(&mut self) -> (r: Result<u64, PhotonError>)
        requires
            old(self).wf(),
        ensures
            final(self).wf(),
            final(self).bytes() == old(self).bytes(),
            r is Ok <==> old(self).cursor() + 8 <= old(self).bytes().len(),
            r matches Ok(v) ==> v == le_u64_at(old(self).bytes(), old(self).cursor())
                && final(self).cursor() == old(self).cursor() + 8,
            r is Err ==> r == Result::<u64, PhotonError>::Err(PhotonError::Truncated)
                && final(self).cursor() == old(self).cursor(),
    {
        if self.data.len() - self.pos < 8 {
            return Err(PhotonError::Truncated);
        }
        let chunk = vstd::slice::slice_subrange(self.data.as_slice(), self.pos, self.pos + 8);
        let v = vstd::bytes::u64_from_le_bytes(chunk);
        self.pos = self.pos + 8;
        Ok(v)
    }
}

/// Append the little-endian bytes of `x` to `out`.
pub fn write_u32_le(out: &mut Vec<u8>, x: u32)
    ensures
        final(out)@ == old(out)@ + vstd::bytes::spec_u32_to_le_bytes(x),
{
    let mut bs = vstd::bytes::u32_to_le_bytes(x);
    out.append(&mut bs);
}

/// Append the little-endian bytes of `x` to `out`.
pub fn write_u64_le(out: &mut Vec<u8>, x: u64)
    ensures
        final(out)@ == old(out)@ + vstd::bytes::spec_u64_to_le_bytes(x),
{
    let mut bs = vstd::bytes::u64_to_le_bytes(x);
    out.append(&mut bs);
}

/// Append the little-endian bytes of `x` (its `u32` bit pattern) to `out`.
pub fn write_i32_le(out: &mut Vec<u8>, x: i32)
    ensures
        final(out)@ == old(out)@ + vstd::bytes::spec_u32_to_le_bytes(x as u32),
{
    write_u32_le(out, #[verifier::truncate] (x as u32));
}

} // verus!
