//! A bounds-checked reader over a byte buffer.
use vstd::prelude::*;

use crate::error::WireError;
use crate::wire::{be_u32_at, deserialize_u32};

verus! {

/// The largest amount by which a declared length may exceed the bytes left
/// before it is treated as hostile rather than as a short read: the largest
/// packet the transport has to accept.
pub const DEFAULT_LENGTH_CEILING: usize = 35000;

/// What a cursor stands for: the whole buffer, the read position and the
/// ceiling on declared lengths.
pub struct CursorView {
    pub data: Seq<u8>,
    pub pos: nat,
    pub ceiling: nat,
}

impl CursorView {
    /// The bytes not yet consumed.
    pub open spec fn rest(self) -> Seq<u8> {
        self.data.skip(self.pos as int)
    }

    /// The cursor moved `n` bytes on.
    pub open spec fn advanced(self, n: nat) -> CursorView {
        CursorView { pos: self.pos + n, ..self }
    }
}

/// What reading a length-prefixed field from `rest` gives: its content, or why it cannot be read.
/// The field takes four bytes more than its content.
pub open spec fn length_prefixed(rest: Seq<u8>, ceiling: nat) -> Result<Seq<u8>, WireError> {
    if rest.len() < 4 {
        Err(WireError::Truncated)
    } else {
        let n = be_u32_at(rest, 0) as int;
        if n > rest.len() - 4 + ceiling {
            Err(WireError::LengthOverflow)
        } else if n > rest.len() - 4 {
            Err(WireError::Truncated)
        } else {
            Ok(rest.subrange(4, 4 + n))
        }
    }
}

/// A read position in a borrowed byte buffer. Each read either consumes
/// exactly what it returns or fails and leaves the position where it was.
pub struct Cursor<'a> {
    data: &'a [u8],
    pos: usize,
    ceiling: usize,
}

impl<'a> View for Cursor<'a> {
    type V = CursorView;

    closed spec fn view(&self) -> CursorView {
        CursorView { data: self.data@, pos: self.pos as nat, ceiling: self.ceiling as nat }
    }
}

impl<'a> Cursor<'a> {
    /// The position lies within the buffer.
    pub closed spec fn wf(&self) -> bool {
        self.pos <= self.data@.len()
    }

    /// A cursor at the start of `data` with the default ceiling.
    pub fn new(data: &'a [u8]) -> (r: Cursor<'a>)
        ensures
            r.wf(),
            r@ == (CursorView { data: data@, pos: 0, ceiling: DEFAULT_LENGTH_CEILING as nat }),
    {
        Cursor { data, pos: 0, ceiling: DEFAULT_LENGTH_CEILING }
    }

    /// A cursor at the start of `data` that reports `LengthOverflow` for a
    /// declared length exceeding the bytes left by more than `ceiling`.
    pub fn with_ceiling(data: &'a [u8], ceiling: usize) -> (r: Cursor<'a>)
        ensures
            r.wf(),
            r@ == (CursorView { data: data@, pos: 0, ceiling: ceiling as nat }),
    {
        Cursor { data, pos: 0, ceiling }
    }

    /// A well-formed cursor's position lies within its buffer.
    pub proof fn lemma_wf(&self)
        requires
            self.wf(),
        ensures
            self@.pos <= self@.data.len(),
    {
    }

    /// The number of bytes not yet consumed.
    pub fn remaining(&self) -> (r: usize)
        requires
            self.wf(),
        ensures
            r == self@.data.len() - self@.pos,
            r == self@.rest().len(),
    {
        self.data.len() - self.pos
    }

    /// The number of bytes consumed so far.
    pub fn position(&self) -> (r: usize)
        ensures
            r == self@.pos,
    {
        self.pos
    }

    /// Reads one byte.
    pub fn read_u8(&mut self) -> (r: Result<u8, WireError>)
        requires
            old(self).wf(),
        ensures
            final(self).wf(),
            old(self)@.rest().len() >= 1 ==> r == Ok::<u8, WireError>(old(self)@.rest()[0])
                && final(self)@ == old(self)@.advanced(1),
            old(self)@.rest().len() < 1 ==> r == Err::<u8, WireError>(WireError::Truncated)
                && final(self)@ == old(self)@,
    {
        if self.data.len() - self.pos < 1 {
            return Err(WireError::Truncated);
        }
        let b = self.data[self.pos];
        self.pos = self.pos + 1;
        Ok(b)
    }

    /// Reads four bytes as a big-endian `u32`.
    pub fn read_u32_be(&mut self) -> (r: Result<u32, WireError>)
        requires
            old(self).wf(),
        ensures
            final(self).wf(),
            old(self)@.rest().len() >= 4 ==> r == Ok::<u32, WireError>(
                be_u32_at(old(self)@.rest(), 0),
            ) && final(self)@ == old(self)@.advanced(4),
            old(self)@.rest().len() < 4 ==> r == Err::<u32, WireError>(WireError::Truncated)
                && final(self)@ == old(self)@,
    {
        if self.data.len() - self.pos < 4 {
            return Err(WireError::Truncated);
        }
        let tail = vstd::slice::slice_subrange(self.data, self.pos, self.data.len());
        let v = deserialize_u32(tail);
        self.pos = self.pos + 4;
        Ok(v)
    }

    /// Reads the next `n` bytes.
    pub fn read_bytes(&mut self, n: usize) -> (r: Result<&'a [u8], WireError>)
        requires
            old(self).wf(),
        ensures
            final(self).wf(),
            old(self)@.rest().len() >= n ==> (r matches Ok(b) && b@ == old(self)@.rest().take(
                n as int,
            ) && final(self)@ == old(self)@.advanced(n as nat)),
            old(self)@.rest().len() < n ==> (r matches Err(e) && e == WireError::Truncated
                && final(self)@ == old(self)@),
    {
        if self.data.len() - self.pos < n {
            return Err(WireError::Truncated);
        }
        let b = vstd::slice::slice_subrange(self.data, self.pos, self.pos + n);
        self.pos = self.pos + n;
        assert(b@ =~= old(self)@.rest().take(n as int));
        Ok(b)
    }

    /// Reads a four-byte big-endian length `n`, then `n` bytes. A length that
    /// exceeds the bytes left by more than the ceiling is `LengthOverflow`;
    /// one that exceeds them by less is `Truncated`.
    pub fn read_length_prefixed_bytes(&mut self) -> (r: Result<&'a [u8], WireError>)
        requires
            old(self).wf(),
        ensures
            final(self).wf(),
            match length_prefixed(old(self)@.rest(), old(self)@.ceiling) {
                Ok(content) => r matches Ok(b) && b@ == content && final(self)@ == old(
                    self,
                )@.advanced(4 + content.len()),
                Err(e) => r matches Err(f) && f == e && final(self)@ == old(self)@,
            },
    {
        let left = self.data.len() - self.pos;
        if left < 4 {
            return Err(WireError::Truncated);
        }
        let tail = vstd::slice::slice_subrange(self.data, self.pos, self.data.len());
        let n = deserialize_u32(tail) as usize;
        let avail = left - 4;
        if n > avail && n - avail > self.ceiling {
            return Err(WireError::LengthOverflow);
        }
        if n > avail {
            return Err(WireError::Truncated);
        }
        let start = self.pos + 4;
        let b = vstd::slice::slice_subrange(self.data, start, start + n);
        self.pos = start + n;
        assert(b@ =~= old(self)@.rest().subrange(4, 4 + n as int));
        Ok(b)
    }
}

} // verus!
