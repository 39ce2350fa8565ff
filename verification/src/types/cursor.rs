//! An in-memory byte stream with a position, read from and written to in
//! sequence.

use vstd::prelude::*;
use vstd::slice::slice_subrange;

verus! {

/// Why an operation on a [`Cursor`] failed.
#[derive(Debug, Clone, Copy, PartialEq, Eq, Structural)]
pub enum IoError {
    /// The stream ended before the bytes asked for were there.
    UnexpectedEof,
    /// The position of the cursor is beyond what a buffer can hold.
    InvalidInput,
}

/// A buffer of bytes and the position of the next read or write.
#[derive(Debug, PartialEq, Eq)]
pub struct Cursor {
    inner: Vec<u8>,
    pos: u64,
}

/// The first `at` bytes of `buf`, with zeros after its end where `at` lies beyond it.
pub open spec fn padded_to(buf: Seq<u8>, at: nat) -> Seq<u8> {
    if at <= buf.len() {
        buf.subrange(0, at as int)
    } else {
        buf + Seq::new((at - buf.len()) as nat, |i: int| 0u8)
    }
}

/// The buffer after `data` is written at position `at`: what was there is
/// overwritten, and the buffer grows where the data reaches beyond its end.
pub open spec fn overwritten(buf: Seq<u8>, at: nat, data: Seq<u8>) -> Seq<u8> {
    padded_to(buf, at) + data + if at + data.len() < buf.len() {
        buf.skip((at + data.len()) as int)
    } else {
        Seq::empty()
    }
}

impl Cursor {
    /// The whole buffer, whatever the position.
    pub closed spec fn buffer(&self) -> Seq<u8> {
        self.inner@
    }

    /// The position of the next read or write, counted in bytes from the start.
    pub closed spec fn offset(&self) -> nat {
        self.pos as nat
    }

    /// The bytes from the position to the end of the buffer.
    pub open spec fn remaining(&self) -> Seq<u8> {
        if self.offset() <= self.buffer().len() {
            self.buffer().skip(self.offset() as int)
        } else {
            Seq::empty()
        }
    }

    /// A cursor at the start of `inner`.
    pub fn new(inner: Vec<u8>) -> (cursor: Cursor)
        ensures
            cursor.buffer() == inner@,
            cursor.offset() == 0,
    {
        Cursor { inner, pos: 0 }
    }

    /// The position of the next read or write.
    pub fn position(&self) -> (pos: u64)
        ensures
            pos == self.offset(),
    {
        self.pos
    }

    /// Moves the cursor; the buffer stays as it is.
    pub fn set_position(&mut self, pos: u64)
        ensures
            final(self).offset() == pos,
            final(self).buffer() == old(self).buffer(),
    {
        self.pos = pos;
    }

    /// The whole buffer.
    pub fn get_ref(&self) -> (inner: &Vec<u8>)
        ensures
            inner@ == self.buffer(),
    {
        &self.inner
    }

    /// Gives the buffer back.
    pub fn into_inner(self) -> (inner: Vec<u8>)
        ensures
            inner@ == self.buffer(),
    {
        self.inner
    }

    /// How many bytes are left between the position and the end.
    pub fn available(&self) -> (n: usize)
        ensures
            n == self.remaining().len(),
            n <= self.buffer().len(),
            self.offset() <= self.buffer().len() ==> n == self.buffer().len() - self.offset(),
    {
        let len = self.inner.len();
        if self.pos >= len as u64 {
            0
        } else {
            len - self.pos as usize
        }
    }

    /// Reads exactly `n` bytes and moves past them. Where fewer are left,
    /// the read fails and the cursor ends up at the end of the buffer.
    pub fn read_exact(&mut self, n: usize) -> (read: Result<Vec<u8>, IoError>)
        ensures
            final(self).buffer() == old(self).buffer(),
            match read {
                Ok(bytes) => {
                    &&& n <= old(self).remaining().len()
                    &&& bytes@ == old(self).remaining().subrange(0, n as int)
                    &&& final(self).offset() == old(self).offset() + n
                    &&& final(self).remaining() == old(self).remaining().skip(n as int)
                },
                Err(e) => {
                    &&& n > old(self).remaining().len()
                    &&& e == IoError::UnexpectedEof
                    &&& final(self).offset() == old(self).offset() + old(self).remaining().len()
                    &&& final(self).remaining() == Seq::<u8>::empty()
                },
            },
    {
        let len = self.inner.len();
        if self.pos > len as u64 {
            if n > 0 {
                return Err(IoError::UnexpectedEof);
            }
            assert(self.remaining().skip(0) =~= self.remaining());
            return Ok(Vec::new());
        }
        let start = self.pos as usize;
        if n > len - start {
            self.pos = len as u64;
            assert(self.remaining() =~= Seq::<u8>::empty());
            return Err(IoError::UnexpectedEof);
        }
        let bytes = vstd::slice::slice_to_vec(
            slice_subrange(self.inner.as_slice(), start, start + n),
        );
        self.pos = (start + n) as u64;
        assert(bytes@ =~= old(self).remaining().subrange(0, n as int));
        assert(self.remaining() =~= old(self).remaining().skip(n as int));
        Ok(bytes)
    }

    /// Reads one byte and moves past it.
    pub fn read_byte(&mut self) -> (read: Result<u8, IoError>)
        ensures
            final(self).buffer() == old(self).buffer(),
            match read {
                Ok(byte) => {
                    &&& old(self).remaining().len() > 0
                    &&& byte == old(self).remaining()[0]
                    &&& final(self).offset() == old(self).offset() + 1
                    &&& final(self).remaining() == old(self).remaining().skip(1)
                },
                Err(e) => {
                    &&& old(self).remaining().len() == 0
                    &&& e == IoError::UnexpectedEof
                    &&& *final(self) == *old(self)
                },
            },
    {
        let len = self.inner.len();
        if self.pos >= len as u64 {
            return Err(IoError::UnexpectedEof);
        }
        let at = self.pos as usize;
        let byte = self.inner[at];
        self.pos = (at + 1) as u64;
        assert(self.remaining() =~= old(self).remaining().skip(1));
        Ok(byte)
    }

    /// Reads every byte that is left and moves to the end of the buffer.
    pub fn read_to_end(&mut self) -> (bytes: Vec<u8>)
        ensures
            final(self).buffer() == old(self).buffer(),
            bytes@ == old(self).remaining(),
            final(self).offset() == old(self).offset() + old(self).remaining().len(),
            final(self).remaining() == Seq::<u8>::empty(),
    {
        let left = self.available();
        match self.read_exact(left) {
            Ok(bytes) => {
                assert(bytes@ =~= old(self).remaining());
                assert(self.remaining() =~= Seq::<u8>::empty());
                bytes
            },
            Err(_) => Vec::new(),
        }
    }

    /// Writes `data` at the position and moves past it. What was there is
    /// overwritten; the buffer grows where the data reaches beyond its end,
    /// with zeros between its old end and a position that lies beyond it.
    /// Fails, changing nothing, where the end of the data would lie beyond
    /// what the machine can address.
    pub fn write_all(&mut self, data: &[u8]) -> (written: Result<(), IoError>)
        ensures
            match written {
                Ok(()) => {
                    &&& old(self).offset() + data@.len() <= usize::MAX
                    &&& final(self).buffer() == overwritten(
                        old(self).buffer(),
                        old(self).offset(),
                        data@,
                    )
                    &&& final(self).offset() == old(self).offset() + data@.len()
                },
                Err(e) => {
                    &&& old(self).offset() + data@.len() > usize::MAX
                    &&& e == IoError::InvalidInput
                    &&& *final(self) == *old(self)
                },
            },
    {
        if self.pos > usize::MAX as u64 || data.len() > usize::MAX - self.pos as usize {
            return Err(IoError::InvalidInput);
        }
        let at = self.pos as usize;
        let ghost before = self.inner@;
        while self.inner.len() < at
            invariant
                before.len() <= at ==> self.inner@ == before + Seq::new(
                    (self.inner@.len() - before.len()) as nat,
                    |i: int| 0u8,
                ),
                before.len() > at ==> self.inner@ == before,
                before.len() <= self.inner@.len(),
                before.len() <= at ==> self.inner@.len() <= at,
                self.pos == at,
            decreases at - self.inner.len(),
        {
            let ghost prior = self.inner@;
            self.inner.push(0);
            assert(self.inner@ =~= before + Seq::new(
                (self.inner@.len() - before.len()) as nat,
                |i: int| 0u8,
            ));
        }
        let ghost start = self.inner@;
        assert(start.subrange(0, at as int) =~= padded_to(before, at as nat));
        let mut i: usize = 0;
        while i < data.len()
            invariant
                i <= data.len(),
                at + data.len() <= usize::MAX,
                self.pos == at,
                at <= start.len(),
                self.inner@.len() == if at + i <= start.len() {
                    start.len()
                } else {
                    (at + i) as nat
                },
                self.inner@.subrange(0, at as int) == start.subrange(0, at as int),
                forall|k: int| 0 <= k < i ==> self.inner@[at + k] == data@[k],
                forall|k: int| at + i <= k < start.len() ==> self.inner@[k] == start[k],
            decreases data.len() - i,
        {
            let ghost prior = self.inner@;
            if at + i < self.inner.len() {
                self.inner[at + i] = data[i];
            } else {
                self.inner.push(data[i]);
            }
            assert(self.inner@.subrange(0, at as int) =~= prior.subrange(0, at as int));
            i = i + 1;
        }
        self.pos = (at + data.len()) as u64;
        assert(self.inner@ =~= overwritten(before, at as nat, data@)) by {
            let target = overwritten(before, at as nat, data@);
            assert(self.inner@.len() == target.len());
            assert forall|k: int| 0 <= k < target.len() implies self.inner@[k] == target[k] by {
                if k < at {
                    assert(self.inner@.subrange(0, at as int)[k] == start.subrange(
                        0,
                        at as int,
                    )[k]);
                } else if k < at + data@.len() {
                    assert(self.inner@[at + (k - at)] == data@[k - at]);
                } else {
                    assert(self.inner@[k] == start[k]);
                }
            }
        }
        Ok(())
    }
}

/// After a write and a return to the position of the write, what lies
/// ahead of the cursor is the data written, followed by whatever stood
/// behind it before.
pub proof fn lemma_written_lies_ahead(before: Cursor, after: Cursor, back: Cursor, data: Seq<u8>)
    requires
        after.buffer() == overwritten(before.buffer(), before.offset(), data),
        back.buffer() == after.buffer(),
        back.offset() == before.offset(),
    ensures
        back.remaining().len() >= data.len(),
        back.remaining() == data + back.remaining().skip(data.len() as int),
{
    let ahead = back.remaining();
    assert(ahead =~= data + ahead.skip(data.len() as int));
}

} // verus!
