//! The byte cursor: a read-only buffer and a read position that only moves
//! forward. It holds no parsing logic.

use vstd::prelude::*;
use vstd::slice::slice_subrange;
use crate::error::{DecodeError, ErrorKind};
use crate::scan::{byte_at, failure};

verus! {

/// A buffer and a read position inside it.
#[derive(Clone, Copy, Debug)]
pub struct ByteCursor<'a> {
    buf: &'a [u8],
    pos: usize,
}

impl<'a> ByteCursor<'a> {
    /// The read position is never past the end of the buffer.
    #[verifier::type_invariant]
    spec fn in_bounds(self) -> bool {
        self.pos <= self.buf@.len()
    }

    /// The bytes of the whole buffer.
    pub closed spec fn buffer(self) -> Seq<u8> {
        self.buf@
    }

    /// The read position, as an offset into `buffer()`.
    pub closed spec fn offset(self) -> int {
        self.pos as int
    }

    /// A cursor at the start of `buf`.
    pub fn new(buf: &'a [u8]) -> (cur: Self)
        ensures
            cur.buffer() == buf@,
            cur.offset() == 0,
    {
        ByteCursor { buf, pos: 0 }
    }

    /// The read position.
    pub fn position(&self) -> (p: usize)
        ensures
            p == self.offset(),
            p <= self.buffer().len(),
    {
        proof {
            use_type_invariant(self);
        }
        self.pos
    }

    /// The number of bytes between the read position and the end.
    pub fn remaining(&self) -> (n: usize)
        ensures
            n == self.buffer().len() - self.offset(),
    {
        proof {
            use_type_invariant(self);
        }
        self.buf.len() - self.pos
    }

    /// The byte at the read position, if there is one. Does not move.
    pub fn peek(&self) -> (b: Option<u8>)
        ensures
            b == byte_at(self.buffer(), self.offset()),
    {
        proof {
            use_type_invariant(self);
        }
        if self.pos < self.buf.len() {
            Some(self.buf[self.pos])
        } else {
            None
        }
    }

    /// The next `n` bytes, verbatim, moving past them; fails and stays where
    /// fewer remain.
    pub fn read_exact(&mut self, n: usize) -> (r: Result<&'a [u8], DecodeError>)
        ensures
            final(self).buffer() == old(self).buffer(),
            old(self).offset() + n <= old(self).buffer().len() ==> r is Ok && r->Ok_0@ == old(
                self,
            ).buffer().subrange(old(self).offset(), old(self).offset() + n) && final(self).offset()
                == old(self).offset() + n,
            old(self).offset() + n > old(self).buffer().len() ==> final(self).offset() == old(
                self,
            ).offset() && r == Err::<&[u8], DecodeError>(
                failure(ErrorKind::UnexpectedEnd, old(self).offset()),
            ),
    {
        proof {
            use_type_invariant(&*self);
        }
        if n <= self.buf.len() - self.pos {
            let start = self.pos;
            self.pos = self.pos + n;
            Ok(slice_subrange(self.buf, start, start + n))
        } else {
            Err(DecodeError { kind: ErrorKind::UnexpectedEnd, position: self.pos })
        }
    }

    /// The longest run of bytes from the read position on that all satisfy
    /// `pred`, moving past it. The run may be empty; this never fails.
    pub fn read_while<F: Fn(u8) -> bool>(&mut self, pred: F) -> (run: &'a [u8])
        requires
            forall|b: u8| pred.requires((b,)),
        ensures
            final(self).buffer() == old(self).buffer(),
            old(self).offset() <= final(self).offset() <= old(self).buffer().len(),
            run@ == old(self).buffer().subrange(old(self).offset(), final(self).offset()),
            forall|i: int|
                old(self).offset() <= i < final(self).offset() ==> pred.ensures(
                    (#[trigger] old(self).buffer()[i],),
                    true,
                ),
            final(self).offset() < old(self).buffer().len() ==> pred.ensures(
                (old(self).buffer()[final(self).offset()],),
                false,
            ),
    {
        proof {
            use_type_invariant(&*self);
        }
        let start = self.pos;
        let mut end = self.pos;
        while end < self.buf.len() && pred(self.buf[end])
            invariant
                start <= end <= self.buf@.len(),
                self.pos == start,
                self.buf == old(self).buf,
                forall|b: u8| pred.requires((b,)),
                forall|i: int| start <= i < end ==> pred.ensures((#[trigger] self.buf@[i],), true),
            decreases self.buf@.len() - end,
        {
            end = end + 1;
        }
        self.pos = end;
        slice_subrange(self.buf, start, end)
    }

    /// Moves forward by `n` bytes, or fails and stays where fewer remain.
    pub fn advance(&mut self, n: usize) -> (r: Result<(), DecodeError>)
        ensures
            final(self).buffer() == old(self).buffer(),
            old(self).offset() + n <= old(self).buffer().len() ==> r is Ok && final(self).offset()
                == old(self).offset() + n,
            old(self).offset() + n > old(self).buffer().len() ==> final(self).offset() == old(
                self,
            ).offset() && r == Err::<(), DecodeError>(
                failure(ErrorKind::UnexpectedEnd, old(self).offset()),
            ),
    {
        proof {
            use_type_invariant(&*self);
        }
        if n <= self.buf.len() - self.pos {
            self.pos = self.pos + n;
            Ok(())
        } else {
            Err(DecodeError { kind: ErrorKind::UnexpectedEnd, position: self.pos })
        }
    }
}

} // verus!
