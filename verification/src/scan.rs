//! The vocabulary in which the grammar is stated: where a scan of the buffer
//! stands, and how a parser's result answers to what the grammar yields.
//!
//! Every grammar function takes the buffer and a [`Scan`], and gives back a
//! value and the scan after it. A scan that has stopped stays stopped: the
//! grammar of a command is then a plain sequence of steps, and the first error
//! is the one that comes out.

use vstd::prelude::*;
use crate::cursor::ByteCursor;
use crate::error::{DecodeError, ErrorKind};

verus! {

/// Where a scan of the buffer stands: at an offset, or stopped by an error.
pub type Scan = Result<int, DecodeError>;

/// The error of kind `kind` detected at offset `pos`.
pub open spec fn failure(kind: ErrorKind, pos: int) -> DecodeError {
    DecodeError { kind, position: pos as usize }
}

/// The byte of `s` at `pos`, if `pos` is inside `s`.
pub open spec fn byte_at(s: Seq<u8>, pos: int) -> Option<u8> {
    if 0 <= pos < s.len() {
        Some(s[pos])
    } else {
        None
    }
}

/// `s` holds the bytes of `piece` from offset `pos` on.
pub open spec fn holds_at(s: Seq<u8>, pos: int, piece: Seq<u8>) -> bool {
    &&& 0 <= pos
    &&& pos + piece.len() <= s.len()
    &&& s.subrange(pos, pos + piece.len()) == piece
}

/// Reading only moves forward and stays inside the buffer, and an error is
/// placed where reading has been. Where the scan `before` stood at an
/// offset, the scan `after` stands at one that is not behind it, and inside
/// `s` if `before` was; or it has stopped with an error that is placed at or
/// after that offset, inside `s`. A scan that had stopped stays as it was.
pub open spec fn follows(s: Seq<u8>, before: Scan, after: Scan) -> bool {
    match before {
        Ok(from) => match after {
            Ok(next) => from <= next && (0 <= from <= s.len() ==> next <= s.len()),
            Err(e) => 0 <= from <= s.len() <= usize::MAX ==> from <= e.position <= s.len(),
        },
        Err(_) => after == before,
    }
}

/// A parser that started at `before` and ended at `after` with result `r`
/// did what the grammar asks: on success it returns the grammar's value and
/// stands where the grammar's scan stands; on failure it returns the
/// grammar's error and has not moved. The buffer is never changed.
pub open spec fn reads<T>(
    before: ByteCursor,
    after: ByteCursor,
    r: Result<T, DecodeError>,
    want: (T, Scan),
) -> bool {
    &&& after.buffer() == before.buffer()
    &&& match want.1 {
        Ok(next) => r is Ok && r->Ok_0 == want.0 && after.offset() == next,
        Err(e) => r == Err::<T, DecodeError>(e) && after.offset() == before.offset(),
    }
}

/// As [`reads`], for a parser whose value is compared through its view.
pub open spec fn reads_as<T: View>(
    before: ByteCursor,
    after: ByteCursor,
    r: Result<T, DecodeError>,
    want: (T::V, Scan),
) -> bool {
    &&& after.buffer() == before.buffer()
    &&& match want.1 {
        Ok(next) => r is Ok && r->Ok_0@ == want.0 && after.offset() == next,
        Err(e) => r == Err::<T, DecodeError>(e) && after.offset() == before.offset(),
    }
}

/// As [`reads`], for a parser of a number.
pub open spec fn reads_number(
    before: ByteCursor,
    after: ByteCursor,
    r: Result<i32, DecodeError>,
    want: (int, Scan),
) -> bool {
    &&& after.buffer() == before.buffer()
    &&& match want.1 {
        Ok(next) => r is Ok && r->Ok_0 == want.0 && after.offset() == next,
        Err(e) => r == Err::<i32, DecodeError>(e) && after.offset() == before.offset(),
    }
}

} // verus!
