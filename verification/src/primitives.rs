//! The primitive value parsers: separators, numbers, quoted strings and raw
//! blocks. Each is stated as a grammar function on the buffer and implemented
//! on the byte cursor.
//!
//! An error is placed at the offset where the primitive that reports it
//! began to read.

use vstd::prelude::*;
use vstd::slice::slice_to_vec;
use crate::cursor::ByteCursor;
use crate::error::{DecodeError, ErrorKind};
use crate::commands::is_number;
use crate::scan::{byte_at, failure, follows, reads, reads_as, reads_number, Scan};

verus! {

/// The field separator.
pub const COMMA: u8 = 0x2C;

/// The line terminator.
pub const LINE_FEED: u8 = 0x0A;

/// The delimiter of a string literal.
pub const QUOTE: u8 = 0x22;

/// The byte that starts an escape inside a string literal.
pub const BACKSLASH: u8 = 0x5C;

/// An ASCII decimal digit.
pub open spec fn is_digit(b: u8) -> bool {
    0x30 <= b <= 0x39
}

/// The end of the longest run of digits that starts at `pos`.
pub open spec fn digits_end(s: Seq<u8>, pos: int) -> int
    decreases s.len() - pos,
{
    if 0 <= pos < s.len() && is_digit(s[pos]) {
        digits_end(s, pos + 1)
    } else {
        pos
    }
}

/// The number that a string of decimal digits denotes.
pub open spec fn decimal_value(digits: Seq<u8>) -> int
    decreases digits.len(),
{
    if digits.len() == 0 {
        0
    } else {
        10 * decimal_value(digits.drop_last()) + (digits.last() - 0x30)
    }
}

/// Grammar of a separator: one byte equal to `expected`.
pub open spec fn spec_separator(s: Seq<u8>, st: Scan, expected: u8) -> Scan {
    match st {
        Ok(pos) => if byte_at(s, pos) == Some(expected) {
            Ok(pos + 1)
        } else {
            Err(failure(ErrorKind::ExpectedSeparator, pos))
        },
        Err(_) => st,
    }
}

/// Grammar of the end of a text command: a line terminator, or the end of
/// the buffer.
pub open spec fn spec_end_of_command(s: Seq<u8>, st: Scan) -> Scan {
    match st {
        Ok(pos) => match byte_at(s, pos) {
            None => Ok(pos),
            Some(b) => if b == LINE_FEED {
                Ok(pos + 1)
            } else {
                Err(failure(ErrorKind::ExpectedSeparator, pos))
            },
        },
        Err(_) => st,
    }
}

/// Grammar of a single byte taken as it is.
pub open spec fn spec_symbol(s: Seq<u8>, st: Scan) -> (u8, Scan) {
    match st {
        Ok(pos) => match byte_at(s, pos) {
            Some(b) => (b, Ok(pos + 1)),
            None => (0, Err(failure(ErrorKind::UnexpectedEnd, pos))),
        },
        Err(_) => (0, st),
    }
}

/// Grammar of a number: one or more digits, whose value fits `i32`.
pub open spec fn spec_integer(s: Seq<u8>, st: Scan) -> (int, Scan) {
    match st {
        Ok(pos) => {
            let end = digits_end(s, pos);
            let value = decimal_value(s.subrange(pos, end));
            if byte_at(s, pos) is None {
                (0, Err(failure(ErrorKind::UnexpectedEnd, pos)))
            } else if end == pos {
                (0, Err(failure(ErrorKind::NotANumber, pos)))
            } else if value > i32::MAX {
                (0, Err(failure(ErrorKind::IntegerOverflow, pos)))
            } else {
                (value, Ok(end))
            }
        },
        Err(_) => (0, st),
    }
}

/// What a value followed by a comma yields: the value, and the scan past
/// the comma.
pub open spec fn spec_lex<T>(s: Seq<u8>, field: (T, Scan)) -> (T, Scan) {
    (field.0, spec_separator(s, field.1, COMMA))
}

/// The byte that an escape character stands for, if it is one.
pub open spec fn unescape(b: u8) -> Option<u8> {
    if b == 0x22 {
        Some(0x22u8)  // \" is a quote
    } else if b == 0x5C {
        Some(0x5Cu8)  // \\ is a backslash
    } else if b == 0x2F {
        Some(0x2Fu8)  // \/ is a slash
    } else if b == 0x62 {
        Some(0x08u8)  // \b is a backspace
    } else if b == 0x66 {
        Some(0x0Cu8)  // \f is a form feed
    } else if b == 0x6E {
        Some(0x0Au8)  // \n is a line feed
    } else if b == 0x72 {
        Some(0x0Du8)  // \r is a carriage return
    } else if b == 0x74 {
        Some(0x09u8)  // \t is a tab
    } else {
        None
    }
}

/// Grammar of one character of a string literal. A bare quote is no
/// character: it yields `None` and the scan stays before it.
pub open spec fn spec_escaped_char(s: Seq<u8>, st: Scan) -> (Option<u8>, Scan) {
    match st {
        Ok(pos) => match byte_at(s, pos) {
            None => (None, Err(failure(ErrorKind::UnexpectedEnd, pos))),
            Some(b) => if b == QUOTE {
                (None, st)
            } else if b == BACKSLASH {
                match byte_at(s, pos + 1) {
                    None => (None, Err(failure(ErrorKind::UnexpectedEnd, pos))),
                    Some(e) => match unescape(e) {
                        Some(c) => (Some(c), Ok(pos + 2)),
                        None => (None, Err(failure(ErrorKind::InvalidEscape, pos))),
                    },
                }
            } else {
                (Some(b), Ok(pos + 1))
            },
        },
        Err(_) => (None, st),
    }
}

/// Grammar of the inside of a string literal, from `pos` up to and including
/// the closing quote. `open` is the offset of the opening quote, where an
/// unterminated string is reported.
pub open spec fn spec_string_body(s: Seq<u8>, pos: int, open: int) -> (Seq<u8>, Scan)
    decreases s.len() - pos,
{
    let (c, st) = spec_escaped_char(s, Ok(pos));
    match st {
        Err(e) => if e.kind == ErrorKind::UnexpectedEnd {
            (Seq::empty(), Err(failure(ErrorKind::UnterminatedString, open)))
        } else {
            (Seq::empty(), Err(e))
        },
        Ok(next) => match c {
            None => (Seq::empty(), Ok(pos + 1)),
            Some(b) => if next > pos {
                let (rest, end) = spec_string_body(s, next, open);
                (seq![b] + rest, end)
            } else {
                (Seq::empty(), st)
            },
        },
    }
}

/// Grammar of a string literal: a quote, characters with their escapes
/// resolved, and the first unescaped quote.
pub open spec fn spec_escaped_string(s: Seq<u8>, st: Scan) -> (Seq<u8>, Scan) {
    match spec_separator(s, st, QUOTE) {
        Ok(inside) => spec_string_body(s, inside, inside - 1),
        Err(e) => (Seq::empty(), Err(e)),
    }
}

/// Grammar of a raw block: exactly `length` bytes, whatever they are.
pub open spec fn spec_binary_block(s: Seq<u8>, st: Scan, length: int) -> (Seq<u8>, Scan) {
    match st {
        Ok(pos) => if 0 <= pos && 0 <= length && pos + length <= s.len() {
            (s.subrange(pos, pos + length), Ok(pos + length))
        } else {
            (Seq::empty(), Err(failure(ErrorKind::UnexpectedEnd, pos)))
        },
        Err(_) => (Seq::empty(), st),
    }
}

/// Consumes one byte equal to `expected`.
pub fn separator(cur: &mut ByteCursor<'_>, expected: u8) -> (r: Result<(), DecodeError>)
    ensures
        reads(
            *old(cur),
            *final(cur),
            r,
            ((), spec_separator(old(cur).buffer(), Ok(old(cur).offset()), expected)),
        ),
{
    let at = cur.position();
    if cur.peek() == Some(expected) {
        cur.advance(1)
    } else {
        Err(DecodeError { kind: ErrorKind::ExpectedSeparator, position: at })
    }
}

/// Consumes the end of a text command: a line terminator if one is there,
/// nothing at the end of the buffer.
pub fn end_of_command(cur: &mut ByteCursor<'_>) -> (r: Result<(), DecodeError>)
    ensures
        reads(
            *old(cur),
            *final(cur),
            r,
            ((), spec_end_of_command(old(cur).buffer(), Ok(old(cur).offset()))),
        ),
{
    let at = cur.position();
    match cur.peek() {
        None => Ok(()),
        Some(b) => {
            if b == LINE_FEED {
                cur.advance(1)
            } else {
                Err(DecodeError { kind: ErrorKind::ExpectedSeparator, position: at })
            }
        },
    }
}

/// Consumes one byte and returns it.
pub fn symbol(cur: &mut ByteCursor<'_>) -> (r: Result<u8, DecodeError>)
    ensures
        reads(*old(cur), *final(cur), r, spec_symbol(old(cur).buffer(), Ok(old(cur).offset()))),
{
    let at = cur.position();
    match cur.peek() {
        Some(b) => {
            let _ = cur.advance(1);
            Ok(b)
        },
        None => Err(DecodeError { kind: ErrorKind::UnexpectedEnd, position: at }),
    }
}

/// Follows a field with its comma: once the comma is consumed, the field's
/// value is handed on. A field that failed stays failed.
pub fn lex<T>(field: Result<T, DecodeError>, cur: &mut ByteCursor<'_>) -> (r: Result<
    T,
    DecodeError,
>)
    ensures
        final(cur).buffer() == old(cur).buffer(),
        match field {
            Ok(v) => match spec_separator(old(cur).buffer(), Ok(old(cur).offset()), COMMA) {
                Ok(next) => r == Ok::<T, DecodeError>(v) && final(cur).offset() == next,
                Err(e) => r == Err::<T, DecodeError>(e) && final(cur).offset() == old(
                    cur,
                ).offset(),
            },
            Err(e) => r == Err::<T, DecodeError>(e) && final(cur).offset() == old(cur).offset(),
        },
{
    match field {
        Ok(v) => match separator(cur, COMMA) {
            Ok(_) => Ok(v),
            Err(e) => Err(e),
        },
        Err(e) => Err(e),
    }
}

/// A run of digits that ends at `end` is the longest one.
pub proof fn lemma_digits_end(s: Seq<u8>, pos: int, end: int)
    requires
        0 <= pos <= end <= s.len(),
        forall|i: int| pos <= i < end ==> is_digit(#[trigger] s[i]),
        end < s.len() ==> !is_digit(s[end]),
    ensures
        digits_end(s, pos) == end,
    decreases end - pos,
{
    if pos < end {
        lemma_digits_end(s, pos + 1, end);
    }
}

/// The value of a string of digits is not negative, and it does not shrink
/// when digits are appended.
pub proof fn lemma_decimal_value_grows(digits: Seq<u8>, n: int)
    requires
        0 <= n <= digits.len(),
        forall|i: int| 0 <= i < digits.len() ==> is_digit(#[trigger] digits[i]),
    ensures
        0 <= decimal_value(digits.take(n)) <= decimal_value(digits),
    decreases digits.len() - n,
{
    lemma_decimal_value_bounds(digits.take(n));
    if n == digits.len() {
        assert(digits.take(n) =~= digits);
    } else {
        let longer = digits.take(n + 1);
        assert(longer.drop_last() =~= digits.take(n));
        lemma_decimal_value_grows(digits, n + 1);
    }
}

/// The value of a string of digits is not negative.
pub proof fn lemma_decimal_value_bounds(digits: Seq<u8>)
    requires
        forall|i: int| 0 <= i < digits.len() ==> is_digit(#[trigger] digits[i]),
    ensures
        0 <= decimal_value(digits),
    decreases digits.len(),
{
    if digits.len() > 0 {
        lemma_decimal_value_bounds(digits.drop_last());
    }
}

/// Parses a number: one or more decimal digits.
pub fn parse_integer(cur: &mut ByteCursor<'_>) -> (r: Result<i32, DecodeError>)
    ensures
        reads_number(
            *old(cur),
            *final(cur),
            r,
            spec_integer(old(cur).buffer(), Ok(old(cur).offset())),
        ),
        r is Ok ==> 0 <= r->Ok_0,
{
    let at = cur.position();
    if cur.peek().is_none() {
        return Err(DecodeError { kind: ErrorKind::UnexpectedEnd, position: at });
    }
    let mut ahead = *cur;
    let is_digit_byte = |b: u8| -> (d: bool)
        ensures
            d == is_digit(b),
        { 0x30 <= b && b <= 0x39 };
    let run = ahead.read_while(is_digit_byte);
    let ghost s = cur.buffer();
    let ghost end = ahead.offset();
    proof {
        assert forall|i: int| at <= i < end implies is_digit(#[trigger] s[i]) by {
            assert(is_digit_byte.ensures((s[i],), true));
        }
        lemma_digits_end(s, at as int, end);
    }
    if run.len() == 0 {
        return Err(DecodeError { kind: ErrorKind::NotANumber, position: at });
    }
    let mut value: i32 = 0;
    let mut i: usize = 0;
    while i < run.len()
        invariant
            0 <= i <= run@.len(),
            forall|k: int| 0 <= k < run@.len() ==> is_digit(#[trigger] run@[k]),
            value == decimal_value(run@.take(i as int)),
            0 <= value,
            *cur == *old(cur),
            cur.buffer() == s,
            cur.offset() == at,
            at < end <= s.len(),
            digits_end(s, at as int) == end,
            run@ == s.subrange(at as int, end),
        decreases run@.len() - i,
    {
        let digit: i32 = (run[i] - 0x30) as i32;
        proof {
            assert(run@.take(i + 1).drop_last() =~= run@.take(i as int));
            lemma_decimal_value_grows(run@, i + 1);
        }
        if value > (i32::MAX - digit) / 10 {
            return Err(DecodeError { kind: ErrorKind::IntegerOverflow, position: at });
        }
        value = value * 10 + digit;
        i = i + 1;
    }
    proof {
        assert(run@.take(i as int) =~= run@);
    }
    *cur = ahead;
    Ok(value)
}

/// Reads one character of a string literal, with its escape resolved. At a
/// bare quote it reads nothing and returns `None`.
pub fn escaped_char(cur: &mut ByteCursor<'_>) -> (r: Result<Option<u8>, DecodeError>)
    ensures
        reads(
            *old(cur),
            *final(cur),
            r,
            spec_escaped_char(old(cur).buffer(), Ok(old(cur).offset())),
        ),
{
    let at = cur.position();
    match cur.peek() {
        None => Err(DecodeError { kind: ErrorKind::UnexpectedEnd, position: at }),
        Some(b) => {
            if b == QUOTE {
                Ok(None)
            } else if b == BACKSLASH {
                let mut ahead = *cur;
                let _ = ahead.advance(1);
                match ahead.peek() {
                    None => Err(DecodeError { kind: ErrorKind::UnexpectedEnd, position: at }),
                    Some(e) => {
                        let resolved: u8 = if e == 0x22 {
                            0x22
                        } else if e == 0x5C {
                            0x5C
                        } else if e == 0x2F {
                            0x2F
                        } else if e == 0x62 {
                            0x08
                        } else if e == 0x66 {
                            0x0C
                        } else if e == 0x6E {
                            0x0A
                        } else if e == 0x72 {
                            0x0D
                        } else if e == 0x74 {
                            0x09
                        } else {
                            return Err(
                                DecodeError { kind: ErrorKind::InvalidEscape, position: at },
                            );
                        };
                        let _ = ahead.advance(1);
                        *cur = ahead;
                        Ok(Some(resolved))
                    },
                }
            } else {
                let _ = cur.advance(1);
                Ok(Some(b))
            }
        },
    }
}

/// Parses a string literal and returns its text, escapes resolved and the
/// surrounding quotes stripped.
pub fn escaped_string(cur: &mut ByteCursor<'_>) -> (r: Result<Vec<u8>, DecodeError>)
    ensures
        reads_as(
            *old(cur),
            *final(cur),
            r,
            spec_escaped_string(old(cur).buffer(), Ok(old(cur).offset())),
        ),
{
    let open = cur.position();
    let mut ahead = *cur;
    separator(&mut ahead, QUOTE)?;
    let ghost s = cur.buffer();
    let ghost inside = ahead.offset();
    let mut text: Vec<u8> = Vec::new();
    loop
        invariant
            ahead.buffer() == s,
            *cur == *old(cur),
            cur.buffer() == s,
            cur.offset() == open,
            inside == open + 1,
            spec_separator(s, Ok(open as int), QUOTE) == Ok::<int, DecodeError>(inside),
            inside <= ahead.offset() <= s.len(),
            spec_string_body(s, inside, open as int).0 == text@ + spec_string_body(
                s,
                ahead.offset(),
                open as int,
            ).0,
            spec_string_body(s, inside, open as int).1 == spec_string_body(
                s,
                ahead.offset(),
                open as int,
            ).1,
        decreases s.len() - ahead.offset(),
    {
        let ghost here = ahead.offset();
        match escaped_char(&mut ahead) {
            Err(e) => {
                if e.kind == ErrorKind::UnexpectedEnd {
                    return Err(DecodeError { kind: ErrorKind::UnterminatedString, position: open });
                } else {
                    return Err(e);
                }
            },
            Ok(None) => {
                let _ = ahead.advance(1);
                proof {
                    assert(text@ + Seq::<u8>::empty() =~= text@);
                }
                *cur = ahead;
                return Ok(text);
            },
            Ok(Some(b)) => {
                proof {
                    let rest = spec_string_body(s, ahead.offset(), open as int).0;
                    assert(text@ + (seq![b] + rest) =~= text@.push(b) + rest);
                }
                text.push(b);
            },
        }
    }
}

/// Reads a raw block of exactly `length` bytes. Bytes that look like
/// separators are data here.
pub fn binary_block(cur: &mut ByteCursor<'_>, length: usize) -> (r: Result<Vec<u8>, DecodeError>)
    ensures
        reads_as(
            *old(cur),
            *final(cur),
            r,
            spec_binary_block(old(cur).buffer(), Ok(old(cur).offset()), length as int),
        ),
{
    let at = cur.position();
    match cur.read_exact(length) {
        Ok(bytes) => Ok(slice_to_vec(bytes)),
        Err(_) => Err(DecodeError { kind: ErrorKind::UnexpectedEnd, position: at }),
    }
}

/// The longest run of digits from `pos` on ends at or after `pos`, inside
/// the buffer where `pos` is.
pub proof fn lemma_digits_end_bounds(s: Seq<u8>, pos: int)
    ensures
        pos <= digits_end(s, pos),
        0 <= pos <= s.len() ==> digits_end(s, pos) <= s.len(),
        forall|i: int| pos <= i < digits_end(s, pos) ==> is_digit(#[trigger] s[i]),
        0 <= digits_end(s, pos) < s.len() ==> !is_digit(s[digits_end(s, pos)]),
    decreases s.len() - pos,
{
    if 0 <= pos < s.len() && is_digit(s[pos]) {
        lemma_digits_end_bounds(s, pos + 1);
    }
}

/// Reading a number only moves forward, and what is read is a number.
pub broadcast proof fn lemma_integer_follows(s: Seq<u8>, st: Scan)
    ensures
        follows(s, st, (#[trigger] spec_integer(s, st)).1),
        spec_integer(s, st).1 is Ok ==> is_number(spec_integer(s, st).0),
{
    if let Ok(pos) = st {
        lemma_digits_end_bounds(s, pos);
        let end = digits_end(s, pos);
        if 0 <= pos < s.len() {
            let digits = s.subrange(pos, end);
            assert forall|i: int| 0 <= i < digits.len() implies is_digit(#[trigger] digits[i]) by {
                assert(digits[i] == s[pos + i]);
            }
            lemma_decimal_value_bounds(digits);
        }
    }
}

/// Reading the inside of a string literal only moves forward, and an error
/// is placed at the opening quote or after it.
pub proof fn lemma_string_body_follows(s: Seq<u8>, pos: int, open: int)
    ensures
        match spec_string_body(s, pos, open).1 {
            Ok(next) => pos <= next && (0 <= pos <= s.len() ==> next <= s.len()),
            Err(e) => 0 <= open <= pos <= s.len() <= usize::MAX ==> open <= e.position <= s.len(),
        },
    decreases s.len() - pos,
{
    let (c, st) = spec_escaped_char(s, Ok(pos));
    if let Ok(next) = st {
        if c is Some && next > pos {
            lemma_string_body_follows(s, next, open);
        }
    }
}

/// Reading a string literal only moves forward, and an error is placed
/// inside it.
pub broadcast proof fn lemma_escaped_string_follows(s: Seq<u8>, st: Scan)
    ensures
        follows(s, st, (#[trigger] spec_escaped_string(s, st)).1),
{
    if let Ok(inside) = spec_separator(s, st, QUOTE) {
        lemma_string_body_follows(s, inside, inside - 1);
    }
}

} // verus!
