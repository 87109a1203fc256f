//! The field parsers: a raw number or letter is read and at once mapped into
//! the field's domain. A value outside the domain is reported at the offset
//! where the field begins, before anything after it is read.

use vstd::prelude::*;
use crate::cursor::ByteCursor;
use crate::error::{DecodeError, ErrorKind, Field};
use crate::primitives::{is_digit, parse_integer, spec_integer, spec_symbol, symbol};
use crate::scan::{byte_at, failure, reads, reads_as, reads_number, Scan};
use crate::values::{
    is_horizontal_multiplier, is_vertical_multiplier, BarCode2DSelection,
    BarCodeStandardSelection, BitSupport, Encoding, Font, HorizontalMultiplier, KDUCountryCode,
    ReverseImage, Rotation, VerticalMultiplier,
};

verus! {

/// What a field yields once its raw value has been read: where reading
/// succeeded, the mapped value, or an out-of-domain error at the field's
/// start where the raw value has no mapping.
pub open spec fn checked<T>(
    before: Scan,
    after: Scan,
    mapped: Option<T>,
    field: Field,
    raw: int,
    fallback: T,
) -> (T, Scan) {
    match (before, after) {
        (Ok(start), Ok(_)) => match mapped {
            Some(v) => (v, after),
            None => (fallback, Err(failure(ErrorKind::OutOfDomain(field, raw as i32), start))),
        },
        _ => (fallback, after),
    }
}

/// Grammar of a rotation: a number from 0 to 3.
pub open spec fn spec_rotation(s: Seq<u8>, st: Scan) -> (Rotation, Scan) {
    let (code, after) = spec_integer(s, st);
    checked(st, after, Rotation::spec_from_code(code), Field::Rotation, code, Rotation::NoRotation)
}

/// Grammar of a font: a number from 1 to 5.
pub open spec fn spec_font(s: Seq<u8>, st: Scan) -> (Font, Scan) {
    let (code, after) = spec_integer(s, st);
    checked(st, after, Font::spec_from_code(code), Field::Font, code, Font::Size1)
}

/// Grammar of a horizontal multiplier: one of the numbers 1 to 6, and 8.
pub open spec fn spec_h_mult(s: Seq<u8>, st: Scan) -> (int, Scan) {
    let (m, after) = spec_integer(s, st);
    let mapped = if is_horizontal_multiplier(m) {
        Some(m)
    } else {
        None
    };
    checked(st, after, mapped, Field::HorizontalMultiplier, m, 0)
}

/// Grammar of a vertical multiplier: a number from 1 to 9.
pub open spec fn spec_v_mult(s: Seq<u8>, st: Scan) -> (int, Scan) {
    let (m, after) = spec_integer(s, st);
    let mapped = if is_vertical_multiplier(m) {
        Some(m)
    } else {
        None
    };
    checked(st, after, mapped, Field::VerticalMultiplier, m, 0)
}

/// Grammar of the reverse-image flag: the letter `N` or `R`.
pub open spec fn spec_reverse(s: Seq<u8>, st: Scan) -> (ReverseImage, Scan) {
    let (letter, after) = spec_symbol(s, st);
    checked(
        st,
        after,
        ReverseImage::spec_from_letter(letter),
        Field::ReverseImage,
        letter as int,
        ReverseImage::N,
    )
}

/// Grammar of a number limited to `low..=high`.
pub open spec fn spec_ranged(s: Seq<u8>, st: Scan, low: int, high: int, field: Field) -> (
    int,
    Scan,
) {
    let (n, after) = spec_integer(s, st);
    let mapped = if low <= n <= high {
        Some(n)
    } else {
        None
    };
    checked(st, after, mapped, field, n, 0)
}

/// Grammar of a two-way choice written as one of two letters: `yes` for
/// `true`, `no` for `false`.
pub open spec fn spec_choice(s: Seq<u8>, st: Scan, yes: u8, no: u8, field: Field) -> (bool, Scan) {
    let (letter, after) = spec_symbol(s, st);
    let mapped = if letter == yes {
        Some(true)
    } else if letter == no {
        Some(false)
    } else {
        None
    };
    checked(st, after, mapped, field, letter as int, false)
}

/// Grammar of a two-way choice written as a number: `1` for `true`, `0` for
/// `false`.
pub open spec fn spec_switch(s: Seq<u8>, st: Scan, field: Field) -> (bool, Scan) {
    let (n, after) = spec_integer(s, st);
    let mapped = if n == 1 {
        Some(true)
    } else if n == 0 {
        Some(false)
    } else {
        None
    };
    checked(st, after, mapped, field, n, false)
}

/// Grammar of a standard bar code selection: `1`, or `1` and one of the mode
/// letters `A`, `B` and `C`.
pub open spec fn spec_bar_code_selection(s: Seq<u8>, st: Scan) -> (BarCodeStandardSelection, Scan) {
    let (one, after) = spec_symbol(s, st);
    match (st, after) {
        (Ok(start), Ok(next)) => if one != 0x31 {
            (
                BarCodeStandardSelection::Code128Auto,
                Err(failure(ErrorKind::OutOfDomain(Field::BarCodeSelection, one as i32), start)),
            )
        } else {
            match byte_at(s, next) {
                Some(letter) => match BarCodeStandardSelection::spec_from_mode(letter) {
                    Some(mode) => (mode, Ok(next + 1)),
                    None => (BarCodeStandardSelection::Code128Auto, after),
                },
                None => (BarCodeStandardSelection::Code128Auto, after),
            }
        },
        _ => (BarCodeStandardSelection::Code128Auto, after),
    }
}

/// Grammar of a two-dimensional bar code selection: the letter `P`.
pub open spec fn spec_bar_code_2d_selection(s: Seq<u8>, st: Scan) -> (BarCode2DSelection, Scan) {
    let (letter, after) = spec_symbol(s, st);
    checked(
        st,
        after,
        BarCode2DSelection::spec_from_letter(letter),
        Field::BarCode2DSelection,
        letter as int,
        BarCode2DSelection::PDF417,
    )
}

/// Grammar of the number of data bits: the number 8.
pub open spec fn spec_bit_support(s: Seq<u8>, st: Scan) -> (BitSupport, Scan) {
    let (n, after) = spec_integer(s, st);
    checked(st, after, BitSupport::spec_from_code(n), Field::BitSupport, n, BitSupport::Bit8)
}

/// Grammar of a code page: a number from 0 to 13, or a letter from `A` to
/// `F`. A field that begins with a digit is read as a number.
pub open spec fn spec_encoding(s: Seq<u8>, st: Scan) -> (Encoding, Scan) {
    match st {
        Ok(pos) => if byte_at(s, pos) is Some && is_digit(byte_at(s, pos)->Some_0) {
            let (n, after) = spec_integer(s, st);
            checked(st, after, Encoding::spec_from_code(n), Field::Encoding, n, Encoding::DOS437)
        } else {
            let (letter, after) = spec_symbol(s, st);
            checked(
                st,
                after,
                Encoding::spec_from_letter(letter),
                Field::Encoding,
                letter as int,
                Encoding::DOS437,
            )
        },
        Err(_) => (Encoding::DOS437, st),
    }
}

/// Grammar of a country code: one of the numbers of [`KDUCountryCode`].
pub open spec fn spec_country_code(s: Seq<u8>, st: Scan) -> (KDUCountryCode, Scan) {
    let (n, after) = spec_integer(s, st);
    checked(
        st,
        after,
        KDUCountryCode::spec_from_code(n),
        Field::CountryCode,
        n,
        KDUCountryCode::USA,
    )
}

/// Grammar of a print orientation: the letter `T` or `B`.
pub open spec fn spec_orientation(s: Seq<u8>, st: Scan) -> (char, Scan) {
    let (letter, after) = spec_symbol(s, st);
    let mapped = if letter == 0x54 {
        Some('T')
    } else if letter == 0x42 {
        Some('B')
    } else {
        None
    };
    checked(st, after, mapped, Field::Orientation, letter as int, 'T')
}

/// Parses a rotation.
pub fn parse_rotation(cur: &mut ByteCursor<'_>) -> (r: Result<Rotation, DecodeError>)
    ensures
        reads(*old(cur), *final(cur), r, spec_rotation(old(cur).buffer(), Ok(old(cur).offset()))),
{
    let at = cur.position();
    let mut ahead = *cur;
    let code = parse_integer(&mut ahead)?;
    match Rotation::from_code(code) {
        Ok(rotation) => {
            *cur = ahead;
            Ok(rotation)
        },
        Err(kind) => Err(DecodeError { kind, position: at }),
    }
}

/// Parses a font.
pub fn parse_font(cur: &mut ByteCursor<'_>) -> (r: Result<Font, DecodeError>)
    ensures
        reads(*old(cur), *final(cur), r, spec_font(old(cur).buffer(), Ok(old(cur).offset()))),
{
    let at = cur.position();
    let mut ahead = *cur;
    let code = parse_integer(&mut ahead)?;
    match Font::from_code(code) {
        Ok(font) => {
            *cur = ahead;
            Ok(font)
        },
        Err(kind) => Err(DecodeError { kind, position: at }),
    }
}

/// Parses a horizontal multiplier.
pub fn parse_h_mult(cur: &mut ByteCursor<'_>) -> (r: Result<HorizontalMultiplier, DecodeError>)
    ensures
        reads_as(*old(cur), *final(cur), r, spec_h_mult(old(cur).buffer(), Ok(old(cur).offset()))),
{
    let at = cur.position();
    let mut ahead = *cur;
    let m = parse_integer(&mut ahead)?;
    match HorizontalMultiplier::new(m) {
        Ok(multiplier) => {
            *cur = ahead;
            Ok(multiplier)
        },
        Err(kind) => Err(DecodeError { kind, position: at }),
    }
}

/// Parses a vertical multiplier.
pub fn parse_v_mult(cur: &mut ByteCursor<'_>) -> (r: Result<VerticalMultiplier, DecodeError>)
    ensures
        reads_as(*old(cur), *final(cur), r, spec_v_mult(old(cur).buffer(), Ok(old(cur).offset()))),
{
    let at = cur.position();
    let mut ahead = *cur;
    let m = parse_integer(&mut ahead)?;
    match VerticalMultiplier::new(m) {
        Ok(multiplier) => {
            *cur = ahead;
            Ok(multiplier)
        },
        Err(kind) => Err(DecodeError { kind, position: at }),
    }
}

/// Parses the reverse-image flag.
pub fn parse_reverse(cur: &mut ByteCursor<'_>) -> (r: Result<ReverseImage, DecodeError>)
    ensures
        reads(*old(cur), *final(cur), r, spec_reverse(old(cur).buffer(), Ok(old(cur).offset()))),
{
    let at = cur.position();
    let mut ahead = *cur;
    let letter = symbol(&mut ahead)?;
    match ReverseImage::from_letter(letter) {
        Ok(reverse) => {
            *cur = ahead;
            Ok(reverse)
        },
        Err(kind) => Err(DecodeError { kind, position: at }),
    }
}

/// Parses a number limited to `low..=high`.
pub fn parse_ranged(cur: &mut ByteCursor<'_>, low: i32, high: i32, field: Field) -> (r: Result<
    i32,
    DecodeError,
>)
    ensures
        reads_number(
            *old(cur),
            *final(cur),
            r,
            spec_ranged(old(cur).buffer(), Ok(old(cur).offset()), low as int, high as int, field),
        ),
        r is Ok ==> low <= r->Ok_0 <= high,
{
    let at = cur.position();
    let mut ahead = *cur;
    let n = parse_integer(&mut ahead)?;
    if low <= n && n <= high {
        *cur = ahead;
        Ok(n)
    } else {
        Err(DecodeError { kind: ErrorKind::OutOfDomain(field, n), position: at })
    }
}

/// Parses a two-way choice written as the letter `yes` or the letter `no`.
pub fn parse_choice(cur: &mut ByteCursor<'_>, yes: u8, no: u8, field: Field) -> (r: Result<
    bool,
    DecodeError,
>)
    ensures
        reads(
            *old(cur),
            *final(cur),
            r,
            spec_choice(old(cur).buffer(), Ok(old(cur).offset()), yes, no, field),
        ),
{
    let at = cur.position();
    let mut ahead = *cur;
    let letter = symbol(&mut ahead)?;
    if letter == yes {
        *cur = ahead;
        Ok(true)
    } else if letter == no {
        *cur = ahead;
        Ok(false)
    } else {
        Err(DecodeError { kind: ErrorKind::OutOfDomain(field, letter as i32), position: at })
    }
}

/// Parses a two-way choice written as the number 1 or the number 0.
pub fn parse_switch(cur: &mut ByteCursor<'_>, field: Field) -> (r: Result<bool, DecodeError>)
    ensures
        reads(
            *old(cur),
            *final(cur),
            r,
            spec_switch(old(cur).buffer(), Ok(old(cur).offset()), field),
        ),
{
    let at = cur.position();
    let mut ahead = *cur;
    let n = parse_integer(&mut ahead)?;
    if n == 1 {
        *cur = ahead;
        Ok(true)
    } else if n == 0 {
        *cur = ahead;
        Ok(false)
    } else {
        Err(DecodeError { kind: ErrorKind::OutOfDomain(field, n), position: at })
    }
}

/// Parses a standard bar code selection.
pub fn parse_bar_code_selection(cur: &mut ByteCursor<'_>) -> (r: Result<
    BarCodeStandardSelection,
    DecodeError,
>)
    ensures
        reads(
            *old(cur),
            *final(cur),
            r,
            spec_bar_code_selection(old(cur).buffer(), Ok(old(cur).offset())),
        ),
{
    let at = cur.position();
    let mut ahead = *cur;
    let one = symbol(&mut ahead)?;
    if one != 0x31 {
        return Err(
            DecodeError {
                kind: ErrorKind::OutOfDomain(Field::BarCodeSelection, one as i32),
                position: at,
            },
        );
    }
    let selection = match ahead.peek() {
        Some(letter) => match BarCodeStandardSelection::from_mode(letter) {
            Some(mode) => {
                let _ = ahead.advance(1);
                mode
            },
            None => BarCodeStandardSelection::Code128Auto,
        },
        None => BarCodeStandardSelection::Code128Auto,
    };
    *cur = ahead;
    Ok(selection)
}

/// Parses a two-dimensional bar code selection.
pub fn parse_bar_code_2d_selection(cur: &mut ByteCursor<'_>) -> (r: Result<
    BarCode2DSelection,
    DecodeError,
>)
    ensures
        reads(
            *old(cur),
            *final(cur),
            r,
            spec_bar_code_2d_selection(old(cur).buffer(), Ok(old(cur).offset())),
        ),
{
    let at = cur.position();
    let mut ahead = *cur;
    let letter = symbol(&mut ahead)?;
    match BarCode2DSelection::from_letter(letter) {
        Ok(selection) => {
            *cur = ahead;
            Ok(selection)
        },
        Err(kind) => Err(DecodeError { kind, position: at }),
    }
}

/// Parses the number of data bits.
pub fn parse_bit_support(cur: &mut ByteCursor<'_>) -> (r: Result<BitSupport, DecodeError>)
    ensures
        reads(
            *old(cur),
            *final(cur),
            r,
            spec_bit_support(old(cur).buffer(), Ok(old(cur).offset())),
        ),
{
    let at = cur.position();
    let mut ahead = *cur;
    let n = parse_integer(&mut ahead)?;
    match BitSupport::from_code(n) {
        Ok(bits) => {
            *cur = ahead;
            Ok(bits)
        },
        Err(kind) => Err(DecodeError { kind, position: at }),
    }
}

/// Parses a code page.
pub fn parse_encoding(cur: &mut ByteCursor<'_>) -> (r: Result<Encoding, DecodeError>)
    ensures
        reads(*old(cur), *final(cur), r, spec_encoding(old(cur).buffer(), Ok(old(cur).offset()))),
{
    let at = cur.position();
    let mut ahead = *cur;
    let numeric = match ahead.peek() {
        Some(b) => 0x30 <= b && b <= 0x39,
        None => false,
    };
    let validated = if numeric {
        Encoding::from_code(parse_integer(&mut ahead)?)
    } else {
        Encoding::from_letter(symbol(&mut ahead)?)
    };
    match validated {
        Ok(encoding) => {
            *cur = ahead;
            Ok(encoding)
        },
        Err(kind) => Err(DecodeError { kind, position: at }),
    }
}

/// Parses a country code.
pub fn parse_country_code(cur: &mut ByteCursor<'_>) -> (r: Result<KDUCountryCode, DecodeError>)
    ensures
        reads(
            *old(cur),
            *final(cur),
            r,
            spec_country_code(old(cur).buffer(), Ok(old(cur).offset())),
        ),
{
    let at = cur.position();
    let mut ahead = *cur;
    let n = parse_integer(&mut ahead)?;
    match KDUCountryCode::from_code(n) {
        Ok(country) => {
            *cur = ahead;
            Ok(country)
        },
        Err(kind) => Err(DecodeError { kind, position: at }),
    }
}

/// Parses a print orientation.
pub fn parse_orientation(cur: &mut ByteCursor<'_>) -> (r: Result<char, DecodeError>)
    ensures
        reads(
            *old(cur),
            *final(cur),
            r,
            spec_orientation(old(cur).buffer(), Ok(old(cur).offset())),
        ),
{
    let at = cur.position();
    let mut ahead = *cur;
    let letter = symbol(&mut ahead)?;
    if letter == 0x54 {
        *cur = ahead;
        Ok('T')
    } else if letter == 0x42 {
        *cur = ahead;
        Ok('B')
    } else {
        Err(
            DecodeError {
                kind: ErrorKind::OutOfDomain(Field::Orientation, letter as i32),
                position: at,
            },
        )
    }
}

} // verus!
