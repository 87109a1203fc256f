//! The round-trip law: the grammar reads the canonical text of a command
//! back as that command, wherever in a buffer the text stands and whatever
//! follows it.

use vstd::prelude::*;
use crate::commands::is_number;
use crate::error::DecodeError;
use crate::fields::{spec_bar_code_selection, spec_country_code, spec_encoding};
use crate::primitives::{
    decimal_value, is_digit, lemma_digits_end, spec_binary_block, spec_escaped_string,
    spec_integer, spec_string_body, COMMA, QUOTE,
};
use crate::scan::{byte_at, holds_at};
use crate::text::{
    country_text, decimal_digits, encoding_text, escape_of, escaped, quoted, selection_text,
};
use crate::values::{BarCodeStandardSelection, Encoding, KDUCountryCode};

verus! {

/// A buffer that holds two pieces in a row holds each of them.
pub broadcast proof fn lemma_holds_at_split(s: Seq<u8>, pos: int, a: Seq<u8>, b: Seq<u8>)
    requires
        #[trigger] holds_at(s, pos, a + b),
    ensures
        holds_at(s, pos, a),
        holds_at(s, pos + a.len(), b),
{
    let whole = s.subrange(pos, pos + (a + b).len());
    assert(s.subrange(pos, pos + a.len()) =~= whole.subrange(0, a.len() as int));
    assert((a + b).subrange(0, a.len() as int) =~= a);
    assert(s.subrange(pos + a.len(), pos + a.len() + b.len()) =~= whole.subrange(
        a.len() as int,
        (a + b).len() as int,
    ));
    assert((a + b).subrange(a.len() as int, (a + b).len() as int) =~= b);
}

/// A buffer that holds a piece holds each of its bytes.
pub proof fn lemma_holds_at_index(s: Seq<u8>, pos: int, piece: Seq<u8>, i: int)
    requires
        holds_at(s, pos, piece),
        0 <= i < piece.len(),
    ensures
        byte_at(s, pos + i) == Some(piece[i]),
{
    assert(s.subrange(pos, pos + piece.len())[i] == s[pos + i]);
}

/// A buffer that holds a one-byte piece has that byte there.
pub proof fn lemma_reads_byte(s: Seq<u8>, pos: int, b: u8)
    requires
        holds_at(s, pos, seq![b]),
    ensures
        byte_at(s, pos) == Some(b),
{
    lemma_holds_at_index(s, pos, seq![b], 0);
}

/// The decimal digits of a number are digits, at least one, and denote the
/// number.
pub proof fn lemma_decimal_digits(n: int)
    requires
        0 <= n,
    ensures
        decimal_digits(n).len() >= 1,
        forall|i: int| 0 <= i < decimal_digits(n).len() ==> is_digit(
            #[trigger] decimal_digits(n)[i],
        ),
        decimal_value(decimal_digits(n)) == n,
    decreases n,
{
    let digits = decimal_digits(n);
    if n < 10 {
        assert(digits.drop_last() =~= Seq::<u8>::empty());
        assert(decimal_value(digits.drop_last()) == 0);
    } else {
        lemma_decimal_digits(n / 10);
        assert(digits.drop_last() =~= decimal_digits(n / 10));
    }
}

/// The grammar of a number reads the decimal digits of `n` as `n`, where no
/// further digit follows them.
pub proof fn lemma_reads_number(s: Seq<u8>, pos: int, n: int)
    requires
        is_number(n),
        holds_at(s, pos, decimal_digits(n)),
        byte_at(s, pos + decimal_digits(n).len()) is Some ==> !is_digit(
            byte_at(s, pos + decimal_digits(n).len())->Some_0,
        ),
    ensures
        spec_integer(s, Ok(pos)) == (n, Ok::<int, DecodeError>(pos + decimal_digits(n).len())),
{
    let digits = decimal_digits(n);
    let end = pos + digits.len();
    lemma_decimal_digits(n);
    assert forall|i: int| pos <= i < end implies is_digit(#[trigger] s[i]) by {
        lemma_holds_at_index(s, pos, digits, i - pos);
    }
    lemma_digits_end(s, pos, end);
}

/// The grammar of a string reads the inside of the literal that holds
/// `text`, and the closing quote, as `text`.
pub proof fn lemma_reads_string_body(s: Seq<u8>, pos: int, open: int, text: Seq<u8>)
    requires
        holds_at(s, pos, escaped(text) + seq![QUOTE]),
    ensures
        spec_string_body(s, pos, open) == (
            text,
            Ok::<int,
            DecodeError>(pos + escaped(text).len() + 1),
        ),
    decreases text.len(),
{
    let inside = escaped(text) + seq![QUOTE];
    if text.len() == 0 {
        assert(escaped(text) =~= Seq::<u8>::empty());
        lemma_holds_at_index(s, pos, inside, 0);
        assert(spec_string_body(s, pos, open).0 =~= text);
    } else {
        let b = text[0];
        let rest = text.drop_first();
        let head = escape_of(b);
        assert(inside =~= head + (escaped(rest) + seq![QUOTE]));
        lemma_holds_at_split(s, pos, head, escaped(rest) + seq![QUOTE]);
        lemma_holds_at_index(s, pos, head, 0);
        if head.len() == 2 {
            lemma_holds_at_index(s, pos, head, 1);
        }
        lemma_reads_string_body(s, pos + head.len(), open, rest);
        assert(seq![b] + rest =~= text);
    }
}

/// The grammar of a string reads the literal that holds `text` as `text`.
pub proof fn lemma_reads_string(s: Seq<u8>, pos: int, text: Seq<u8>)
    requires
        holds_at(s, pos, quoted(text)),
    ensures
        spec_escaped_string(s, Ok(pos)) == (text, Ok::<int, DecodeError>(pos + quoted(text).len())),
{
    assert(quoted(text) =~= seq![QUOTE] + (escaped(text) + seq![QUOTE]));
    lemma_holds_at_split(s, pos, seq![QUOTE], escaped(text) + seq![QUOTE]);
    lemma_reads_byte(s, pos, QUOTE);
    lemma_reads_string_body(s, pos + 1, pos, text);
}

/// The grammar of a raw block reads the bytes that stand there, whatever
/// they are.
pub proof fn lemma_reads_block(s: Seq<u8>, pos: int, bytes: Seq<u8>)
    requires
        holds_at(s, pos, bytes),
    ensures
        spec_binary_block(s, Ok(pos), bytes.len() as int) == (
            bytes,
            Ok::<int, DecodeError>(pos + bytes.len()),
        ),
{
}

/// The grammar of a standard bar code selection reads the text of a
/// selection as that selection, where a comma follows it.
pub proof fn lemma_reads_selection(s: Seq<u8>, pos: int, selection: BarCodeStandardSelection)
    requires
        holds_at(s, pos, selection_text(selection)),
        byte_at(s, pos + selection_text(selection).len()) == Some(COMMA),
    ensures
        spec_bar_code_selection(s, Ok(pos)) == (
            selection,
            Ok::<int, DecodeError>(pos + selection_text(selection).len()),
        ),
{
    let text = selection_text(selection);
    lemma_holds_at_index(s, pos, text, 0);
    if text.len() == 2 {
        lemma_holds_at_index(s, pos, text, 1);
    }
}

/// The grammar of a code page reads the text of a code page as that code
/// page, where no digit follows it.
pub proof fn lemma_reads_encoding(s: Seq<u8>, pos: int, encoding: Encoding)
    requires
        holds_at(s, pos, encoding_text(encoding)),
        byte_at(s, pos + encoding_text(encoding).len()) is Some ==> !is_digit(
            byte_at(s, pos + encoding_text(encoding).len())->Some_0,
        ),
    ensures
        spec_encoding(s, Ok(pos)) == (
            encoding,
            Ok::<int, DecodeError>(pos + encoding_text(encoding).len()),
        ),
{
    let text = encoding_text(encoding);
    match encoding.spec_code() {
        Some(code) => {
            lemma_decimal_digits(code);
            lemma_holds_at_index(s, pos, text, 0);
            lemma_reads_number(s, pos, code);
        },
        None => {
            lemma_holds_at_index(s, pos, text, 0);
        },
    }
}

/// The grammar of a country code reads the three digits of a country as
/// that country, where no further digit follows them.
pub proof fn lemma_reads_country(s: Seq<u8>, pos: int, country: KDUCountryCode)
    requires
        holds_at(s, pos, country_text(country)),
        byte_at(s, pos + 3) is Some ==> !is_digit(byte_at(s, pos + 3)->Some_0),
    ensures
        spec_country_code(s, Ok(pos)) == (country, Ok::<int, DecodeError>(pos + 3)),
{
    let text = country_text(country);
    lemma_holds_at_index(s, pos, text, 0);
    lemma_holds_at_index(s, pos, text, 1);
    lemma_holds_at_index(s, pos, text, 2);
    lemma_digits_end(s, pos, pos + 3);
    let two = text.drop_last();
    let one = two.drop_last();
    assert(one.drop_last() =~= Seq::<u8>::empty());
    assert(decimal_value(one.drop_last()) == 0);
    assert(decimal_value(one) == country.spec_code() / 100);
    assert(decimal_value(two) == country.spec_code() / 10);
    assert(decimal_value(text) == country.spec_code());
}

} // verus!
