use epl2img::cursor::ByteCursor;
use epl2img::error::{DecodeError, ErrorKind};
use epl2img::primitives::{
    binary_block, end_of_command, escaped_char, escaped_string, lex, parse_integer, separator,
    symbol,
};

fn error(kind: ErrorKind, position: usize) -> DecodeError {
    DecodeError { kind, position }
}

#[test]
fn integer_reads_all_digits() {
    let mut cursor = ByteCursor::new(b"216,0");
    assert_eq!(parse_integer(&mut cursor), Ok(216));
    assert_eq!(cursor.position(), 3);
}

#[test]
fn integer_reads_up_to_the_end_of_the_buffer() {
    let mut cursor = ByteCursor::new(b"7");
    assert_eq!(parse_integer(&mut cursor), Ok(7));
    assert_eq!(cursor.position(), 1);
}

#[test]
fn integer_accepts_leading_zeros() {
    let mut cursor = ByteCursor::new(b"0079,");
    assert_eq!(parse_integer(&mut cursor), Ok(79));
    assert_eq!(cursor.position(), 4);
    let mut zero = ByteCursor::new(b"0");
    assert_eq!(parse_integer(&mut zero), Ok(0));
}

#[test]
fn integer_without_a_digit_is_not_a_number() {
    let mut cursor = ByteCursor::new(b"x12");
    assert_eq!(parse_integer(&mut cursor), Err(error(ErrorKind::NotANumber, 0)));
    assert_eq!(cursor.position(), 0);
    let mut comma = ByteCursor::new(b"1,,2");
    assert_eq!(comma.advance(2), Ok(()));
    assert_eq!(parse_integer(&mut comma), Err(error(ErrorKind::NotANumber, 2)));
    assert_eq!(comma.position(), 2);
}

#[test]
fn integer_has_no_sign() {
    let mut cursor = ByteCursor::new(b"-1");
    assert_eq!(parse_integer(&mut cursor), Err(error(ErrorKind::NotANumber, 0)));
    let mut plus = ByteCursor::new(b"+1");
    assert_eq!(parse_integer(&mut plus), Err(error(ErrorKind::NotANumber, 0)));
}

#[test]
fn integer_at_the_end_of_the_buffer_is_an_unexpected_end() {
    let mut cursor = ByteCursor::new(b"1,");
    assert_eq!(cursor.advance(2), Ok(()));
    assert_eq!(parse_integer(&mut cursor), Err(error(ErrorKind::UnexpectedEnd, 2)));
    assert_eq!(cursor.position(), 2);
}

#[test]
fn integer_fits_the_signed_32_bit_range() {
    let mut max = ByteCursor::new(b"2147483647");
    assert_eq!(parse_integer(&mut max), Ok(2147483647));
    assert_eq!(max.position(), 10);
    let mut padded = ByteCursor::new(b"00000000002147483647,");
    assert_eq!(parse_integer(&mut padded), Ok(2147483647));
}

#[test]
fn integer_beyond_the_range_overflows() {
    let mut over = ByteCursor::new(b"2147483648");
    assert_eq!(parse_integer(&mut over), Err(error(ErrorKind::IntegerOverflow, 0)));
    assert_eq!(over.position(), 0);
    let mut long = ByteCursor::new(b"A99999999999999999999999,");
    assert_eq!(long.advance(1), Ok(()));
    assert_eq!(parse_integer(&mut long), Err(error(ErrorKind::IntegerOverflow, 1)));
    assert_eq!(long.position(), 1);
    let mut ten = ByteCursor::new(b"21474836470");
    assert_eq!(parse_integer(&mut ten), Err(error(ErrorKind::IntegerOverflow, 0)));
}

#[test]
fn separator_consumes_the_expected_byte() {
    let mut cursor = ByteCursor::new(b",\n");
    assert_eq!(separator(&mut cursor, b','), Ok(()));
    assert_eq!(cursor.position(), 1);
    assert_eq!(separator(&mut cursor, b'\n'), Ok(()));
    assert_eq!(cursor.position(), 2);
}

#[test]
fn separator_rejects_another_byte_and_the_end() {
    let mut cursor = ByteCursor::new(b";");
    assert_eq!(separator(&mut cursor, b','), Err(error(ErrorKind::ExpectedSeparator, 0)));
    assert_eq!(cursor.position(), 0);
    assert_eq!(cursor.advance(1), Ok(()));
    assert_eq!(separator(&mut cursor, b','), Err(error(ErrorKind::ExpectedSeparator, 1)));
    assert_eq!(cursor.position(), 1);
}

#[test]
fn end_of_command_is_a_line_feed_or_the_end() {
    let mut cursor = ByteCursor::new(b"\nN");
    assert_eq!(end_of_command(&mut cursor), Ok(()));
    assert_eq!(cursor.position(), 1);
    assert_eq!(end_of_command(&mut cursor), Err(error(ErrorKind::ExpectedSeparator, 1)));
    assert_eq!(cursor.position(), 1);
    let mut end = ByteCursor::new(b"");
    assert_eq!(end_of_command(&mut end), Ok(()));
    assert_eq!(end.position(), 0);
    let mut carriage_return = ByteCursor::new(b"\r\n");
    assert_eq!(
        end_of_command(&mut carriage_return),
        Err(error(ErrorKind::ExpectedSeparator, 0))
    );
}

#[test]
fn symbol_takes_one_byte() {
    let mut cursor = ByteCursor::new(b"R");
    assert_eq!(symbol(&mut cursor), Ok(b'R'));
    assert_eq!(cursor.position(), 1);
    assert_eq!(symbol(&mut cursor), Err(error(ErrorKind::UnexpectedEnd, 1)));
}

#[test]
fn lex_follows_a_value_with_its_comma() {
    let mut cursor = ByteCursor::new(b"79,216");
    let field = parse_integer(&mut cursor);
    assert_eq!(lex(field, &mut cursor), Ok(79));
    assert_eq!(cursor.position(), 3);
}

#[test]
fn lex_without_a_comma_expects_a_separator() {
    let mut cursor = ByteCursor::new(b"79;216");
    let field = parse_integer(&mut cursor);
    assert_eq!(lex(field, &mut cursor), Err(error(ErrorKind::ExpectedSeparator, 2)));
    let mut end = ByteCursor::new(b"79");
    let field = parse_integer(&mut end);
    assert_eq!(lex(field, &mut end), Err(error(ErrorKind::ExpectedSeparator, 2)));
}

#[test]
fn lex_hands_a_failed_field_on() {
    let mut cursor = ByteCursor::new(b"x,");
    let field = parse_integer(&mut cursor);
    assert_eq!(lex(field, &mut cursor), Err(error(ErrorKind::NotANumber, 0)));
    assert_eq!(cursor.position(), 0);
}

#[test]
fn escaped_char_reads_a_plain_byte() {
    let mut cursor = ByteCursor::new(b"a,");
    assert_eq!(escaped_char(&mut cursor), Ok(Some(b'a')));
    assert_eq!(cursor.position(), 1);
    assert_eq!(escaped_char(&mut cursor), Ok(Some(b',')));
    assert_eq!(cursor.position(), 2);
}

#[test]
fn escaped_char_resolves_every_escape() {
    let cases: [(&[u8], u8); 8] = [
        (b"\\\"", b'"'),
        (b"\\\\", b'\\'),
        (b"\\/", b'/'),
        (b"\\b", 0x08),
        (b"\\f", 0x0C),
        (b"\\n", b'\n'),
        (b"\\r", b'\r'),
        (b"\\t", b'\t'),
    ];
    for (input, expected) in cases {
        let mut cursor = ByteCursor::new(input);
        assert_eq!(escaped_char(&mut cursor), Ok(Some(expected)));
        assert_eq!(cursor.position(), 2);
    }
}

#[test]
fn escaped_char_stops_before_a_bare_quote() {
    let mut cursor = ByteCursor::new(b"\"x");
    assert_eq!(escaped_char(&mut cursor), Ok(None));
    assert_eq!(cursor.position(), 0);
}

#[test]
fn escaped_char_rejects_an_unknown_escape() {
    let mut cursor = ByteCursor::new(b"a\\qb");
    assert_eq!(cursor.advance(1), Ok(()));
    assert_eq!(escaped_char(&mut cursor), Err(error(ErrorKind::InvalidEscape, 1)));
    assert_eq!(cursor.position(), 1);
}

#[test]
fn escaped_char_at_the_end_is_an_unexpected_end() {
    let mut cursor = ByteCursor::new(b"");
    assert_eq!(escaped_char(&mut cursor), Err(error(ErrorKind::UnexpectedEnd, 0)));
    let mut backslash = ByteCursor::new(b"\\");
    assert_eq!(escaped_char(&mut backslash), Err(error(ErrorKind::UnexpectedEnd, 0)));
    assert_eq!(backslash.position(), 0);
}

#[test]
fn escaped_string_strips_the_quotes() {
    let mut cursor = ByteCursor::new(b"\"Company\"");
    assert_eq!(escaped_string(&mut cursor), Ok(b"Company".to_vec()));
    assert_eq!(cursor.position(), 9);
}

#[test]
fn escaped_string_resolves_escaped_quotes() {
    let mut cursor = ByteCursor::new(b"\"\\\"Company\\\"\"\n");
    assert_eq!(escaped_string(&mut cursor), Ok(b"\"Company\"".to_vec()));
    assert_eq!(cursor.position(), 13);
}

#[test]
fn escaped_string_may_be_empty() {
    let mut cursor = ByteCursor::new(b"\"\"");
    assert_eq!(escaped_string(&mut cursor), Ok(Vec::new()));
    assert_eq!(cursor.position(), 2);
}

#[test]
fn escaped_string_keeps_commas_and_line_feeds() {
    let mut cursor = ByteCursor::new(b"\"a,b\nc\\\\d\"");
    assert_eq!(escaped_string(&mut cursor), Ok(b"a,b\nc\\d".to_vec()));
    assert_eq!(cursor.position(), 10);
}

#[test]
fn escaped_string_keeps_bytes_above_ascii() {
    let mut cursor = ByteCursor::new(b"\"\x80\xFF\"");
    assert_eq!(escaped_string(&mut cursor), Ok(vec![0x80, 0xFF]));
}

#[test]
fn escaped_string_without_a_closing_quote_is_unterminated() {
    let mut cursor = ByteCursor::new(b"N,\"USPS");
    assert_eq!(cursor.advance(2), Ok(()));
    assert_eq!(escaped_string(&mut cursor), Err(error(ErrorKind::UnterminatedString, 2)));
    assert_eq!(cursor.position(), 2);
    let mut escaped_end = ByteCursor::new(b"\"USPS\\\"");
    assert_eq!(escaped_string(&mut escaped_end), Err(error(ErrorKind::UnterminatedString, 0)));
    let mut backslash_end = ByteCursor::new(b"\"USPS\\");
    assert_eq!(escaped_string(&mut backslash_end), Err(error(ErrorKind::UnterminatedString, 0)));
}

#[test]
fn escaped_string_with_an_unknown_escape_is_invalid() {
    let mut cursor = ByteCursor::new(b"\"US\\xPS\"");
    assert_eq!(escaped_string(&mut cursor), Err(error(ErrorKind::InvalidEscape, 3)));
    assert_eq!(cursor.position(), 0);
}

#[test]
fn escaped_string_needs_its_opening_quote() {
    let mut cursor = ByteCursor::new(b"USPS\"");
    assert_eq!(escaped_string(&mut cursor), Err(error(ErrorKind::ExpectedSeparator, 0)));
    let mut end = ByteCursor::new(b"");
    assert_eq!(escaped_string(&mut end), Err(error(ErrorKind::ExpectedSeparator, 0)));
}

#[test]
fn binary_block_takes_separators_as_data() {
    let mut cursor = ByteCursor::new(b"\n,\"\\\n,rest");
    assert_eq!(binary_block(&mut cursor, 6), Ok(b"\n,\"\\\n,".to_vec()));
    assert_eq!(cursor.position(), 6);
}

#[test]
fn binary_block_of_no_bytes() {
    let mut cursor = ByteCursor::new(b"abc");
    assert_eq!(binary_block(&mut cursor, 0), Ok(Vec::new()));
    assert_eq!(cursor.position(), 0);
}

#[test]
fn binary_block_that_runs_out_of_bytes() {
    let mut cursor = ByteCursor::new(b"abcde");
    assert_eq!(cursor.advance(1), Ok(()));
    assert_eq!(binary_block(&mut cursor, 5), Err(error(ErrorKind::UnexpectedEnd, 1)));
    assert_eq!(cursor.position(), 1);
    assert_eq!(binary_block(&mut cursor, 4), Ok(b"bcde".to_vec()));
}
