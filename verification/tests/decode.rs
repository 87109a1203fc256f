use epl2img::commands::Command;
use epl2img::cursor::ByteCursor;
use epl2img::decoder::{decode, skip_line, skip_to_boundary, DecoderState, Entry, StreamDecoder};
use epl2img::error::{DecodeError, ErrorKind, Field};
use epl2img::grammar::parse_ascii_text;
use epl2img::values::{Font, ReverseImage, Rotation};

fn failed(position: usize, kind: ErrorKind, at: usize) -> Entry {
    Entry { position, outcome: Err(DecodeError { kind, position: at }) }
}

#[test]
fn ascii_text_is_decoded_field_by_field() {
    let input = b"A79,216,0,4,2,2,N,\"USPS\"";
    let mut cursor = ByteCursor::new(input);
    let text = parse_ascii_text(&mut cursor).unwrap();
    assert_eq!(text.h_start(), 79);
    assert_eq!(text.v_start(), 216);
    assert_eq!(text.rotation(), Rotation::NoRotation);
    assert_eq!(text.font_selection(), Font::Size4);
    assert_eq!(text.h_mult().multiplier(), 2);
    assert_eq!(text.v_mult().multiplier(), 2);
    assert_eq!(text.reverse(), ReverseImage::N);
    assert_eq!(text.data().as_slice(), b"USPS");
    assert_eq!(cursor.position(), input.len());
    let entries = decode(input);
    assert_eq!(entries.len(), 1);
    assert_eq!(entries[0], Entry { position: 0, outcome: Ok(Command::AsciiText(text)) });
}

#[test]
fn ascii_text_with_reverse_image() {
    let mut cursor = ByteCursor::new(b"A79,216,0,4,2,2,R,\"USPS\"\n");
    let text = parse_ascii_text(&mut cursor).unwrap();
    assert_eq!(text.reverse(), ReverseImage::R);
    assert_eq!(cursor.position(), 25);
}

#[test]
fn ascii_text_with_invalid_horizontal_multiplier_is_rejected() {
    let input = b"A79,216,0,4,9,2,N,\"USPS\"";
    let mut cursor = ByteCursor::new(input);
    let error = parse_ascii_text(&mut cursor).unwrap_err();
    assert_eq!(error.kind, ErrorKind::OutOfDomain(Field::HorizontalMultiplier, 9));
    assert_eq!(error.position, 12);
    assert_eq!(Field::HorizontalMultiplier.name(), "HorizontalMultiplier");
    assert_eq!(cursor.position(), 0);
    let entries = decode(input);
    assert_eq!(
        entries,
        vec![failed(0, ErrorKind::OutOfDomain(Field::HorizontalMultiplier, 9), 12)]
    );
}

#[test]
fn the_first_invalid_field_is_the_one_reported() {
    let mut cursor = ByteCursor::new(b"A79,216,7,9,9,x,N,\"USPS\"");
    assert_eq!(
        parse_ascii_text(&mut cursor),
        Err(DecodeError { kind: ErrorKind::OutOfDomain(Field::Rotation, 7), position: 8 })
    );
    let mut syntax = ByteCursor::new(b"A79;216,7,9,9,x,N,\"USPS\"");
    assert_eq!(
        parse_ascii_text(&mut syntax),
        Err(DecodeError { kind: ErrorKind::ExpectedSeparator, position: 3 })
    );
}

#[test]
fn ascii_text_must_end_with_its_line() {
    let mut cursor = ByteCursor::new(b"A79,216,0,4,2,2,N,\"USPS\"x\n");
    assert_eq!(
        parse_ascii_text(&mut cursor),
        Err(DecodeError { kind: ErrorKind::ExpectedSeparator, position: 24 })
    );
    assert_eq!(cursor.position(), 0);
}

#[test]
fn malformed_line_then_clear_image_buffer() {
    let entries = decode(b"A79,x\nN\n");
    assert_eq!(
        entries,
        vec![
            failed(0, ErrorKind::NotANumber, 4),
            Entry { position: 6, outcome: Ok(Command::ClearImageBuffer) },
        ]
    );
}

#[test]
fn an_empty_buffer_decodes_to_nothing() {
    assert_eq!(decode(b""), Vec::new());
    assert_eq!(decode(b"\n\n  \r\n\t\n"), Vec::new());
    assert_eq!(decode(b"   "), Vec::new());
}

#[test]
fn blank_lines_between_commands_are_skipped() {
    let entries = decode(b"\n  \r\nN\n\n\r\nU\n \t ");
    assert_eq!(
        entries,
        vec![
            Entry { position: 5, outcome: Ok(Command::ClearImageBuffer) },
            Entry { position: 10, outcome: Ok(Command::PrintConfiguration) },
        ]
    );
}

#[test]
fn blanks_before_a_command_are_no_blank_line() {
    let entries = decode(b"  N\nU\n");
    assert_eq!(
        entries,
        vec![
            failed(0, ErrorKind::UnknownCommand(b' '), 0),
            Entry { position: 4, outcome: Ok(Command::PrintConfiguration) },
        ]
    );
}

#[test]
fn an_unknown_command_costs_one_line() {
    let entries = decode(b"K1,2,3\nN\nfoo\nU");
    assert_eq!(
        entries,
        vec![
            failed(0, ErrorKind::UnknownCommand(b'K'), 0),
            Entry { position: 7, outcome: Ok(Command::ClearImageBuffer) },
            failed(9, ErrorKind::UnknownCommand(b'f'), 9),
            Entry { position: 13, outcome: Ok(Command::PrintConfiguration) },
        ]
    );
}

#[test]
fn an_unsupported_subform_costs_one_line() {
    let entries = decode(b"GK\"name\"\nN\n");
    assert_eq!(
        entries,
        vec![
            failed(0, ErrorKind::UnknownCommand(b'G'), 0),
            Entry { position: 9, outcome: Ok(Command::ClearImageBuffer) },
        ]
    );
}

#[test]
fn a_command_follows_a_payload_at_once() {
    let entries = decode(b"GW0,0,1,2,\n\nN\nGW0,0,1,1,,\nU\n");
    assert_eq!(entries.len(), 4);
    assert_eq!(entries[0].position, 0);
    match &entries[0].outcome {
        Ok(Command::Graphics(graphics)) => assert_eq!(graphics.data().as_slice(), b"\n\n"),
        other => panic!("{:?}", other),
    }
    assert_eq!(entries[1], Entry { position: 12, outcome: Ok(Command::ClearImageBuffer) });
    assert_eq!(entries[2].position, 14);
    match &entries[2].outcome {
        Ok(Command::Graphics(graphics)) => assert_eq!(graphics.data().as_slice(), b","),
        other => panic!("{:?}", other),
    }
    assert_eq!(entries[3], Entry { position: 26, outcome: Ok(Command::PrintConfiguration) });
}

#[test]
fn a_failed_payload_command_ends_the_pass() {
    let entries = decode(b"N\nGW0,0,2,3,abc\nN");
    assert_eq!(
        entries,
        vec![
            Entry { position: 0, outcome: Ok(Command::ClearImageBuffer) },
            failed(2, ErrorKind::UnexpectedEnd, 12),
        ]
    );
    let header = decode(b"U\nGW0,x,2,3,abcdef\nN\n");
    assert_eq!(
        header,
        vec![
            Entry { position: 0, outcome: Ok(Command::PrintConfiguration) },
            failed(2, ErrorKind::NotANumber, 6),
        ]
    );
    let two_dimensional = decode(b"b1,2,Q,\nN\n");
    assert_eq!(
        two_dimensional,
        vec![failed(0, ErrorKind::OutOfDomain(Field::BarCode2DSelection, 81), 5)]
    );
}

#[test]
fn every_error_kind_is_recorded() {
    let entries = decode(
        b"A1\nAx\nA99999999999\nA1,2,0,1,1,1,N,\"a\\qc\"\nA1,2,0,1,1,1,N\nA1,2,5\nY\nA1,",
    );
    let kinds: Vec<ErrorKind> =
        entries.iter().map(|entry| entry.outcome.as_ref().unwrap_err().kind).collect();
    assert_eq!(
        kinds,
        vec![
            ErrorKind::ExpectedSeparator,
            ErrorKind::NotANumber,
            ErrorKind::IntegerOverflow,
            ErrorKind::InvalidEscape,
            ErrorKind::ExpectedSeparator,
            ErrorKind::OutOfDomain(Field::Rotation, 5),
            ErrorKind::UnknownCommand(b'Y'),
            ErrorKind::UnexpectedEnd,
        ]
    );
    let unterminated = decode(b"N\nA1,2,0,1,1,1,N,\"abc");
    assert_eq!(unterminated[1], failed(2, ErrorKind::UnterminatedString, 17));
}

#[test]
fn skip_to_boundary_finds_the_next_command() {
    let mut cursor = ByteCursor::new(b" \r\n\t\nN\n");
    skip_to_boundary(&mut cursor);
    assert_eq!(cursor.position(), 5);
    skip_to_boundary(&mut cursor);
    assert_eq!(cursor.position(), 5);
    let mut indented = ByteCursor::new(b"\n  N\n");
    skip_to_boundary(&mut indented);
    assert_eq!(indented.position(), 1);
    let mut blank_end = ByteCursor::new(b"\n  ");
    skip_to_boundary(&mut blank_end);
    assert_eq!(blank_end.position(), 3);
}

#[test]
fn skip_line_goes_past_the_line_feed() {
    let mut cursor = ByteCursor::new(b"abc\ndef");
    skip_line(&mut cursor);
    assert_eq!(cursor.position(), 4);
    skip_line(&mut cursor);
    assert_eq!(cursor.position(), 7);
    skip_line(&mut cursor);
    assert_eq!(cursor.position(), 7);
    let mut at_line_feed = ByteCursor::new(b"\n\n");
    skip_line(&mut at_line_feed);
    assert_eq!(at_line_feed.position(), 1);
}

#[test]
fn the_decoder_goes_through_its_states() {
    let mut decoder = StreamDecoder::new(b"\nN\nK\n");
    assert!(!decoder.is_done());
    assert_eq!(decoder.state(), &DecoderState::Ready);
    assert_eq!(decoder.position(), 0);
    assert_eq!(decoder.step(), None);
    assert_eq!(decoder.state(), &DecoderState::Dispatching);
    assert_eq!(decoder.position(), 1);
    assert_eq!(decoder.step(), None);
    assert_eq!(decoder.state(), &DecoderState::Emit(Command::ClearImageBuffer));
    assert_eq!(decoder.position(), 3);
    assert_eq!(
        decoder.step(),
        Some(Entry { position: 1, outcome: Ok(Command::ClearImageBuffer) })
    );
    assert_eq!(decoder.state(), &DecoderState::Ready);
    assert_eq!(decoder.step(), None);
    assert_eq!(decoder.state(), &DecoderState::Dispatching);
    assert_eq!(decoder.step(), None);
    assert_eq!(
        decoder.state(),
        &DecoderState::Recover(DecodeError { kind: ErrorKind::UnknownCommand(b'K'), position: 3 })
    );
    assert_eq!(decoder.position(), 3);
    assert_eq!(decoder.step(), Some(failed(3, ErrorKind::UnknownCommand(b'K'), 3)));
    assert_eq!(decoder.state(), &DecoderState::Ready);
    assert_eq!(decoder.position(), 5);
    assert!(!decoder.is_done());
    assert_eq!(decoder.step(), None);
    assert_eq!(decoder.state(), &DecoderState::Done);
    assert!(decoder.is_done());
    assert_eq!(decoder.step(), None);
    assert!(decoder.is_done());
    assert_eq!(decoder.position(), 5);
}

#[test]
fn a_failed_payload_command_leads_to_done() {
    let mut decoder = StreamDecoder::new(b"b1,x\nN\n");
    assert_eq!(decoder.step(), None);
    assert_eq!(decoder.step(), None);
    assert_eq!(
        decoder.state(),
        &DecoderState::Recover(DecodeError { kind: ErrorKind::NotANumber, position: 3 })
    );
    assert_eq!(decoder.step(), Some(failed(0, ErrorKind::NotANumber, 3)));
    assert_eq!(decoder.state(), &DecoderState::Done);
    assert_eq!(decoder.position(), 0);
    assert_eq!(decoder.next_entry(), None);
}

#[test]
fn next_entry_hands_out_the_stream_one_by_one() {
    let mut decoder = StreamDecoder::new(b"N\nx\nU\n");
    assert_eq!(
        decoder.next_entry(),
        Some(Entry { position: 0, outcome: Ok(Command::ClearImageBuffer) })
    );
    assert_eq!(decoder.next_entry(), Some(failed(2, ErrorKind::UnknownCommand(b'x'), 2)));
    assert_eq!(
        decoder.next_entry(),
        Some(Entry { position: 4, outcome: Ok(Command::PrintConfiguration) })
    );
    assert_eq!(decoder.next_entry(), None);
    assert!(decoder.is_done());
    assert_eq!(decoder.next_entry(), None);
}

#[test]
fn decoder_states_compare_by_what_they_hold() {
    assert_eq!(DecoderState::Ready, DecoderState::Ready);
    assert_ne!(DecoderState::Ready, DecoderState::Done);
    assert_ne!(DecoderState::Emit(Command::ClearImageBuffer), DecoderState::Dispatching);
}
