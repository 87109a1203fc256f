use epl2img::commands::{
    AsciiText, CharacterSetSelection, Command, Graphics, Print, PrintDirection, SetFormLength,
    SpeedSelect, WindowsMode,
};
use epl2img::cursor::ByteCursor;
use epl2img::decoder::decode;
use epl2img::dispatch::dispatch;
use epl2img::grammar::{parse_ascii_text, parse_graphics};
use epl2img::text::{write_block, write_byte, write_number, write_quoted};
use epl2img::values::{
    BitSupport, Encoding, Font, HorizontalMultiplier, KDUCountryCode, ReverseImage, Rotation,
    VerticalMultiplier,
};

const CANONICAL: [&[u8]; 20] = [
    b"A79,216,0,4,2,2,N,\"USPS\"\n",
    b"A0,0,3,1,8,9,R,\"a \\\"quoted\\\" \\\\ word\\n\\r\\t\\b\\f/\"\n",
    b"B10,20,1,1A,2,6,50,B,\"0123\"\n",
    b"B10,20,2,1,2,30,50,N,\"\"\n",
    b"b1,2,P,300,400,5,0,7,8,9,1,2,12,30,10,1,3,5,a\n,\"b",
    b"b1,2,P,300,400,5,0,7,8,9,0,2,12,30,10,0,0,0,",
    b"D7\n",
    b"GW5,6,2,3,\n,\x00\xFF,\n",
    b"GW0,0,0,0,",
    b"I8,A,001\n",
    b"I8,13,358\n",
    b"LO10,20,300,4\n",
    b"N\n",
    b"P3,1\n",
    b"q416\n",
    b"Q1218,24,0\n",
    b"S4\n",
    b"U\n",
    b"WY\n",
    b"X1,2,3,400,2147483647\n",
];

#[test]
fn canonical_text_is_reproduced_byte_for_byte() {
    for input in CANONICAL {
        let mut cursor = ByteCursor::new(input);
        let command = dispatch(&mut cursor).unwrap();
        assert_eq!(cursor.position(), input.len());
        assert_eq!(command.to_text(), input.to_vec());
    }
}

#[test]
fn canonical_text_is_read_back_as_the_same_command() {
    for input in CANONICAL {
        let mut cursor = ByteCursor::new(input);
        let command = dispatch(&mut cursor).unwrap();
        let text = command.to_text();
        let mut again = ByteCursor::new(&text);
        assert_eq!(dispatch(&mut again), Ok(command));
        assert_eq!(again.position(), text.len());
    }
}

#[test]
fn text_is_normalized_where_the_grammar_allows_more() {
    let cases: [(&[u8], &[u8]); 7] = [
        (b"P3\n", b"P3,1\n"),
        (b"P3", b"P3,1\n"),
        (b"D007\n", b"D7\n"),
        (b"I08,00,1\n", b"I8,0,001\n"),
        (b"A079,0216,00,04,02,02,N,\"US\\/PS\"", b"A79,216,0,4,2,2,N,\"US/PS\"\n"),
        (b"ZB", b"ZB\n"),
        (b"N", b"N\n"),
    ];
    for (input, canonical) in cases {
        let mut cursor = ByteCursor::new(input);
        let command = dispatch(&mut cursor).unwrap();
        assert_eq!(cursor.position(), input.len());
        assert_eq!(command.to_text(), canonical.to_vec());
    }
}

#[test]
fn a_stream_of_canonical_texts_is_decoded_in_order() {
    let mut stream: Vec<u8> = Vec::new();
    let mut starts: Vec<usize> = Vec::new();
    for input in CANONICAL {
        starts.push(stream.len());
        stream.extend_from_slice(input);
    }
    let entries = decode(&stream);
    assert_eq!(entries.len(), CANONICAL.len());
    let mut written: Vec<u8> = Vec::new();
    for (index, entry) in entries.iter().enumerate() {
        assert_eq!(entry.position, starts[index]);
        let command: &Command = entry.outcome.as_ref().unwrap();
        assert_eq!(command.to_text(), CANONICAL[index].to_vec());
        written.extend_from_slice(&command.to_text());
    }
    assert_eq!(written, stream);
}

#[test]
fn write_number_writes_decimal_digits() {
    let mut out = b"x".to_vec();
    write_number(&mut out, 0);
    write_byte(&mut out, b',');
    write_number(&mut out, 9);
    write_byte(&mut out, b',');
    write_number(&mut out, 10);
    write_byte(&mut out, b',');
    write_number(&mut out, 2147483647);
    assert_eq!(out, b"x0,9,10,2147483647".to_vec());
}

#[test]
fn write_quoted_escapes_what_the_grammar_needs() {
    let mut out = Vec::new();
    write_quoted(&mut out, &b"a\"b\\c/d\x08\x0C\n\r\te,f".to_vec());
    assert_eq!(out, b"\"a\\\"b\\\\c/d\\b\\f\\n\\r\\te,f\"".to_vec());
    let mut empty = Vec::new();
    write_quoted(&mut empty, &Vec::new());
    assert_eq!(empty, b"\"\"".to_vec());
}

#[test]
fn write_block_copies_the_bytes() {
    let mut out = b"GW".to_vec();
    write_block(&mut out, &vec![0x0A, 0x2C, 0xFF]);
    assert_eq!(out, vec![b'G', b'W', 0x0A, 0x2C, 0xFF]);
}

#[test]
fn a_record_made_from_its_fields_is_written_and_read_back() {
    let text = AsciiText::new(
        79,
        216,
        Rotation::Degrees180,
        Font::Size5,
        HorizontalMultiplier::new(8).unwrap(),
        VerticalMultiplier::new(9).unwrap(),
        ReverseImage::R,
        b"say \"hi\"\n".to_vec(),
    )
    .unwrap();
    let written = text.to_text();
    assert_eq!(written, b"A79,216,2,5,8,9,R,\"say \\\"hi\\\"\\n\"\n".to_vec());
    let mut cursor = ByteCursor::new(&written);
    assert_eq!(parse_ascii_text(&mut cursor), Ok(text));
    assert_eq!(cursor.position(), written.len());
}

#[test]
fn a_graphic_is_written_with_its_payload_verbatim() {
    let graphics = Graphics::new(1, 2, 2, 2, vec![0x0A, 0x2C, 0x22, 0x5C]).unwrap();
    let written = graphics.to_text();
    assert_eq!(written, b"GW1,2,2,2,\n,\"\\".to_vec());
    let mut cursor = ByteCursor::new(&written);
    assert_eq!(parse_graphics(&mut cursor), Ok(graphics));
}

#[test]
fn a_country_code_is_written_with_three_digits() {
    let selection = CharacterSetSelection::new(
        BitSupport::Bit8,
        Encoding::DOS850,
        KDUCountryCode::SAfrica,
    );
    assert_eq!(selection.to_text(), b"I8,1,027\n".to_vec());
    let windows = CharacterSetSelection::new(
        BitSupport::Bit8,
        Encoding::Windows1255,
        KDUCountryCode::Finland,
    );
    assert_eq!(windows.to_text(), b"I8,F,358\n".to_vec());
}

#[test]
fn single_letter_commands_are_written_with_their_line() {
    assert_eq!(Command::ClearImageBuffer.to_text(), b"N\n".to_vec());
    assert_eq!(Command::PrintConfiguration.to_text(), b"U\n".to_vec());
    assert_eq!(Command::WindowsMode(WindowsMode::new(false)).to_text(), b"WN\n".to_vec());
    assert_eq!(
        Command::PrintDirection(PrintDirection::new('B').unwrap()).to_text(),
        b"ZB\n".to_vec()
    );
    assert_eq!(Command::Print(Print::new(65535, 2).unwrap()).to_text(), b"P65535,2\n".to_vec());
    assert_eq!(
        Command::SetFormLength(SetFormLength::new(65535, 0, 7)).to_text(),
        b"Q65535,0,7\n".to_vec()
    );
    assert_eq!(Command::SpeedSelect(SpeedSelect::new(255)).to_text(), b"S255\n".to_vec());
}
