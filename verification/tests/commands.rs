use epl2img::commands::{
    AsciiText, BarCode2D, BoxDraw, Command, Density, Graphics, Print, PrintDirection,
};
use epl2img::cursor::ByteCursor;
use epl2img::dispatch::dispatch;
use epl2img::error::{DecodeError, ErrorKind, Field};
use epl2img::grammar::{
    parse_bar_code_2d, parse_bar_code_standard, parse_box_draw, parse_character_set_selection,
    parse_clear_image_buffer, parse_density, parse_graphics, parse_line_draw, parse_print,
    parse_print_configuration, parse_print_direction, parse_set_form_length,
    parse_set_form_width, parse_speed_select, parse_windows_mode, tag, tag_pair,
};
use epl2img::values::{
    BarCode2DSelection, BarCodeStandardSelection, BitSupport, Encoding, Font,
    HorizontalMultiplier, KDUCountryCode, ReverseImage, Rotation, VerticalMultiplier,
};

fn error(kind: ErrorKind, position: usize) -> DecodeError {
    DecodeError { kind, position }
}

#[test]
fn tag_consumes_the_command_letter() {
    let mut cursor = ByteCursor::new(b"N\n");
    assert_eq!(tag(&mut cursor, b'N'), Ok(()));
    assert_eq!(cursor.position(), 1);
    let mut other = ByteCursor::new(b"K1");
    assert_eq!(tag(&mut other, b'N'), Err(error(ErrorKind::UnknownCommand(b'K'), 0)));
    assert_eq!(other.position(), 0);
    let mut end = ByteCursor::new(b"");
    assert_eq!(tag(&mut end, b'N'), Err(error(ErrorKind::UnexpectedEnd, 0)));
}

#[test]
fn tag_pair_needs_the_supported_subform() {
    let mut cursor = ByteCursor::new(b"GW1");
    assert_eq!(tag_pair(&mut cursor, b'G', b'W'), Ok(()));
    assert_eq!(cursor.position(), 2);
    let mut other = ByteCursor::new(b"GK1");
    assert_eq!(tag_pair(&mut other, b'G', b'W'), Err(error(ErrorKind::UnknownCommand(b'G'), 0)));
    assert_eq!(other.position(), 0);
    let mut short = ByteCursor::new(b"G");
    assert_eq!(tag_pair(&mut short, b'G', b'W'), Err(error(ErrorKind::UnknownCommand(b'G'), 0)));
}

#[test]
fn bar_code_standard_is_decoded_field_by_field() {
    let input = b"B10,20,1,1A,2,6,50,B,\"0123\"\n";
    let mut cursor = ByteCursor::new(input);
    let code = parse_bar_code_standard(&mut cursor).unwrap();
    assert_eq!(code.h_start(), 10);
    assert_eq!(code.v_start(), 20);
    assert_eq!(code.rotation(), Rotation::Degrees90);
    assert_eq!(code.bar_code(), BarCodeStandardSelection::Code128A);
    assert_eq!(code.narrow_width(), 2);
    assert_eq!(code.wide_width(), 6);
    assert_eq!(code.bar_code_height(), 50);
    assert!(code.print_human_readable());
    assert_eq!(code.data().as_slice(), b"0123");
    assert_eq!(cursor.position(), input.len());
}

#[test]
fn bar_code_standard_checks_the_wide_bar_width() {
    let mut cursor = ByteCursor::new(b"B10,20,1,1,2,31,50,N,\"0123\"\n");
    assert_eq!(
        parse_bar_code_standard(&mut cursor),
        Err(error(ErrorKind::OutOfDomain(Field::WideBarWidth, 31), 13))
    );
    assert_eq!(cursor.position(), 0);
    let mut readable = ByteCursor::new(b"B10,20,1,1,2,3,50,X,\"0123\"\n");
    assert_eq!(
        parse_bar_code_standard(&mut readable),
        Err(error(ErrorKind::OutOfDomain(Field::PrintHumanReadable, 88), 18))
    );
}

#[test]
fn bar_code_2d_reads_its_payload_by_length() {
    let input = b"b1,2,P,300,400,5,0,7,8,9,1,2,12,30,10,1,3,5,a\n,\"bN\n";
    let mut cursor = ByteCursor::new(input);
    let code = parse_bar_code_2d(&mut cursor).unwrap();
    assert_eq!(code.h_start(), 1);
    assert_eq!(code.v_start(), 2);
    assert_eq!(code.bar_code(), BarCode2DSelection::PDF417);
    assert_eq!(code.max_width(), 300);
    assert_eq!(code.max_height(), 400);
    assert_eq!(code.error_correction(), 5);
    assert_eq!(code.data_compression(), 0);
    assert_eq!(code.readable_h_start(), 7);
    assert_eq!(code.readable_v_start(), 8);
    assert_eq!(code.readable_max_chars(), 9);
    assert_eq!(code.origin_point(), 1);
    assert_eq!(code.module_width(), 2);
    assert_eq!(code.bar_height(), 12);
    assert_eq!(code.max_rows(), 30);
    assert_eq!(code.max_cols(), 10);
    assert!(code.truncated());
    assert_eq!(code.rotation(), Rotation::Degrees270);
    assert_eq!(code.data().as_slice(), b"a\n,\"b");
    assert_eq!(cursor.position(), input.len() - 2);
}

#[test]
fn bar_code_2d_checks_its_domains() {
    let mut origin = ByteCursor::new(b"b1,2,P,300,400,5,0,7,8,9,2,2,12,30,10,1,3,0,");
    assert_eq!(
        parse_bar_code_2d(&mut origin),
        Err(error(ErrorKind::OutOfDomain(Field::OriginPoint, 2), 25))
    );
    let mut truncated = ByteCursor::new(b"b1,2,P,300,400,5,0,7,8,9,0,2,12,30,10,5,3,0,");
    assert_eq!(
        parse_bar_code_2d(&mut truncated),
        Err(error(ErrorKind::OutOfDomain(Field::Truncated, 5), 38))
    );
    let mut short = ByteCursor::new(b"b1,2,P,300,400,5,0,7,8,9,0,2,12,30,10,0,3,4,abc");
    assert_eq!(parse_bar_code_2d(&mut short), Err(error(ErrorKind::UnexpectedEnd, 44)));
    assert_eq!(short.position(), 0);
}

#[test]
fn density_is_limited_to_0_to_15() {
    let mut cursor = ByteCursor::new(b"D15\n");
    assert_eq!(parse_density(&mut cursor).unwrap().setting(), 15);
    assert_eq!(cursor.position(), 4);
    let mut over = ByteCursor::new(b"D16\n");
    assert_eq!(
        parse_density(&mut over),
        Err(error(ErrorKind::OutOfDomain(Field::Density, 16), 1))
    );
    assert_eq!(Density::new(16), None);
    assert_eq!(Density::new(-1), None);
    assert_eq!(Density::new(0).unwrap().setting(), 0);
}

#[test]
fn graphics_consumes_width_times_length_raw_bytes() {
    let input = b"GW5,6,2,3,\n,\x00\xFF,\nN\n";
    let mut cursor = ByteCursor::new(input);
    let graphics = parse_graphics(&mut cursor).unwrap();
    assert_eq!(graphics.h_start(), 5);
    assert_eq!(graphics.v_start(), 6);
    assert_eq!(graphics.graphic_width(), 2);
    assert_eq!(graphics.graphic_length(), 3);
    assert_eq!(graphics.data().as_slice(), &[0x0A, 0x2C, 0x00, 0xFF, 0x2C, 0x0A]);
    assert_eq!(cursor.position(), 16);
    assert_eq!(cursor.remaining(), 2);
}

#[test]
fn graphics_of_any_six_bytes() {
    for fill in [0x00u8, 0x0A, 0x2C, 0x22, 0x5C, 0x30, 0xFF] {
        let mut input = b"GW0,0,2,3,".to_vec();
        input.extend_from_slice(&[fill; 6]);
        input.extend_from_slice(b"tail");
        let mut cursor = ByteCursor::new(&input);
        let graphics = parse_graphics(&mut cursor).unwrap();
        assert_eq!(graphics.data().as_slice(), &[fill; 6]);
        assert_eq!(cursor.position(), 16);
    }
}

#[test]
fn graphics_without_enough_bytes_fails_at_the_block() {
    let mut cursor = ByteCursor::new(b"GW5,6,2,3,abcde");
    assert_eq!(parse_graphics(&mut cursor), Err(error(ErrorKind::UnexpectedEnd, 10)));
    assert_eq!(cursor.position(), 0);
    let mut huge = ByteCursor::new(b"GW5,6,2147483647,2147483647,abcde");
    assert_eq!(parse_graphics(&mut huge), Err(error(ErrorKind::UnexpectedEnd, 28)));
}

#[test]
fn graphics_may_be_empty() {
    let mut cursor = ByteCursor::new(b"GW5,6,0,3,N\n");
    let graphics = parse_graphics(&mut cursor).unwrap();
    assert_eq!(graphics.data().len(), 0);
    assert_eq!(cursor.position(), 10);
}

#[test]
fn graphics_record_needs_a_payload_of_the_declared_length() {
    assert!(Graphics::new(0, 0, 2, 3, vec![0; 6]).is_some());
    assert!(Graphics::new(0, 0, 2, 3, vec![0; 5]).is_none());
    assert!(Graphics::new(0, 0, 2, 3, vec![0; 7]).is_none());
    assert!(Graphics::new(-1, 0, 2, 3, vec![0; 6]).is_none());
    assert_eq!(Graphics::payload_length(2, 3), 6);
    assert_eq!(Graphics::payload_length(2147483647, 2147483647), 4611686014132420609);
}

#[test]
fn character_set_selection_is_decoded() {
    let mut cursor = ByteCursor::new(b"I8,A,001\n");
    let selection = parse_character_set_selection(&mut cursor).unwrap();
    assert_eq!(selection.number_of_bits(), BitSupport::Bit8);
    assert_eq!(selection.language_support(), Encoding::Windows1252);
    assert_eq!(selection.country_code(), KDUCountryCode::USA);
    assert_eq!(cursor.position(), 9);
    let mut dos = ByteCursor::new(b"I8,13,049");
    let selection = parse_character_set_selection(&mut dos).unwrap();
    assert_eq!(selection.language_support(), Encoding::DOS869);
    assert_eq!(selection.country_code(), KDUCountryCode::Germany);
    let mut seven = ByteCursor::new(b"I7,0,001\n");
    assert_eq!(
        parse_character_set_selection(&mut seven),
        Err(error(ErrorKind::OutOfDomain(Field::BitSupport, 7), 1))
    );
}

#[test]
fn line_draw_is_decoded() {
    let mut cursor = ByteCursor::new(b"LO10,20,300,4\n");
    let line = parse_line_draw(&mut cursor).unwrap();
    assert_eq!(line.h_start(), 10);
    assert_eq!(line.v_start(), 20);
    assert_eq!(line.h_length(), 300);
    assert_eq!(line.v_length(), 4);
    let mut white = ByteCursor::new(b"LW10,20,300,4\n");
    assert_eq!(parse_line_draw(&mut white), Err(error(ErrorKind::UnknownCommand(b'L'), 0)));
}

#[test]
fn clear_image_buffer_is_a_single_letter() {
    let mut cursor = ByteCursor::new(b"N\n");
    assert!(parse_clear_image_buffer(&mut cursor).is_ok());
    assert_eq!(cursor.position(), 2);
    let mut end = ByteCursor::new(b"N");
    assert!(parse_clear_image_buffer(&mut end).is_ok());
    assert_eq!(end.position(), 1);
    let mut more = ByteCursor::new(b"N1\n");
    assert_eq!(
        parse_clear_image_buffer(&mut more),
        Err(error(ErrorKind::ExpectedSeparator, 1))
    );
}

#[test]
fn print_without_copies_asks_for_one() {
    let mut cursor = ByteCursor::new(b"P3\n");
    let print = parse_print(&mut cursor).unwrap();
    assert_eq!(print.nmbr_of_sets(), 3);
    assert_eq!(print.nmbr_of_copies(), 1);
    assert_eq!(cursor.position(), 3);
}

#[test]
fn print_with_copies() {
    let mut cursor = ByteCursor::new(b"P3,20\n");
    let print = parse_print(&mut cursor).unwrap();
    assert_eq!(print.nmbr_of_sets(), 3);
    assert_eq!(print.nmbr_of_copies(), 20);
    assert_eq!(cursor.position(), 6);
}

#[test]
fn print_counts_are_limited_to_1_to_65535() {
    let mut zero = ByteCursor::new(b"P0\n");
    assert_eq!(parse_print(&mut zero), Err(error(ErrorKind::OutOfDomain(Field::Sets, 0), 1)));
    let mut many = ByteCursor::new(b"P65536\n");
    assert_eq!(parse_print(&mut many), Err(error(ErrorKind::OutOfDomain(Field::Sets, 65536), 1)));
    let mut copies = ByteCursor::new(b"P65535,0\n");
    assert_eq!(parse_print(&mut copies), Err(error(ErrorKind::OutOfDomain(Field::Copies, 0), 7)));
    let mut most = ByteCursor::new(b"P65535,65535\n");
    assert_eq!(parse_print(&mut most).unwrap().nmbr_of_copies(), 65535);
    let mut dangling = ByteCursor::new(b"P3,\n");
    assert_eq!(parse_print(&mut dangling), Err(error(ErrorKind::NotANumber, 3)));
    assert!(Print::new(1, 65536).is_none());
    assert!(Print::new(1, 1).is_some());
}

#[test]
fn set_form_width_is_decoded() {
    let mut cursor = ByteCursor::new(b"q416\n");
    assert_eq!(parse_set_form_width(&mut cursor).unwrap().label_width(), 416);
}

#[test]
fn set_form_length_is_decoded() {
    let mut cursor = ByteCursor::new(b"Q1218,24,0\n");
    let length = parse_set_form_length(&mut cursor).unwrap();
    assert_eq!(length.label_length(), 1218);
    assert_eq!(length.gap_length(), 24);
    assert_eq!(length.offset_length(), 0);
    let mut over = ByteCursor::new(b"Q1218,65536,0\n");
    assert_eq!(
        parse_set_form_length(&mut over),
        Err(error(ErrorKind::OutOfDomain(Field::GapLength, 65536), 6))
    );
    let mut two = ByteCursor::new(b"Q1218,24\n");
    assert_eq!(parse_set_form_length(&mut two), Err(error(ErrorKind::ExpectedSeparator, 8)));
}

#[test]
fn speed_select_is_decoded() {
    let mut cursor = ByteCursor::new(b"S4\n");
    assert_eq!(parse_speed_select(&mut cursor).unwrap().speed(), 4);
    let mut over = ByteCursor::new(b"S256\n");
    assert_eq!(
        parse_speed_select(&mut over),
        Err(error(ErrorKind::OutOfDomain(Field::Speed, 256), 1))
    );
}

#[test]
fn print_configuration_is_a_single_letter() {
    let mut cursor = ByteCursor::new(b"U\n");
    assert!(parse_print_configuration(&mut cursor).is_ok());
    assert_eq!(cursor.position(), 2);
}

#[test]
fn windows_mode_is_decoded() {
    let mut yes = ByteCursor::new(b"WY\n");
    assert!(parse_windows_mode(&mut yes).unwrap().enabled());
    let mut no = ByteCursor::new(b"WN\n");
    assert!(!parse_windows_mode(&mut no).unwrap().enabled());
    let mut other = ByteCursor::new(b"WX\n");
    assert_eq!(
        parse_windows_mode(&mut other),
        Err(error(ErrorKind::OutOfDomain(Field::WindowsMode, 88), 1))
    );
}

#[test]
fn box_draw_is_decoded() {
    let mut cursor = ByteCursor::new(b"X1,2,3,400,500\n");
    let drawn = parse_box_draw(&mut cursor).unwrap();
    assert_eq!(drawn.h_start(), 1);
    assert_eq!(drawn.v_start(), 2);
    assert_eq!(drawn.line_thickness(), 3);
    assert_eq!(drawn.h_end(), 400);
    assert_eq!(drawn.v_end(), 500);
    assert_eq!(BoxDraw::new(1, 2, 3, 400, 500), Some(drawn));
    assert_eq!(BoxDraw::new(1, 2, -3, 400, 500), None);
}

#[test]
fn print_direction_is_decoded() {
    let mut top = ByteCursor::new(b"ZT\n");
    assert_eq!(parse_print_direction(&mut top).unwrap().orientation(), 'T');
    let mut bottom = ByteCursor::new(b"ZB\n");
    assert_eq!(parse_print_direction(&mut bottom).unwrap().orientation(), 'B');
    assert!(PrintDirection::new('X').is_none());
}

#[test]
fn records_are_made_only_inside_their_domains() {
    let h = HorizontalMultiplier::new(2).unwrap();
    let v = VerticalMultiplier::new(3).unwrap();
    let text = AsciiText::new(
        79,
        216,
        Rotation::NoRotation,
        Font::Size4,
        h,
        v,
        ReverseImage::R,
        b"USPS".to_vec(),
    )
    .unwrap();
    assert_eq!(text.reverse(), ReverseImage::R);
    assert_eq!(text.h_mult(), h);
    assert_eq!(text.v_mult(), v);
    assert!(AsciiText::new(
        -1,
        216,
        Rotation::NoRotation,
        Font::Size4,
        h,
        v,
        ReverseImage::N,
        Vec::new()
    )
    .is_none());
    assert!(BarCode2D::new(
        1,
        2,
        BarCode2DSelection::PDF417,
        3,
        4,
        5,
        6,
        7,
        8,
        9,
        2,
        11,
        12,
        13,
        14,
        false,
        Rotation::NoRotation,
        Vec::new()
    )
    .is_none());
}

#[test]
fn dispatch_selects_the_grammar_by_the_first_byte() {
    let inputs: [&[u8]; 16] = [
        b"A79,216,0,4,2,2,N,\"USPS\"\n",
        b"B10,20,1,1A,2,6,50,B,\"0123\"\n",
        b"b1,2,P,300,400,5,0,7,8,9,1,2,12,30,10,1,3,2,ab",
        b"D7\n",
        b"GW5,6,1,2,ab",
        b"I8,A,001\n",
        b"LO10,20,300,4\n",
        b"N\n",
        b"P3,1\n",
        b"q416\n",
        b"Q1218,24,0\n",
        b"S4\n",
        b"U\n",
        b"WY\n",
        b"X1,2,3,400,500\n",
        b"ZT\n",
    ];
    for (index, input) in inputs.iter().enumerate() {
        let mut cursor = ByteCursor::new(input);
        let command = dispatch(&mut cursor).unwrap();
        assert_eq!(cursor.position(), input.len());
        let matched = match command {
            Command::AsciiText(_) => 0,
            Command::BarCodeStandard(_) => 1,
            Command::BarCode2D(_) => 2,
            Command::Density(_) => 3,
            Command::Graphics(_) => 4,
            Command::CharacterSetSelection(_) => 5,
            Command::LineDraw(_) => 6,
            Command::ClearImageBuffer => 7,
            Command::Print(_) => 8,
            Command::SetFormWidth(_) => 9,
            Command::SetFormLength(_) => 10,
            Command::SpeedSelect(_) => 11,
            Command::PrintConfiguration => 12,
            Command::WindowsMode(_) => 13,
            Command::BoxDraw(_) => 14,
            Command::PrintDirection(_) => 15,
        };
        assert_eq!(matched, index);
    }
}

#[test]
fn dispatch_reports_an_unknown_command_where_it_stands() {
    let mut cursor = ByteCursor::new(b"N\nK12\nN\n");
    assert_eq!(cursor.advance(2), Ok(()));
    assert_eq!(dispatch(&mut cursor), Err(error(ErrorKind::UnknownCommand(b'K'), 2)));
    assert_eq!(cursor.position(), 2);
    let mut lower = ByteCursor::new(b"a1\n");
    assert_eq!(dispatch(&mut lower), Err(error(ErrorKind::UnknownCommand(b'a'), 0)));
    let mut end = ByteCursor::new(b"");
    assert_eq!(dispatch(&mut end), Err(error(ErrorKind::UnexpectedEnd, 0)));
}
