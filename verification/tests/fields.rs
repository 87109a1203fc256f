use epl2img::cursor::ByteCursor;
use epl2img::error::{DecodeError, ErrorKind, Field};
use epl2img::fields::{
    parse_bar_code_2d_selection, parse_bar_code_selection, parse_bit_support, parse_choice,
    parse_country_code, parse_encoding, parse_font, parse_h_mult, parse_orientation,
    parse_ranged, parse_reverse, parse_rotation, parse_switch, parse_v_mult,
};
use epl2img::values::{
    BarCode2DSelection, BarCodeStandardSelection, BitSupport, Encoding, Font,
    HorizontalMultiplier, KDUCountryCode, ReverseImage, Rotation, VerticalMultiplier,
};

fn out_of_domain(field: Field, value: i32, position: usize) -> DecodeError {
    DecodeError { kind: ErrorKind::OutOfDomain(field, value), position }
}

#[test]
fn horizontal_multiplier_accepts_exactly_its_domain() {
    for m in [1, 2, 3, 4, 5, 6, 8] {
        assert_eq!(HorizontalMultiplier::new(m).unwrap().multiplier(), m);
    }
    for m in [0, 7, 9, -1] {
        assert_eq!(
            HorizontalMultiplier::new(m),
            Err(ErrorKind::OutOfDomain(Field::HorizontalMultiplier, m))
        );
    }
    for m in -300..300 {
        let inside = (1..=6).contains(&m) || m == 8;
        assert_eq!(HorizontalMultiplier::new(m).is_ok(), inside);
    }
    assert!(HorizontalMultiplier::new(i32::MAX).is_err());
    assert!(HorizontalMultiplier::new(i32::MIN).is_err());
}

#[test]
fn vertical_multiplier_accepts_exactly_its_domain() {
    for m in 1..=9 {
        assert_eq!(VerticalMultiplier::new(m).unwrap().multiplier(), m);
    }
    for m in [0, 10] {
        assert_eq!(
            VerticalMultiplier::new(m),
            Err(ErrorKind::OutOfDomain(Field::VerticalMultiplier, m))
        );
    }
    for m in -300..300 {
        assert_eq!(VerticalMultiplier::new(m).is_ok(), (1..=9).contains(&m));
    }
}

#[test]
fn rotation_maps_the_codes_0_to_3() {
    assert_eq!(Rotation::from_code(0), Ok(Rotation::NoRotation));
    assert_eq!(Rotation::from_code(1), Ok(Rotation::Degrees90));
    assert_eq!(Rotation::from_code(2), Ok(Rotation::Degrees180));
    assert_eq!(Rotation::from_code(3), Ok(Rotation::Degrees270));
    assert_eq!(Rotation::from_code(4), Err(ErrorKind::OutOfDomain(Field::Rotation, 4)));
    assert_eq!(Rotation::from_code(-1), Err(ErrorKind::OutOfDomain(Field::Rotation, -1)));
    for code in 0..4 {
        assert_eq!(Rotation::from_code(code).unwrap().code(), code);
    }
}

#[test]
fn font_maps_the_codes_1_to_5() {
    assert_eq!(Font::from_code(1), Ok(Font::Size1));
    assert_eq!(Font::from_code(2), Ok(Font::Size2));
    assert_eq!(Font::from_code(3), Ok(Font::Size3));
    assert_eq!(Font::from_code(4), Ok(Font::Size4));
    assert_eq!(Font::from_code(5), Ok(Font::Size5));
    assert_eq!(Font::from_code(0), Err(ErrorKind::OutOfDomain(Field::Font, 0)));
    assert_eq!(Font::from_code(6), Err(ErrorKind::OutOfDomain(Field::Font, 6)));
    for code in 1..6 {
        assert_eq!(Font::from_code(code).unwrap().code(), code);
    }
}

#[test]
fn reverse_image_tells_n_from_r() {
    assert_eq!(ReverseImage::from_letter(b'N'), Ok(ReverseImage::N));
    assert_eq!(ReverseImage::from_letter(b'R'), Ok(ReverseImage::R));
    assert_ne!(ReverseImage::from_letter(b'R'), ReverseImage::from_letter(b'N'));
    assert_eq!(
        ReverseImage::from_letter(b'n'),
        Err(ErrorKind::OutOfDomain(Field::ReverseImage, 110))
    );
    assert_eq!(ReverseImage::N.letter(), b'N');
    assert_eq!(ReverseImage::R.letter(), b'R');
}

#[test]
fn encoding_maps_numbers_and_letters() {
    assert_eq!(Encoding::from_code(0), Ok(Encoding::DOS437));
    assert_eq!(Encoding::from_code(13), Ok(Encoding::DOS869));
    assert_eq!(Encoding::from_code(14), Err(ErrorKind::OutOfDomain(Field::Encoding, 14)));
    assert_eq!(Encoding::from_letter(b'A'), Ok(Encoding::Windows1252));
    assert_eq!(Encoding::from_letter(b'F'), Ok(Encoding::Windows1255));
    assert_eq!(Encoding::from_letter(b'G'), Err(ErrorKind::OutOfDomain(Field::Encoding, 71)));
    assert_eq!(Encoding::DOS866.code(), Some(10));
    assert_eq!(Encoding::DOS866.letter(), None);
    assert_eq!(Encoding::Windows1251.code(), None);
    assert_eq!(Encoding::Windows1251.letter(), Some(b'C'));
}

#[test]
fn country_code_maps_the_listed_numbers() {
    let listed = [
        (1, KDUCountryCode::USA),
        (2, KDUCountryCode::Canada),
        (3, KDUCountryCode::LatinAm),
        (27, KDUCountryCode::SAfrica),
        (31, KDUCountryCode::Netherlands),
        (32, KDUCountryCode::Belgium),
        (33, KDUCountryCode::France),
        (34, KDUCountryCode::Spain),
        (39, KDUCountryCode::Italy),
        (41, KDUCountryCode::Swizerland),
        (44, KDUCountryCode::UK),
        (45, KDUCountryCode::Denmark),
        (46, KDUCountryCode::Sweden),
        (47, KDUCountryCode::Norway),
        (49, KDUCountryCode::Germany),
        (351, KDUCountryCode::Portugal),
        (358, KDUCountryCode::Finland),
    ];
    for (code, country) in listed {
        assert_eq!(KDUCountryCode::from_code(code), Ok(country));
        assert_eq!(country.code(), code);
    }
    let accepted = (0..1000).filter(|code| KDUCountryCode::from_code(*code).is_ok()).count();
    assert_eq!(accepted, 17);
    assert_eq!(
        KDUCountryCode::from_code(4),
        Err(ErrorKind::OutOfDomain(Field::CountryCode, 4))
    );
}

#[test]
fn field_names_are_spelled_out() {
    assert_eq!(Field::Rotation.name(), "Rotation");
    assert_eq!(Field::Font.name(), "Font");
    assert_eq!(Field::HorizontalMultiplier.name(), "HorizontalMultiplier");
    assert_eq!(Field::VerticalMultiplier.name(), "VerticalMultiplier");
    assert_eq!(Field::ReverseImage.name(), "ReverseImage");
    assert_eq!(Field::WideBarWidth.name(), "WideBarWidth");
    assert_eq!(Field::CountryCode.name(), "CountryCode");
    assert_eq!(Field::Orientation.name(), "Orientation");
}

#[test]
fn parse_rotation_reads_and_validates() {
    let mut cursor = ByteCursor::new(b"3,");
    assert_eq!(parse_rotation(&mut cursor), Ok(Rotation::Degrees270));
    assert_eq!(cursor.position(), 1);
    let mut outside = ByteCursor::new(b"A,4,");
    assert_eq!(outside.advance(2), Ok(()));
    assert_eq!(parse_rotation(&mut outside), Err(out_of_domain(Field::Rotation, 4, 2)));
    assert_eq!(outside.position(), 2);
    let mut none = ByteCursor::new(b"N");
    assert_eq!(
        parse_rotation(&mut none),
        Err(DecodeError { kind: ErrorKind::NotANumber, position: 0 })
    );
}

#[test]
fn parse_font_reads_and_validates() {
    let mut cursor = ByteCursor::new(b"4,");
    assert_eq!(parse_font(&mut cursor), Ok(Font::Size4));
    let mut outside = ByteCursor::new(b"6,");
    assert_eq!(parse_font(&mut outside), Err(out_of_domain(Field::Font, 6, 0)));
    assert_eq!(outside.position(), 0);
    let mut padded = ByteCursor::new(b"005");
    assert_eq!(parse_font(&mut padded), Ok(Font::Size5));
    assert_eq!(padded.position(), 3);
}

#[test]
fn parse_h_mult_reads_and_validates() {
    let mut cursor = ByteCursor::new(b"8,");
    assert_eq!(parse_h_mult(&mut cursor).unwrap().multiplier(), 8);
    assert_eq!(cursor.position(), 1);
    let mut seven = ByteCursor::new(b"7,");
    assert_eq!(
        parse_h_mult(&mut seven),
        Err(out_of_domain(Field::HorizontalMultiplier, 7, 0))
    );
    let mut long = ByteCursor::new(b"12,");
    assert_eq!(
        parse_h_mult(&mut long),
        Err(out_of_domain(Field::HorizontalMultiplier, 12, 0))
    );
    assert_eq!(long.position(), 0);
}

#[test]
fn parse_v_mult_reads_and_validates() {
    let mut cursor = ByteCursor::new(b"9,");
    assert_eq!(parse_v_mult(&mut cursor).unwrap().multiplier(), 9);
    let mut ten = ByteCursor::new(b"10,");
    assert_eq!(parse_v_mult(&mut ten), Err(out_of_domain(Field::VerticalMultiplier, 10, 0)));
    let mut zero = ByteCursor::new(b"0,");
    assert_eq!(parse_v_mult(&mut zero), Err(out_of_domain(Field::VerticalMultiplier, 0, 0)));
}

#[test]
fn parse_reverse_reads_and_validates() {
    let mut normal = ByteCursor::new(b"N,");
    assert_eq!(parse_reverse(&mut normal), Ok(ReverseImage::N));
    assert_eq!(normal.position(), 1);
    let mut reverse = ByteCursor::new(b"R,");
    assert_eq!(parse_reverse(&mut reverse), Ok(ReverseImage::R));
    let mut other = ByteCursor::new(b"X,");
    assert_eq!(parse_reverse(&mut other), Err(out_of_domain(Field::ReverseImage, 88, 0)));
    assert_eq!(other.position(), 0);
    let mut end = ByteCursor::new(b"");
    assert_eq!(
        parse_reverse(&mut end),
        Err(DecodeError { kind: ErrorKind::UnexpectedEnd, position: 0 })
    );
}

#[test]
fn parse_ranged_keeps_to_its_bounds() {
    let mut low = ByteCursor::new(b"2,");
    assert_eq!(parse_ranged(&mut low, 2, 30, Field::WideBarWidth), Ok(2));
    let mut high = ByteCursor::new(b"30,");
    assert_eq!(parse_ranged(&mut high, 2, 30, Field::WideBarWidth), Ok(30));
    assert_eq!(high.position(), 2);
    let mut under = ByteCursor::new(b"1,");
    assert_eq!(
        parse_ranged(&mut under, 2, 30, Field::WideBarWidth),
        Err(out_of_domain(Field::WideBarWidth, 1, 0))
    );
    let mut over = ByteCursor::new(b"31,");
    assert_eq!(
        parse_ranged(&mut over, 2, 30, Field::WideBarWidth),
        Err(out_of_domain(Field::WideBarWidth, 31, 0))
    );
    assert_eq!(over.position(), 0);
}

#[test]
fn parse_choice_maps_two_letters() {
    let mut yes = ByteCursor::new(b"Y");
    assert_eq!(parse_choice(&mut yes, b'Y', b'N', Field::WindowsMode), Ok(true));
    let mut no = ByteCursor::new(b"N");
    assert_eq!(parse_choice(&mut no, b'Y', b'N', Field::WindowsMode), Ok(false));
    let mut other = ByteCursor::new(b"y");
    assert_eq!(
        parse_choice(&mut other, b'Y', b'N', Field::WindowsMode),
        Err(out_of_domain(Field::WindowsMode, 121, 0))
    );
}

#[test]
fn parse_switch_maps_one_and_zero() {
    let mut on = ByteCursor::new(b"1,");
    assert_eq!(parse_switch(&mut on, Field::Truncated), Ok(true));
    let mut off = ByteCursor::new(b"0,");
    assert_eq!(parse_switch(&mut off, Field::Truncated), Ok(false));
    let mut other = ByteCursor::new(b"2,");
    assert_eq!(
        parse_switch(&mut other, Field::Truncated),
        Err(out_of_domain(Field::Truncated, 2, 0))
    );
}

#[test]
fn parse_bar_code_selection_reads_the_mode() {
    let mut auto = ByteCursor::new(b"1,");
    assert_eq!(parse_bar_code_selection(&mut auto), Ok(BarCodeStandardSelection::Code128Auto));
    assert_eq!(auto.position(), 1);
    let mut a = ByteCursor::new(b"1A,");
    assert_eq!(parse_bar_code_selection(&mut a), Ok(BarCodeStandardSelection::Code128A));
    assert_eq!(a.position(), 2);
    let mut b = ByteCursor::new(b"1B,");
    assert_eq!(parse_bar_code_selection(&mut b), Ok(BarCodeStandardSelection::Code128B));
    let mut c = ByteCursor::new(b"1C");
    assert_eq!(parse_bar_code_selection(&mut c), Ok(BarCodeStandardSelection::Code128C));
    assert_eq!(c.position(), 2);
    let mut other = ByteCursor::new(b"3,");
    assert_eq!(
        parse_bar_code_selection(&mut other),
        Err(out_of_domain(Field::BarCodeSelection, 51, 0))
    );
    let mut end = ByteCursor::new(b"1");
    assert_eq!(parse_bar_code_selection(&mut end), Ok(BarCodeStandardSelection::Code128Auto));
}

#[test]
fn parse_bar_code_2d_selection_knows_pdf417() {
    let mut cursor = ByteCursor::new(b"P,");
    assert_eq!(parse_bar_code_2d_selection(&mut cursor), Ok(BarCode2DSelection::PDF417));
    let mut other = ByteCursor::new(b"M,");
    assert_eq!(
        parse_bar_code_2d_selection(&mut other),
        Err(out_of_domain(Field::BarCode2DSelection, 77, 0))
    );
}

#[test]
fn parse_bit_support_knows_eight_bits() {
    let mut cursor = ByteCursor::new(b"8,");
    assert_eq!(parse_bit_support(&mut cursor), Ok(BitSupport::Bit8));
    let mut seven = ByteCursor::new(b"7,");
    assert_eq!(parse_bit_support(&mut seven), Err(out_of_domain(Field::BitSupport, 7, 0)));
}

#[test]
fn parse_encoding_reads_a_number_or_a_letter() {
    let mut dos = ByteCursor::new(b"10,");
    assert_eq!(parse_encoding(&mut dos), Ok(Encoding::DOS866));
    assert_eq!(dos.position(), 2);
    let mut windows = ByteCursor::new(b"B,");
    assert_eq!(parse_encoding(&mut windows), Ok(Encoding::Windows1250));
    assert_eq!(windows.position(), 1);
    let mut number = ByteCursor::new(b"14,");
    assert_eq!(parse_encoding(&mut number), Err(out_of_domain(Field::Encoding, 14, 0)));
    let mut letter = ByteCursor::new(b"Z,");
    assert_eq!(parse_encoding(&mut letter), Err(out_of_domain(Field::Encoding, 90, 0)));
    let mut end = ByteCursor::new(b"");
    assert_eq!(
        parse_encoding(&mut end),
        Err(DecodeError { kind: ErrorKind::UnexpectedEnd, position: 0 })
    );
}

#[test]
fn parse_country_code_reads_three_digits() {
    let mut usa = ByteCursor::new(b"001");
    assert_eq!(parse_country_code(&mut usa), Ok(KDUCountryCode::USA));
    assert_eq!(usa.position(), 3);
    let mut finland = ByteCursor::new(b"358\n");
    assert_eq!(parse_country_code(&mut finland), Ok(KDUCountryCode::Finland));
    let mut unknown = ByteCursor::new(b"999");
    assert_eq!(parse_country_code(&mut unknown), Err(out_of_domain(Field::CountryCode, 999, 0)));
}

#[test]
fn parse_orientation_reads_t_or_b() {
    let mut top = ByteCursor::new(b"T");
    assert_eq!(parse_orientation(&mut top), Ok('T'));
    let mut bottom = ByteCursor::new(b"B");
    assert_eq!(parse_orientation(&mut bottom), Ok('B'));
    let mut other = ByteCursor::new(b"L");
    assert_eq!(parse_orientation(&mut other), Err(out_of_domain(Field::Orientation, 76, 0)));
}
