//! The value domains of command fields, and the validators that map a raw
//! number or letter into them. A value of one of these types is always inside
//! its domain: there is no other way to make one.

use vstd::prelude::*;
use crate::error::{validated, ErrorKind, Field};

verus! {

/// How far a printed object is turned, clockwise. Codes 0 to 3.
#[derive(Clone, Copy, Debug, PartialEq, Eq, Structural)]
pub enum Rotation {
    NoRotation,
    Degrees90,
    Degrees180,
    Degrees270,
}

impl Rotation {
    /// The value that the code `code` selects, if it selects one.
    pub open spec fn spec_from_code(code: int) -> Option<Rotation> {
        if code == 0 {
            Some(Rotation::NoRotation)
        } else if code == 1 {
            Some(Rotation::Degrees90)
        } else if code == 2 {
            Some(Rotation::Degrees180)
        } else if code == 3 {
            Some(Rotation::Degrees270)
        } else {
            None
        }
    }

    /// The code that selects this value.
    pub open spec fn spec_code(self) -> int {
        match self {
            Rotation::NoRotation => 0,
            Rotation::Degrees90 => 1,
            Rotation::Degrees180 => 2,
            Rotation::Degrees270 => 3,
        }
    }

    /// Maps a raw code into the domain, or rejects it.
    pub fn from_code(code: i32) -> (r: Result<Rotation, ErrorKind>)
        ensures
            r == validated(Self::spec_from_code(code as int), Field::Rotation, code),
    {
        if code == 0 {
            Ok(Rotation::NoRotation)
        } else if code == 1 {
            Ok(Rotation::Degrees90)
        } else if code == 2 {
            Ok(Rotation::Degrees180)
        } else if code == 3 {
            Ok(Rotation::Degrees270)
        } else {
            Err(ErrorKind::OutOfDomain(Field::Rotation, code))
        }
    }

    /// The code that selects this value.
    pub fn code(&self) -> (c: i32)
        ensures
            c == self.spec_code(),
    {
        match self {
            Rotation::NoRotation => 0,
            Rotation::Degrees90 => 1,
            Rotation::Degrees180 => 2,
            Rotation::Degrees270 => 3,
        }
    }
}

/// The resident fonts. Codes 1 to 5; soft fonts and numeric-only fonts are not
/// supported.
#[derive(Clone, Copy, Debug, PartialEq, Eq, Structural)]
pub enum Font {
    Size1,
    Size2,
    Size3,
    Size4,
    Size5,
}

impl Font {
    /// The value that the code `code` selects, if it selects one.
    pub open spec fn spec_from_code(code: int) -> Option<Font> {
        if code == 1 {
            Some(Font::Size1)
        } else if code == 2 {
            Some(Font::Size2)
        } else if code == 3 {
            Some(Font::Size3)
        } else if code == 4 {
            Some(Font::Size4)
        } else if code == 5 {
            Some(Font::Size5)
        } else {
            None
        }
    }

    /// The code that selects this value.
    pub open spec fn spec_code(self) -> int {
        match self {
            Font::Size1 => 1,
            Font::Size2 => 2,
            Font::Size3 => 3,
            Font::Size4 => 4,
            Font::Size5 => 5,
        }
    }

    /// Maps a raw code into the domain, or rejects it.
    pub fn from_code(code: i32) -> (r: Result<Font, ErrorKind>)
        ensures
            r == validated(Self::spec_from_code(code as int), Field::Font, code),
    {
        if code == 1 {
            Ok(Font::Size1)
        } else if code == 2 {
            Ok(Font::Size2)
        } else if code == 3 {
            Ok(Font::Size3)
        } else if code == 4 {
            Ok(Font::Size4)
        } else if code == 5 {
            Ok(Font::Size5)
        } else {
            Err(ErrorKind::OutOfDomain(Field::Font, code))
        }
    }

    /// The code that selects this value.
    pub fn code(&self) -> (c: i32)
        ensures
            c == self.spec_code(),
    {
        match self {
            Font::Size1 => 1,
            Font::Size2 => 2,
            Font::Size3 => 3,
            Font::Size4 => 4,
            Font::Size5 => 5,
        }
    }
}

/// The horizontal stretch factors: 1 to 6, and 8.
pub open spec fn is_horizontal_multiplier(m: int) -> bool {
    1 <= m <= 6 || m == 8
}

/// A horizontal stretch factor: one of 1, 2, 3, 4, 5, 6 and 8.
#[derive(Clone, Copy, Debug, PartialEq, Eq)]
pub struct HorizontalMultiplier {
    multiplier: i32,
}

impl View for HorizontalMultiplier {
    type V = int;

    closed spec fn view(&self) -> int {
        self.multiplier as int
    }
}

impl HorizontalMultiplier {
    /// A multiplier is always one of its domain.
    #[verifier::type_invariant]
    pub open spec fn in_domain(&self) -> bool {
        is_horizontal_multiplier(self@)
    }

    /// Makes the multiplier `m`, or rejects a value outside the domain.
    pub fn new(m: i32) -> (r: Result<HorizontalMultiplier, ErrorKind>)
        ensures
            r is Ok <==> is_horizontal_multiplier(m as int),
            r is Ok ==> r->Ok_0@ == m,
            r is Err ==> r->Err_0 == ErrorKind::OutOfDomain(Field::HorizontalMultiplier, m),
    {
        if (1 <= m && m <= 6) || m == 8 {
            Ok(HorizontalMultiplier { multiplier: m })
        } else {
            Err(ErrorKind::OutOfDomain(Field::HorizontalMultiplier, m))
        }
    }

    /// The multiplier as a number.
    pub fn multiplier(&self) -> (m: i32)
        ensures
            m == self@,
            is_horizontal_multiplier(m as int),
    {
        proof {
            use_type_invariant(self);
        }
        self.multiplier
    }
}

/// The vertical stretch factors: 1 to 9.
pub open spec fn is_vertical_multiplier(m: int) -> bool {
    1 <= m <= 9
}

/// A vertical stretch factor: one of 1 to 9.
#[derive(Clone, Copy, Debug, PartialEq, Eq)]
pub struct VerticalMultiplier {
    multiplier: i32,
}

impl View for VerticalMultiplier {
    type V = int;

    closed spec fn view(&self) -> int {
        self.multiplier as int
    }
}

impl VerticalMultiplier {
    /// A multiplier is always one of its domain.
    #[verifier::type_invariant]
    pub open spec fn in_domain(&self) -> bool {
        is_vertical_multiplier(self@)
    }

    /// Makes the multiplier `m`, or rejects a value outside the domain.
    pub fn new(m: i32) -> (r: Result<VerticalMultiplier, ErrorKind>)
        ensures
            r is Ok <==> is_vertical_multiplier(m as int),
            r is Ok ==> r->Ok_0@ == m,
            r is Err ==> r->Err_0 == ErrorKind::OutOfDomain(Field::VerticalMultiplier, m),
    {
        if 1 <= m && m <= 9 {
            Ok(VerticalMultiplier { multiplier: m })
        } else {
            Err(ErrorKind::OutOfDomain(Field::VerticalMultiplier, m))
        }
    }

    /// The multiplier as a number.
    pub fn multiplier(&self) -> (m: i32)
        ensures
            m == self@,
            is_vertical_multiplier(m as int),
    {
        proof {
            use_type_invariant(self);
        }
        self.multiplier
    }
}

/// Whether text is printed normally or as a reverse image. Letters `N` and
/// `R`.
#[derive(Clone, Copy, Debug, PartialEq, Eq, Structural)]
pub enum ReverseImage {
    /// Normal.
    N,
    /// Reverse image.
    R,
}

impl ReverseImage {
    /// The value that the letter `letter` selects, if it selects one.
    pub open spec fn spec_from_letter(letter: u8) -> Option<ReverseImage> {
        if letter == 0x4E {
            Some(ReverseImage::N)
        } else if letter == 0x52 {
            Some(ReverseImage::R)
        } else {
            None
        }
    }

    /// The letter that selects this value.
    pub open spec fn spec_letter(self) -> u8 {
        match self {
            ReverseImage::N => 0x4E,
            ReverseImage::R => 0x52,
        }
    }

    /// Maps a raw letter into the domain, or rejects it.
    pub fn from_letter(letter: u8) -> (r: Result<ReverseImage, ErrorKind>)
        ensures
            r == validated(Self::spec_from_letter(letter), Field::ReverseImage, letter as i32),
    {
        if letter == 0x4E {
            Ok(ReverseImage::N)
        } else if letter == 0x52 {
            Ok(ReverseImage::R)
        } else {
            Err(ErrorKind::OutOfDomain(Field::ReverseImage, letter as i32))
        }
    }

    /// The letter that selects this value.
    pub fn letter(&self) -> (l: u8)
        ensures
            l == self.spec_letter(),
    {
        match self {
            ReverseImage::N => 0x4E,
            ReverseImage::R => 0x52,
        }
    }
}

/// The standard bar codes. Only Code 128 is supported, in its four modes.
#[derive(Clone, Copy, Debug, PartialEq, Eq, Structural)]
pub enum BarCodeStandardSelection {
    /// Written `1`.
    Code128Auto,
    /// Written `1A`.
    Code128A,
    /// Written `1B`.
    Code128B,
    /// Written `1C`.
    Code128C,
}

impl BarCodeStandardSelection {
    /// The mode that the letter after the `1` selects, if it selects one.
    pub open spec fn spec_from_mode(letter: u8) -> Option<BarCodeStandardSelection> {
        if letter == 0x41 {
            Some(BarCodeStandardSelection::Code128A)
        } else if letter == 0x42 {
            Some(BarCodeStandardSelection::Code128B)
        } else if letter == 0x43 {
            Some(BarCodeStandardSelection::Code128C)
        } else {
            None
        }
    }

    /// The letter written after the `1`, if the mode has one.
    pub open spec fn spec_mode(self) -> Option<u8> {
        match self {
            BarCodeStandardSelection::Code128Auto => None,
            BarCodeStandardSelection::Code128A => Some(0x41u8),
            BarCodeStandardSelection::Code128B => Some(0x42u8),
            BarCodeStandardSelection::Code128C => Some(0x43u8),
        }
    }

    /// The mode that the letter after the `1` selects, if it selects one.
    pub fn from_mode(letter: u8) -> (r: Option<BarCodeStandardSelection>)
        ensures
            r == Self::spec_from_mode(letter),
    {
        if letter == 0x41 {
            Some(BarCodeStandardSelection::Code128A)
        } else if letter == 0x42 {
            Some(BarCodeStandardSelection::Code128B)
        } else if letter == 0x43 {
            Some(BarCodeStandardSelection::Code128C)
        } else {
            None
        }
    }

    /// The letter written after the `1`, if the mode has one.
    pub fn mode(&self) -> (m: Option<u8>)
        ensures
            m == self.spec_mode(),
    {
        match self {
            BarCodeStandardSelection::Code128Auto => None,
            BarCodeStandardSelection::Code128A => Some(0x41u8),
            BarCodeStandardSelection::Code128B => Some(0x42u8),
            BarCodeStandardSelection::Code128C => Some(0x43u8),
        }
    }
}

/// The two-dimensional bar codes. Only PDF417 is supported. Letter `P`.
#[derive(Clone, Copy, Debug, PartialEq, Eq, Structural)]
pub enum BarCode2DSelection {
    PDF417,
}

impl BarCode2DSelection {
    /// The value that the letter `letter` selects, if it selects one.
    pub open spec fn spec_from_letter(letter: u8) -> Option<BarCode2DSelection> {
        if letter == 0x50 {
            Some(BarCode2DSelection::PDF417)
        } else {
            None
        }
    }

    /// The letter that selects this value.
    pub open spec fn spec_letter(self) -> u8 {
        match self {
            BarCode2DSelection::PDF417 => 0x50,
        }
    }

    /// Maps a raw letter into the domain, or rejects it.
    pub fn from_letter(letter: u8) -> (r: Result<BarCode2DSelection, ErrorKind>)
        ensures
            r == validated(Self::spec_from_letter(letter), Field::BarCode2DSelection, letter as i32),
    {
        if letter == 0x50 {
            Ok(BarCode2DSelection::PDF417)
        } else {
            Err(ErrorKind::OutOfDomain(Field::BarCode2DSelection, letter as i32))
        }
    }

    /// The letter that selects this value.
    pub fn letter(&self) -> (l: u8)
        ensures
            l == self.spec_letter(),
    {
        match self {
            BarCode2DSelection::PDF417 => 0x50,
        }
    }
}

/// The number of data bits. Only 8-bit data is supported.
#[derive(Clone, Copy, Debug, PartialEq, Eq, Structural)]
pub enum BitSupport {
    Bit8,
}

impl BitSupport {
    /// The value that the code `code` selects, if it selects one.
    pub open spec fn spec_from_code(code: int) -> Option<BitSupport> {
        if code == 8 {
            Some(BitSupport::Bit8)
        } else {
            None
        }
    }

    /// The code that selects this value.
    pub open spec fn spec_code(self) -> int {
        match self {
            BitSupport::Bit8 => 8,
        }
    }

    /// Maps a raw code into the domain, or rejects it.
    pub fn from_code(code: i32) -> (r: Result<BitSupport, ErrorKind>)
        ensures
            r == validated(Self::spec_from_code(code as int), Field::BitSupport, code),
    {
        if code == 8 {
            Ok(BitSupport::Bit8)
        } else {
            Err(ErrorKind::OutOfDomain(Field::BitSupport, code))
        }
    }

    /// The code that selects this value.
    pub fn code(&self) -> (c: i32)
        ensures
            c == self.spec_code(),
    {
        match self {
            BitSupport::Bit8 => 8,
        }
    }
}

/// The code pages of 8-bit data. The DOS code pages are written as the
/// numbers 0 to 13, the Windows code pages as the letters `A` to `F`.
#[derive(Clone, Copy, Debug, PartialEq, Eq, Structural)]
pub enum Encoding {
    /// Written `0`.
    DOS437,
    /// Written `1`.
    DOS850,
    /// Written `2`.
    DOS852,
    /// Written `3`.
    DOS860,
    /// Written `4`.
    DOS863,
    /// Written `5`.
    DOS865,
    /// Written `6`.
    DOS857,
    /// Written `7`.
    DOS861,
    /// Written `8`.
    DOS862,
    /// Written `9`.
    DOS855,
    /// Written `10`.
    DOS866,
    /// Written `11`.
    DOS737,
    /// Written `12`.
    DOS851,
    /// Written `13`.
    DOS869,
    /// Written `A`.
    Windows1252,
    /// Written `B`.
    Windows1250,
    /// Written `C`.
    Windows1251,
    /// Written `D`.
    Windows1253,
    /// Written `E`.
    Windows1254,
    /// Written `F`.
    Windows1255,
}

impl Encoding {
    /// The DOS code page that the number `code` selects, if it selects one.
    pub open spec fn spec_from_code(code: int) -> Option<Encoding> {
        if code == 0 {
            Some(Encoding::DOS437)
        } else if code == 1 {
            Some(Encoding::DOS850)
        } else if code == 2 {
            Some(Encoding::DOS852)
        } else if code == 3 {
            Some(Encoding::DOS860)
        } else if code == 4 {
            Some(Encoding::DOS863)
        } else if code == 5 {
            Some(Encoding::DOS865)
        } else if code == 6 {
            Some(Encoding::DOS857)
        } else if code == 7 {
            Some(Encoding::DOS861)
        } else if code == 8 {
            Some(Encoding::DOS862)
        } else if code == 9 {
            Some(Encoding::DOS855)
        } else if code == 10 {
            Some(Encoding::DOS866)
        } else if code == 11 {
            Some(Encoding::DOS737)
        } else if code == 12 {
            Some(Encoding::DOS851)
        } else if code == 13 {
            Some(Encoding::DOS869)
        } else {
            None
        }
    }

    /// The Windows code page that `letter` selects, if it selects one.
    pub open spec fn spec_from_letter(letter: u8) -> Option<Encoding> {
        if letter == 0x41 {
            Some(Encoding::Windows1252)
        } else if letter == 0x42 {
            Some(Encoding::Windows1250)
        } else if letter == 0x43 {
            Some(Encoding::Windows1251)
        } else if letter == 0x44 {
            Some(Encoding::Windows1253)
        } else if letter == 0x45 {
            Some(Encoding::Windows1254)
        } else if letter == 0x46 {
            Some(Encoding::Windows1255)
        } else {
            None
        }
    }

    /// The number that selects this code page, if it is a DOS code page.
    pub open spec fn spec_code(self) -> Option<int> {
        match self {
            Encoding::DOS437 => Some(0int),
            Encoding::DOS850 => Some(1int),
            Encoding::DOS852 => Some(2int),
            Encoding::DOS860 => Some(3int),
            Encoding::DOS863 => Some(4int),
            Encoding::DOS865 => Some(5int),
            Encoding::DOS857 => Some(6int),
            Encoding::DOS861 => Some(7int),
            Encoding::DOS862 => Some(8int),
            Encoding::DOS855 => Some(9int),
            Encoding::DOS866 => Some(10int),
            Encoding::DOS737 => Some(11int),
            Encoding::DOS851 => Some(12int),
            Encoding::DOS869 => Some(13int),
            _ => None,
        }
    }

    /// The letter that selects this code page, if it is a Windows code page.
    pub open spec fn spec_letter(self) -> Option<u8> {
        match self {
            Encoding::Windows1252 => Some(0x41u8),
            Encoding::Windows1250 => Some(0x42u8),
            Encoding::Windows1251 => Some(0x43u8),
            Encoding::Windows1253 => Some(0x44u8),
            Encoding::Windows1254 => Some(0x45u8),
            Encoding::Windows1255 => Some(0x46u8),
            _ => None,
        }
    }

    /// Maps a raw number into the DOS code pages, or rejects it.
    pub fn from_code(code: i32) -> (r: Result<Encoding, ErrorKind>)
        ensures
            r == validated(Self::spec_from_code(code as int), Field::Encoding, code),
    {
        if code == 0 {
            Ok(Encoding::DOS437)
        } else if code == 1 {
            Ok(Encoding::DOS850)
        } else if code == 2 {
            Ok(Encoding::DOS852)
        } else if code == 3 {
            Ok(Encoding::DOS860)
        } else if code == 4 {
            Ok(Encoding::DOS863)
        } else if code == 5 {
            Ok(Encoding::DOS865)
        } else if code == 6 {
            Ok(Encoding::DOS857)
        } else if code == 7 {
            Ok(Encoding::DOS861)
        } else if code == 8 {
            Ok(Encoding::DOS862)
        } else if code == 9 {
            Ok(Encoding::DOS855)
        } else if code == 10 {
            Ok(Encoding::DOS866)
        } else if code == 11 {
            Ok(Encoding::DOS737)
        } else if code == 12 {
            Ok(Encoding::DOS851)
        } else if code == 13 {
            Ok(Encoding::DOS869)
        } else {
            Err(ErrorKind::OutOfDomain(Field::Encoding, code))
        }
    }

    /// Maps a raw letter into the Windows code pages, or rejects it.
    pub fn from_letter(letter: u8) -> (r: Result<Encoding, ErrorKind>)
        ensures
            r == validated(Self::spec_from_letter(letter), Field::Encoding, letter as i32),
    {
        if letter == 0x41 {
            Ok(Encoding::Windows1252)
        } else if letter == 0x42 {
            Ok(Encoding::Windows1250)
        } else if letter == 0x43 {
            Ok(Encoding::Windows1251)
        } else if letter == 0x44 {
            Ok(Encoding::Windows1253)
        } else if letter == 0x45 {
            Ok(Encoding::Windows1254)
        } else if letter == 0x46 {
            Ok(Encoding::Windows1255)
        } else {
            Err(ErrorKind::OutOfDomain(Field::Encoding, letter as i32))
        }
    }

    /// The number that selects this code page, if it is a DOS code page.
    pub fn code(&self) -> (c: Option<i32>)
        ensures
            c is Some <==> self.spec_code() is Some,
            c is Some ==> c->Some_0 == self.spec_code()->Some_0,
    {
        match self {
            Encoding::DOS437 => Some(0),
            Encoding::DOS850 => Some(1),
            Encoding::DOS852 => Some(2),
            Encoding::DOS860 => Some(3),
            Encoding::DOS863 => Some(4),
            Encoding::DOS865 => Some(5),
            Encoding::DOS857 => Some(6),
            Encoding::DOS861 => Some(7),
            Encoding::DOS862 => Some(8),
            Encoding::DOS855 => Some(9),
            Encoding::DOS866 => Some(10),
            Encoding::DOS737 => Some(11),
            Encoding::DOS851 => Some(12),
            Encoding::DOS869 => Some(13),
            _ => None,
        }
    }

    /// The letter that selects this code page, if it is a Windows code page.
    pub fn letter(&self) -> (l: Option<u8>)
        ensures
            l == self.spec_letter(),
    {
        match self {
            Encoding::Windows1252 => Some(0x41u8),
            Encoding::Windows1250 => Some(0x42u8),
            Encoding::Windows1251 => Some(0x43u8),
            Encoding::Windows1253 => Some(0x44u8),
            Encoding::Windows1254 => Some(0x45u8),
            Encoding::Windows1255 => Some(0x46u8),
            _ => None,
        }
    }
}

/// The countries of the keyboard display unit, by their three-digit codes.
#[derive(Clone, Copy, Debug, PartialEq, Eq, Structural)]
pub enum KDUCountryCode {
    /// Written `001`.
    USA,
    /// Written `002`.
    Canada,
    /// Written `003`.
    LatinAm,
    /// Written `027`.
    SAfrica,
    /// Written `031`.
    Netherlands,
    /// Written `032`.
    Belgium,
    /// Written `033`.
    France,
    /// Written `034`.
    Spain,
    /// Written `039`.
    Italy,
    /// Written `041`.
    Swizerland,
    /// Written `044`.
    UK,
    /// Written `045`.
    Denmark,
    /// Written `046`.
    Sweden,
    /// Written `047`.
    Norway,
    /// Written `049`.
    Germany,
    /// Written `351`.
    Portugal,
    /// Written `358`.
    Finland,
}

impl KDUCountryCode {
    /// The value that the code `code` selects, if it selects one.
    pub open spec fn spec_from_code(code: int) -> Option<KDUCountryCode> {
        if code == 1 {
            Some(KDUCountryCode::USA)
        } else if code == 2 {
            Some(KDUCountryCode::Canada)
        } else if code == 3 {
            Some(KDUCountryCode::LatinAm)
        } else if code == 27 {
            Some(KDUCountryCode::SAfrica)
        } else if code == 31 {
            Some(KDUCountryCode::Netherlands)
        } else if code == 32 {
            Some(KDUCountryCode::Belgium)
        } else if code == 33 {
            Some(KDUCountryCode::France)
        } else if code == 34 {
            Some(KDUCountryCode::Spain)
        } else if code == 39 {
            Some(KDUCountryCode::Italy)
        } else if code == 41 {
            Some(KDUCountryCode::Swizerland)
        } else if code == 44 {
            Some(KDUCountryCode::UK)
        } else if code == 45 {
            Some(KDUCountryCode::Denmark)
        } else if code == 46 {
            Some(KDUCountryCode::Sweden)
        } else if code == 47 {
            Some(KDUCountryCode::Norway)
        } else if code == 49 {
            Some(KDUCountryCode::Germany)
        } else if code == 351 {
            Some(KDUCountryCode::Portugal)
        } else if code == 358 {
            Some(KDUCountryCode::Finland)
        } else {
            None
        }
    }

    /// The code that selects this value.
    pub open spec fn spec_code(self) -> int {
        match self {
            KDUCountryCode::USA => 1,
            KDUCountryCode::Canada => 2,
            KDUCountryCode::LatinAm => 3,
            KDUCountryCode::SAfrica => 27,
            KDUCountryCode::Netherlands => 31,
            KDUCountryCode::Belgium => 32,
            KDUCountryCode::France => 33,
            KDUCountryCode::Spain => 34,
            KDUCountryCode::Italy => 39,
            KDUCountryCode::Swizerland => 41,
            KDUCountryCode::UK => 44,
            KDUCountryCode::Denmark => 45,
            KDUCountryCode::Sweden => 46,
            KDUCountryCode::Norway => 47,
            KDUCountryCode::Germany => 49,
            KDUCountryCode::Portugal => 351,
            KDUCountryCode::Finland => 358,
        }
    }

    /// Maps a raw code into the domain, or rejects it.
    pub fn from_code(code: i32) -> (r: Result<KDUCountryCode, ErrorKind>)
        ensures
            r == validated(Self::spec_from_code(code as int), Field::CountryCode, code),
    {
        if code == 1 {
            Ok(KDUCountryCode::USA)
        } else if code == 2 {
            Ok(KDUCountryCode::Canada)
        } else if code == 3 {
            Ok(KDUCountryCode::LatinAm)
        } else if code == 27 {
            Ok(KDUCountryCode::SAfrica)
        } else if code == 31 {
            Ok(KDUCountryCode::Netherlands)
        } else if code == 32 {
            Ok(KDUCountryCode::Belgium)
        } else if code == 33 {
            Ok(KDUCountryCode::France)
        } else if code == 34 {
            Ok(KDUCountryCode::Spain)
        } else if code == 39 {
            Ok(KDUCountryCode::Italy)
        } else if code == 41 {
            Ok(KDUCountryCode::Swizerland)
        } else if code == 44 {
            Ok(KDUCountryCode::UK)
        } else if code == 45 {
            Ok(KDUCountryCode::Denmark)
        } else if code == 46 {
            Ok(KDUCountryCode::Sweden)
        } else if code == 47 {
            Ok(KDUCountryCode::Norway)
        } else if code == 49 {
            Ok(KDUCountryCode::Germany)
        } else if code == 351 {
            Ok(KDUCountryCode::Portugal)
        } else if code == 358 {
            Ok(KDUCountryCode::Finland)
        } else {
            Err(ErrorKind::OutOfDomain(Field::CountryCode, code))
        }
    }

    /// The code that selects this value.
    pub fn code(&self) -> (c: i32)
        ensures
            c == self.spec_code(),
    {
        match self {
            KDUCountryCode::USA => 1,
            KDUCountryCode::Canada => 2,
            KDUCountryCode::LatinAm => 3,
            KDUCountryCode::SAfrica => 27,
            KDUCountryCode::Netherlands => 31,
            KDUCountryCode::Belgium => 32,
            KDUCountryCode::France => 33,
            KDUCountryCode::Spain => 34,
            KDUCountryCode::Italy => 39,
            KDUCountryCode::Swizerland => 41,
            KDUCountryCode::UK => 44,
            KDUCountryCode::Denmark => 45,
            KDUCountryCode::Sweden => 46,
            KDUCountryCode::Norway => 47,
            KDUCountryCode::Germany => 49,
            KDUCountryCode::Portugal => 351,
            KDUCountryCode::Finland => 358,
        }
    }
}

} // verus!
