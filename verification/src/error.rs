//! Decode errors: what went wrong, and at which byte offset.

use vstd::prelude::*;

verus! {

/// The fields whose values are limited to a domain. An out-of-domain error
/// names the field whose value had no mapping.
#[derive(Clone, Copy, Debug, PartialEq, Eq, Structural)]
pub enum Field {
    Rotation,
    Font,
    HorizontalMultiplier,
    VerticalMultiplier,
    ReverseImage,
    BarCodeSelection,
    WideBarWidth,
    PrintHumanReadable,
    BarCode2DSelection,
    OriginPoint,
    Truncated,
    Density,
    BitSupport,
    Encoding,
    CountryCode,
    Sets,
    Copies,
    LabelLength,
    GapLength,
    OffsetLength,
    Speed,
    WindowsMode,
    Orientation,
}

impl Field {
    /// The field's name, as diagnostics print it.
    pub open spec fn spec_name(self) -> Seq<char> {
        match self {
            Field::Rotation => "Rotation"@,
            Field::Font => "Font"@,
            Field::HorizontalMultiplier => "HorizontalMultiplier"@,
            Field::VerticalMultiplier => "VerticalMultiplier"@,
            Field::ReverseImage => "ReverseImage"@,
            Field::BarCodeSelection => "BarCodeSelection"@,
            Field::WideBarWidth => "WideBarWidth"@,
            Field::PrintHumanReadable => "PrintHumanReadable"@,
            Field::BarCode2DSelection => "BarCode2DSelection"@,
            Field::OriginPoint => "OriginPoint"@,
            Field::Truncated => "Truncated"@,
            Field::Density => "Density"@,
            Field::BitSupport => "BitSupport"@,
            Field::Encoding => "Encoding"@,
            Field::CountryCode => "CountryCode"@,
            Field::Sets => "Sets"@,
            Field::Copies => "Copies"@,
            Field::LabelLength => "LabelLength"@,
            Field::GapLength => "GapLength"@,
            Field::OffsetLength => "OffsetLength"@,
            Field::Speed => "Speed"@,
            Field::WindowsMode => "WindowsMode"@,
            Field::Orientation => "Orientation"@,
        }
    }

    /// The field's name, as diagnostics print it.
    pub fn name(&self) -> (n: &'static str)
        ensures
            n@ == self.spec_name(),
    {
        match self {
            Field::Rotation => "Rotation",
            Field::Font => "Font",
            Field::HorizontalMultiplier => "HorizontalMultiplier",
            Field::VerticalMultiplier => "VerticalMultiplier",
            Field::ReverseImage => "ReverseImage",
            Field::BarCodeSelection => "BarCodeSelection",
            Field::WideBarWidth => "WideBarWidth",
            Field::PrintHumanReadable => "PrintHumanReadable",
            Field::BarCode2DSelection => "BarCode2DSelection",
            Field::OriginPoint => "OriginPoint",
            Field::Truncated => "Truncated",
            Field::Density => "Density",
            Field::BitSupport => "BitSupport",
            Field::Encoding => "Encoding",
            Field::CountryCode => "CountryCode",
            Field::Sets => "Sets",
            Field::Copies => "Copies",
            Field::LabelLength => "LabelLength",
            Field::GapLength => "GapLength",
            Field::OffsetLength => "OffsetLength",
            Field::Speed => "Speed",
            Field::WindowsMode => "WindowsMode",
            Field::Orientation => "Orientation",
        }
    }
}

/// Why decoding stopped.
#[derive(Clone, Copy, Debug, PartialEq, Eq, Structural)]
pub enum ErrorKind {
    /// The buffer ended where more bytes were required.
    UnexpectedEnd,
    /// A number was required and the next byte is not a digit.
    NotANumber,
    /// A number does not fit the signed 32-bit range.
    IntegerOverflow,
    /// The buffer ended inside a quoted string.
    UnterminatedString,
    /// A backslash is followed by a byte that is no escape character.
    InvalidEscape,
    /// A separator was required and the next byte is not that separator.
    ExpectedSeparator,
    /// The value read for a field has no mapping in the field's domain. A
    /// field that is a single letter reports the letter's byte value.
    OutOfDomain(Field, i32),
    /// The byte at a command boundary starts no supported command.
    UnknownCommand(u8),
}

/// An error together with the byte offset at which it was detected.
#[derive(Clone, Copy, Debug, PartialEq, Eq, Structural)]
pub struct DecodeError {
    pub kind: ErrorKind,
    pub position: usize,
}

/// What a validator answers for a raw value: the mapped value, or the
/// out-of-domain error that names `field` and the raw value.
pub open spec fn validated<T>(mapped: Option<T>, field: Field, raw: i32) -> Result<T, ErrorKind> {
    match mapped {
        Some(v) => Ok(v),
        None => Err(ErrorKind::OutOfDomain(field, raw)),
    }
}

} // verus!
