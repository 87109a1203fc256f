//! The canonical text of a command: the one spelling that the writer
//! produces and that the grammar reads back as the same command.
//!
//! Numbers are written without leading zeros, a country code with its three
//! digits, text between quotes with an escape only where the grammar needs
//! one, every field of `P`, and a line terminator after every text command.

use vstd::prelude::*;
use crate::commands::{
    AsciiText, AsciiTextModel, BarCode2D, BarCode2DModel, BarCodeStandard, BarCodeStandardModel,
    BoxDraw, BoxDrawModel, CharacterSetSelection, CharacterSetSelectionModel, Command,
    CommandModel, Density, DensityModel, Graphics, GraphicsModel, LineDraw, LineDrawModel, Print,
    PrintModel, PrintDirection, PrintDirectionModel, SetFormLength, SetFormLengthModel,
    SetFormWidth, SetFormWidthModel, SpeedSelect, SpeedSelectModel, WindowsMode,
    WindowsModeModel,
};
use crate::primitives::{BACKSLASH, COMMA, LINE_FEED, QUOTE};
use crate::values::{BarCodeStandardSelection, Encoding, KDUCountryCode};

verus! {

/// The decimal digits of `n`, without leading zeros.
pub open spec fn decimal_digits(n: int) -> Seq<u8>
    decreases n,
{
    if n < 10 {
        seq![(0x30 + n) as u8]
    } else {
        decimal_digits(n / 10).push((0x30 + n % 10) as u8)
    }
}

/// How a byte of text stands inside a string literal: a quote, a backslash
/// and the control characters that have an escape are escaped, every other
/// byte stands for itself.
pub open spec fn escape_of(b: u8) -> Seq<u8> {
    if b == 0x22 {
        seq![BACKSLASH, 0x22u8]
    } else if b == 0x5C {
        seq![BACKSLASH, 0x5Cu8]
    } else if b == 0x08 {
        seq![BACKSLASH, 0x62u8]
    } else if b == 0x0C {
        seq![BACKSLASH, 0x66u8]
    } else if b == 0x0A {
        seq![BACKSLASH, 0x6Eu8]
    } else if b == 0x0D {
        seq![BACKSLASH, 0x72u8]
    } else if b == 0x09 {
        seq![BACKSLASH, 0x74u8]
    } else {
        seq![b]
    }
}

/// The inside of the string literal that holds `text`.
pub open spec fn escaped(text: Seq<u8>) -> Seq<u8>
    decreases text.len(),
{
    if text.len() == 0 {
        Seq::empty()
    } else {
        escape_of(text[0]) + escaped(text.drop_first())
    }
}

/// The string literal that holds `text`.
pub open spec fn quoted(text: Seq<u8>) -> Seq<u8> {
    seq![QUOTE] + escaped(text) + seq![QUOTE]
}

/// The text of a standard bar code selection.
pub open spec fn selection_text(selection: BarCodeStandardSelection) -> Seq<u8> {
    match selection.spec_mode() {
        Some(letter) => seq![0x31u8, letter],
        None => seq![0x31u8],
    }
}

/// The letter of a two-way choice.
pub open spec fn choice_letter(chosen: bool, yes: u8, no: u8) -> u8 {
    if chosen {
        yes
    } else {
        no
    }
}

/// The number of a two-way choice.
pub open spec fn switch_number(on: bool) -> int {
    if on {
        1
    } else {
        0
    }
}

/// The text of a code page: its number, or its letter.
pub open spec fn encoding_text(encoding: Encoding) -> Seq<u8> {
    match encoding.spec_code() {
        Some(code) => decimal_digits(code),
        None => seq![encoding.spec_letter()->Some_0],
    }
}

/// The text of a country code: its three digits.
pub open spec fn country_text(country: KDUCountryCode) -> Seq<u8> {
    let code = country.spec_code();
    seq![(0x30 + code / 100) as u8, (0x30 + (code / 10) % 10) as u8, (0x30 + code % 10) as u8]
}

/// The letter of a print orientation.
pub open spec fn orientation_letter(orientation: char) -> u8 {
    if orientation == 'T' {
        0x54
    } else {
        0x42
    }
}

/// The canonical text of the command `A`.
pub open spec fn text_of_ascii_text(m: AsciiTextModel) -> Seq<u8> {
    seq![0x41u8]
        + decimal_digits(m.h_start)
        + seq![COMMA]
        + decimal_digits(m.v_start)
        + seq![COMMA]
        + decimal_digits(m.rotation.spec_code())
        + seq![COMMA]
        + decimal_digits(m.font_selection.spec_code())
        + seq![COMMA]
        + decimal_digits(m.h_mult)
        + seq![COMMA]
        + decimal_digits(m.v_mult)
        + seq![COMMA]
        + seq![m.reverse.spec_letter()]
        + seq![COMMA]
        + quoted(m.data)
        + seq![LINE_FEED]
}

/// The canonical text of the command `B`.
pub open spec fn text_of_bar_code_standard(m: BarCodeStandardModel) -> Seq<u8> {
    seq![0x42u8]
        + decimal_digits(m.h_start)
        + seq![COMMA]
        + decimal_digits(m.v_start)
        + seq![COMMA]
        + decimal_digits(m.rotation.spec_code())
        + seq![COMMA]
        + selection_text(m.bar_code)
        + seq![COMMA]
        + decimal_digits(m.narrow_width)
        + seq![COMMA]
        + decimal_digits(m.wide_width)
        + seq![COMMA]
        + decimal_digits(m.bar_code_height)
        + seq![COMMA]
        + seq![choice_letter(m.print_human_readable, 0x42, 0x4E)]
        + seq![COMMA]
        + quoted(m.data)
        + seq![LINE_FEED]
}

/// The canonical text of the command `b`.
pub open spec fn text_of_bar_code_2d(m: BarCode2DModel) -> Seq<u8> {
    seq![0x62u8]
        + decimal_digits(m.h_start)
        + seq![COMMA]
        + decimal_digits(m.v_start)
        + seq![COMMA]
        + seq![m.bar_code.spec_letter()]
        + seq![COMMA]
        + decimal_digits(m.max_width)
        + seq![COMMA]
        + decimal_digits(m.max_height)
        + seq![COMMA]
        + decimal_digits(m.error_correction)
        + seq![COMMA]
        + decimal_digits(m.data_compression)
        + seq![COMMA]
        + decimal_digits(m.readable_h_start)
        + seq![COMMA]
        + decimal_digits(m.readable_v_start)
        + seq![COMMA]
        + decimal_digits(m.readable_max_chars)
        + seq![COMMA]
        + decimal_digits(m.origin_point)
        + seq![COMMA]
        + decimal_digits(m.module_width)
        + seq![COMMA]
        + decimal_digits(m.bar_height)
        + seq![COMMA]
        + decimal_digits(m.max_rows)
        + seq![COMMA]
        + decimal_digits(m.max_cols)
        + seq![COMMA]
        + decimal_digits(switch_number(m.truncated))
        + seq![COMMA]
        + decimal_digits(m.rotation.spec_code())
        + seq![COMMA]
        + decimal_digits(m.data.len() as int)
        + seq![COMMA]
        + m.data
}

/// The canonical text of the command `D`.
pub open spec fn text_of_density(m: DensityModel) -> Seq<u8> {
    seq![0x44u8]
        + decimal_digits(m.setting)
        + seq![LINE_FEED]
}

/// The canonical text of the command `GW`.
pub open spec fn text_of_graphics(m: GraphicsModel) -> Seq<u8> {
    seq![0x47u8, 0x57u8]
        + decimal_digits(m.h_start)
        + seq![COMMA]
        + decimal_digits(m.v_start)
        + seq![COMMA]
        + decimal_digits(m.graphic_width)
        + seq![COMMA]
        + decimal_digits(m.graphic_length)
        + seq![COMMA]
        + m.data
}

/// The canonical text of the command `I`.
pub open spec fn text_of_character_set_selection(m: CharacterSetSelectionModel) -> Seq<u8> {
    seq![0x49u8]
        + decimal_digits(m.number_of_bits.spec_code())
        + seq![COMMA]
        + encoding_text(m.language_support)
        + seq![COMMA]
        + country_text(m.country_code)
        + seq![LINE_FEED]
}

/// The canonical text of the command `LO`.
pub open spec fn text_of_line_draw(m: LineDrawModel) -> Seq<u8> {
    seq![0x4Cu8, 0x4Fu8]
        + decimal_digits(m.h_start)
        + seq![COMMA]
        + decimal_digits(m.v_start)
        + seq![COMMA]
        + decimal_digits(m.h_length)
        + seq![COMMA]
        + decimal_digits(m.v_length)
        + seq![LINE_FEED]
}

/// The canonical text of the command `P`.
pub open spec fn text_of_print(m: PrintModel) -> Seq<u8> {
    seq![0x50u8]
        + decimal_digits(m.nmbr_of_sets)
        + seq![COMMA]
        + decimal_digits(m.nmbr_of_copies)
        + seq![LINE_FEED]
}

/// The canonical text of the command `q`.
pub open spec fn text_of_set_form_width(m: SetFormWidthModel) -> Seq<u8> {
    seq![0x71u8]
        + decimal_digits(m.label_width)
        + seq![LINE_FEED]
}

/// The canonical text of the command `Q`.
pub open spec fn text_of_set_form_length(m: SetFormLengthModel) -> Seq<u8> {
    seq![0x51u8]
        + decimal_digits(m.label_length)
        + seq![COMMA]
        + decimal_digits(m.gap_length)
        + seq![COMMA]
        + decimal_digits(m.offset_length)
        + seq![LINE_FEED]
}

/// The canonical text of the command `S`.
pub open spec fn text_of_speed_select(m: SpeedSelectModel) -> Seq<u8> {
    seq![0x53u8]
        + decimal_digits(m.speed)
        + seq![LINE_FEED]
}

/// The canonical text of the command `W`.
pub open spec fn text_of_windows_mode(m: WindowsModeModel) -> Seq<u8> {
    seq![0x57u8]
        + seq![choice_letter(m.enabled, 0x59, 0x4E)]
        + seq![LINE_FEED]
}

/// The canonical text of the command `X`.
pub open spec fn text_of_box_draw(m: BoxDrawModel) -> Seq<u8> {
    seq![0x58u8]
        + decimal_digits(m.h_start)
        + seq![COMMA]
        + decimal_digits(m.v_start)
        + seq![COMMA]
        + decimal_digits(m.line_thickness)
        + seq![COMMA]
        + decimal_digits(m.h_end)
        + seq![COMMA]
        + decimal_digits(m.v_end)
        + seq![LINE_FEED]
}

/// The canonical text of the command `Z`.
pub open spec fn text_of_print_direction(m: PrintDirectionModel) -> Seq<u8> {
    seq![0x5Au8]
        + seq![orientation_letter(m.orientation)]
        + seq![LINE_FEED]
}

/// The canonical text of a command.
pub open spec fn text_of_command(m: CommandModel) -> Seq<u8> {
    match m {
        CommandModel::AsciiText(m) => text_of_ascii_text(m),
        CommandModel::BarCodeStandard(m) => text_of_bar_code_standard(m),
        CommandModel::BarCode2D(m) => text_of_bar_code_2d(m),
        CommandModel::Density(m) => text_of_density(m),
        CommandModel::Graphics(m) => text_of_graphics(m),
        CommandModel::CharacterSetSelection(m) => text_of_character_set_selection(m),
        CommandModel::LineDraw(m) => text_of_line_draw(m),
        CommandModel::ClearImageBuffer => seq![0x4Eu8, LINE_FEED],
        CommandModel::Print(m) => text_of_print(m),
        CommandModel::SetFormWidth(m) => text_of_set_form_width(m),
        CommandModel::SetFormLength(m) => text_of_set_form_length(m),
        CommandModel::SpeedSelect(m) => text_of_speed_select(m),
        CommandModel::PrintConfiguration => seq![0x55u8, LINE_FEED],
        CommandModel::WindowsMode(m) => text_of_windows_mode(m),
        CommandModel::BoxDraw(m) => text_of_box_draw(m),
        CommandModel::PrintDirection(m) => text_of_print_direction(m),
    }
}

/// Appends the byte `b`.
pub fn write_byte(out: &mut Vec<u8>, b: u8)
    ensures
        final(out)@ == old(out)@ + seq![b],
{
    out.push(b);
    assert(out@ =~= old(out)@ + seq![b]);
}

/// Appends the decimal digits of `n`.
pub fn write_number(out: &mut Vec<u8>, n: u32)
    ensures
        final(out)@ == old(out)@ + decimal_digits(n as int),
    decreases n,
{
    if n >= 10 {
        write_number(out, n / 10);
    }
    out.push(0x30 + (n % 10) as u8);
    assert(out@ =~= old(out)@ + decimal_digits(n as int));
}

/// The inside of a string literal is written byte by byte.
pub proof fn lemma_escaped_push(text: Seq<u8>, b: u8)
    ensures
        escaped(text.push(b)) == escaped(text) + escape_of(b),
    decreases text.len(),
{
    let longer = text.push(b);
    if text.len() == 0 {
        assert(longer.len() == 1 && longer[0] == b);
        assert(longer.drop_first() =~= Seq::<u8>::empty());
        assert(escaped(longer.drop_first()) =~= Seq::<u8>::empty());
        assert(escaped(text) =~= Seq::<u8>::empty());
        assert(escaped(longer) =~= escaped(text) + escape_of(b));
    } else {
        assert(text.push(b).drop_first() =~= text.drop_first().push(b));
        lemma_escaped_push(text.drop_first(), b);
        assert(escaped(text.push(b)) =~= escaped(text) + escape_of(b));
    }
}

/// Appends the string literal that holds `text`.
pub fn write_quoted(out: &mut Vec<u8>, text: &Vec<u8>)
    ensures
        final(out)@ == old(out)@ + quoted(text@),
{
    out.push(QUOTE);
    let mut i: usize = 0;
    while i < text.len()
        invariant
            0 <= i <= text.len(),
            out@ == old(out)@ + seq![QUOTE] + escaped(text@.take(i as int)),
        decreases text.len() - i,
    {
        let b = text[i];
        let ghost before = out@;
        proof {
            assert(text@.take(i + 1) =~= text@.take(i as int).push(b));
            lemma_escaped_push(text@.take(i as int), b);
        }
        if b == 0x22 {
            out.push(BACKSLASH);
            out.push(0x22);
        } else if b == 0x5C {
            out.push(BACKSLASH);
            out.push(0x5C);
        } else if b == 0x08 {
            out.push(BACKSLASH);
            out.push(0x62);
        } else if b == 0x0C {
            out.push(BACKSLASH);
            out.push(0x66);
        } else if b == 0x0A {
            out.push(BACKSLASH);
            out.push(0x6E);
        } else if b == 0x0D {
            out.push(BACKSLASH);
            out.push(0x72);
        } else if b == 0x09 {
            out.push(BACKSLASH);
            out.push(0x74);
        } else {
            out.push(b);
        }
        assert(out@ =~= before + escape_of(b));
        i = i + 1;
    }
    out.push(QUOTE);
    proof {
        assert(text@.take(i as int) =~= text@);
        assert(out@ =~= old(out)@ + quoted(text@));
    }
}

/// Appends `bytes` as they are.
pub fn write_block(out: &mut Vec<u8>, bytes: &Vec<u8>)
    ensures
        final(out)@ == old(out)@ + bytes@,
{
    let mut i: usize = 0;
    while i < bytes.len()
        invariant
            0 <= i <= bytes.len(),
            out@ == old(out)@ + bytes@.take(i as int),
        decreases bytes.len() - i,
    {
        out.push(bytes[i]);
        assert(out@ =~= old(out)@ + bytes@.take(i + 1));
        i = i + 1;
    }
    assert(bytes@.take(i as int) =~= bytes@);
}

/// Appends the text of a standard bar code selection.
pub fn write_selection(out: &mut Vec<u8>, selection: BarCodeStandardSelection)
    ensures
        final(out)@ == old(out)@ + selection_text(selection),
{
    out.push(0x31);
    match selection.mode() {
        Some(letter) => {
            out.push(letter);
        },
        None => {},
    }
    assert(out@ =~= old(out)@ + selection_text(selection));
}

/// Appends the text of a code page.
pub fn write_encoding(out: &mut Vec<u8>, encoding: Encoding)
    ensures
        final(out)@ == old(out)@ + encoding_text(encoding),
{
    match encoding.code() {
        Some(code) => {
            write_number(out, code as u32);
        },
        None => {
            match encoding.letter() {
                Some(letter) => {
                    out.push(letter);
                },
                None => {},
            }
            assert(out@ =~= old(out)@ + encoding_text(encoding));
        },
    }
}

/// Appends the three digits of a country code.
pub fn write_country(out: &mut Vec<u8>, country: KDUCountryCode)
    ensures
        final(out)@ == old(out)@ + country_text(country),
{
    let code = country.code();
    out.push(0x30 + (code / 100) as u8);
    out.push(0x30 + ((code / 10) % 10) as u8);
    out.push(0x30 + (code % 10) as u8);
    assert(out@ =~= old(out)@ + country_text(country));
}

impl AsciiText {
    /// The canonical text of the command.
    pub fn to_text(&self) -> (text: Vec<u8>)
        ensures
            text@ == text_of_ascii_text(self@),
    {
        proof {
            use_type_invariant(self);
        }
        let mut text: Vec<u8> = Vec::new();
        text.push(0x41);
        assert(text@ =~= seq![0x41u8]);
        write_number(&mut text, self.h_start() as u32);
        write_byte(&mut text, COMMA);
        write_number(&mut text, self.v_start() as u32);
        write_byte(&mut text, COMMA);
        write_number(&mut text, self.rotation().code() as u32);
        write_byte(&mut text, COMMA);
        write_number(&mut text, self.font_selection().code() as u32);
        write_byte(&mut text, COMMA);
        write_number(&mut text, self.h_mult().multiplier() as u32);
        write_byte(&mut text, COMMA);
        write_number(&mut text, self.v_mult().multiplier() as u32);
        write_byte(&mut text, COMMA);
        write_byte(&mut text, self.reverse().letter());
        write_byte(&mut text, COMMA);
        write_quoted(&mut text, self.data());
        write_byte(&mut text, LINE_FEED);
        text
    }
}

impl BarCodeStandard {
    /// The canonical text of the command.
    pub fn to_text(&self) -> (text: Vec<u8>)
        ensures
            text@ == text_of_bar_code_standard(self@),
    {
        proof {
            use_type_invariant(self);
        }
        let mut text: Vec<u8> = Vec::new();
        text.push(0x42);
        assert(text@ =~= seq![0x42u8]);
        write_number(&mut text, self.h_start() as u32);
        write_byte(&mut text, COMMA);
        write_number(&mut text, self.v_start() as u32);
        write_byte(&mut text, COMMA);
        write_number(&mut text, self.rotation().code() as u32);
        write_byte(&mut text, COMMA);
        write_selection(&mut text, self.bar_code());
        write_byte(&mut text, COMMA);
        write_number(&mut text, self.narrow_width() as u32);
        write_byte(&mut text, COMMA);
        write_number(&mut text, self.wide_width() as u32);
        write_byte(&mut text, COMMA);
        write_number(&mut text, self.bar_code_height() as u32);
        write_byte(&mut text, COMMA);
        write_byte(&mut text, if self.print_human_readable() { 0x42 } else { 0x4E });
        write_byte(&mut text, COMMA);
        write_quoted(&mut text, self.data());
        write_byte(&mut text, LINE_FEED);
        text
    }
}

impl BarCode2D {
    /// The canonical text of the command.
    pub fn to_text(&self) -> (text: Vec<u8>)
        ensures
            text@ == text_of_bar_code_2d(self@),
    {
        proof {
            use_type_invariant(self);
        }
        let mut text: Vec<u8> = Vec::new();
        text.push(0x62);
        assert(text@ =~= seq![0x62u8]);
        write_number(&mut text, self.h_start() as u32);
        write_byte(&mut text, COMMA);
        write_number(&mut text, self.v_start() as u32);
        write_byte(&mut text, COMMA);
        write_byte(&mut text, self.bar_code().letter());
        write_byte(&mut text, COMMA);
        write_number(&mut text, self.max_width() as u32);
        write_byte(&mut text, COMMA);
        write_number(&mut text, self.max_height() as u32);
        write_byte(&mut text, COMMA);
        write_number(&mut text, self.error_correction() as u32);
        write_byte(&mut text, COMMA);
        write_number(&mut text, self.data_compression() as u32);
        write_byte(&mut text, COMMA);
        write_number(&mut text, self.readable_h_start() as u32);
        write_byte(&mut text, COMMA);
        write_number(&mut text, self.readable_v_start() as u32);
        write_byte(&mut text, COMMA);
        write_number(&mut text, self.readable_max_chars() as u32);
        write_byte(&mut text, COMMA);
        write_number(&mut text, self.origin_point() as u32);
        write_byte(&mut text, COMMA);
        write_number(&mut text, self.module_width() as u32);
        write_byte(&mut text, COMMA);
        write_number(&mut text, self.bar_height() as u32);
        write_byte(&mut text, COMMA);
        write_number(&mut text, self.max_rows() as u32);
        write_byte(&mut text, COMMA);
        write_number(&mut text, self.max_cols() as u32);
        write_byte(&mut text, COMMA);
        write_number(&mut text, if self.truncated() { 1 } else { 0 });
        write_byte(&mut text, COMMA);
        write_number(&mut text, self.rotation().code() as u32);
        write_byte(&mut text, COMMA);
        write_number(&mut text, self.data().len() as u32);
        write_byte(&mut text, COMMA);
        write_block(&mut text, self.data());
        text
    }
}

impl Density {
    /// The canonical text of the command.
    pub fn to_text(&self) -> (text: Vec<u8>)
        ensures
            text@ == text_of_density(self@),
    {
        proof {
            use_type_invariant(self);
        }
        let mut text: Vec<u8> = Vec::new();
        text.push(0x44);
        assert(text@ =~= seq![0x44u8]);
        write_number(&mut text, self.setting() as u32);
        write_byte(&mut text, LINE_FEED);
        text
    }
}

impl Graphics {
    /// The canonical text of the command.
    pub fn to_text(&self) -> (text: Vec<u8>)
        ensures
            text@ == text_of_graphics(self@),
    {
        proof {
            use_type_invariant(self);
        }
        let mut text: Vec<u8> = Vec::new();
        text.push(0x47);
        text.push(0x57);
        assert(text@ =~= seq![0x47u8, 0x57u8]);
        write_number(&mut text, self.h_start() as u32);
        write_byte(&mut text, COMMA);
        write_number(&mut text, self.v_start() as u32);
        write_byte(&mut text, COMMA);
        write_number(&mut text, self.graphic_width() as u32);
        write_byte(&mut text, COMMA);
        write_number(&mut text, self.graphic_length() as u32);
        write_byte(&mut text, COMMA);
        write_block(&mut text, self.data());
        text
    }
}

impl CharacterSetSelection {
    /// The canonical text of the command.
    pub fn to_text(&self) -> (text: Vec<u8>)
        ensures
            text@ == text_of_character_set_selection(self@),
    {
        proof {
            use_type_invariant(self);
        }
        let mut text: Vec<u8> = Vec::new();
        text.push(0x49);
        assert(text@ =~= seq![0x49u8]);
        write_number(&mut text, self.number_of_bits().code() as u32);
        write_byte(&mut text, COMMA);
        write_encoding(&mut text, self.language_support());
        write_byte(&mut text, COMMA);
        write_country(&mut text, self.country_code());
        write_byte(&mut text, LINE_FEED);
        text
    }
}

impl LineDraw {
    /// The canonical text of the command.
    pub fn to_text(&self) -> (text: Vec<u8>)
        ensures
            text@ == text_of_line_draw(self@),
    {
        proof {
            use_type_invariant(self);
        }
        let mut text: Vec<u8> = Vec::new();
        text.push(0x4C);
        text.push(0x4F);
        assert(text@ =~= seq![0x4Cu8, 0x4Fu8]);
        write_number(&mut text, self.h_start() as u32);
        write_byte(&mut text, COMMA);
        write_number(&mut text, self.v_start() as u32);
        write_byte(&mut text, COMMA);
        write_number(&mut text, self.h_length() as u32);
        write_byte(&mut text, COMMA);
        write_number(&mut text, self.v_length() as u32);
        write_byte(&mut text, LINE_FEED);
        text
    }
}

impl Print {
    /// The canonical text of the command.
    pub fn to_text(&self) -> (text: Vec<u8>)
        ensures
            text@ == text_of_print(self@),
    {
        proof {
            use_type_invariant(self);
        }
        let mut text: Vec<u8> = Vec::new();
        text.push(0x50);
        assert(text@ =~= seq![0x50u8]);
        write_number(&mut text, self.nmbr_of_sets() as u32);
        write_byte(&mut text, COMMA);
        write_number(&mut text, self.nmbr_of_copies() as u32);
        write_byte(&mut text, LINE_FEED);
        text
    }
}

impl SetFormWidth {
    /// The canonical text of the command.
    pub fn to_text(&self) -> (text: Vec<u8>)
        ensures
            text@ == text_of_set_form_width(self@),
    {
        proof {
            use_type_invariant(self);
        }
        let mut text: Vec<u8> = Vec::new();
        text.push(0x71);
        assert(text@ =~= seq![0x71u8]);
        write_number(&mut text, self.label_width() as u32);
        write_byte(&mut text, LINE_FEED);
        text
    }
}

impl SetFormLength {
    /// The canonical text of the command.
    pub fn to_text(&self) -> (text: Vec<u8>)
        ensures
            text@ == text_of_set_form_length(self@),
    {
        proof {
            use_type_invariant(self);
        }
        let mut text: Vec<u8> = Vec::new();
        text.push(0x51);
        assert(text@ =~= seq![0x51u8]);
        write_number(&mut text, self.label_length() as u32);
        write_byte(&mut text, COMMA);
        write_number(&mut text, self.gap_length() as u32);
        write_byte(&mut text, COMMA);
        write_number(&mut text, self.offset_length() as u32);
        write_byte(&mut text, LINE_FEED);
        text
    }
}

impl SpeedSelect {
    /// The canonical text of the command.
    pub fn to_text(&self) -> (text: Vec<u8>)
        ensures
            text@ == text_of_speed_select(self@),
    {
        proof {
            use_type_invariant(self);
        }
        let mut text: Vec<u8> = Vec::new();
        text.push(0x53);
        assert(text@ =~= seq![0x53u8]);
        write_number(&mut text, self.speed() as u32);
        write_byte(&mut text, LINE_FEED);
        text
    }
}

impl WindowsMode {
    /// The canonical text of the command.
    pub fn to_text(&self) -> (text: Vec<u8>)
        ensures
            text@ == text_of_windows_mode(self@),
    {
        proof {
            use_type_invariant(self);
        }
        let mut text: Vec<u8> = Vec::new();
        text.push(0x57);
        assert(text@ =~= seq![0x57u8]);
        write_byte(&mut text, if self.enabled() { 0x59 } else { 0x4E });
        write_byte(&mut text, LINE_FEED);
        text
    }
}

impl BoxDraw {
    /// The canonical text of the command.
    pub fn to_text(&self) -> (text: Vec<u8>)
        ensures
            text@ == text_of_box_draw(self@),
    {
        proof {
            use_type_invariant(self);
        }
        let mut text: Vec<u8> = Vec::new();
        text.push(0x58);
        assert(text@ =~= seq![0x58u8]);
        write_number(&mut text, self.h_start() as u32);
        write_byte(&mut text, COMMA);
        write_number(&mut text, self.v_start() as u32);
        write_byte(&mut text, COMMA);
        write_number(&mut text, self.line_thickness() as u32);
        write_byte(&mut text, COMMA);
        write_number(&mut text, self.h_end() as u32);
        write_byte(&mut text, COMMA);
        write_number(&mut text, self.v_end() as u32);
        write_byte(&mut text, LINE_FEED);
        text
    }
}

impl PrintDirection {
    /// The canonical text of the command.
    pub fn to_text(&self) -> (text: Vec<u8>)
        ensures
            text@ == text_of_print_direction(self@),
    {
        proof {
            use_type_invariant(self);
        }
        let mut text: Vec<u8> = Vec::new();
        text.push(0x5A);
        assert(text@ =~= seq![0x5Au8]);
        write_byte(&mut text, if self.orientation() == 'T' { 0x54 } else { 0x42 });
        write_byte(&mut text, LINE_FEED);
        text
    }
}

impl Command {
    /// The canonical text of the command.
    pub fn to_text(&self) -> (text: Vec<u8>)
        ensures
            text@ == text_of_command(self@),
    {
        match self {
            Command::AsciiText(command) => command.to_text(),
            Command::BarCodeStandard(command) => command.to_text(),
            Command::BarCode2D(command) => command.to_text(),
            Command::Density(command) => command.to_text(),
            Command::Graphics(command) => command.to_text(),
            Command::CharacterSetSelection(command) => command.to_text(),
            Command::LineDraw(command) => command.to_text(),
            Command::ClearImageBuffer => {
                let mut text: Vec<u8> = Vec::new();
                text.push(0x4E);
                text.push(LINE_FEED);
                assert(text@ =~= text_of_command(self@));
                text
            },
            Command::Print(command) => command.to_text(),
            Command::SetFormWidth(command) => command.to_text(),
            Command::SetFormLength(command) => command.to_text(),
            Command::SpeedSelect(command) => command.to_text(),
            Command::PrintConfiguration => {
                let mut text: Vec<u8> = Vec::new();
                text.push(0x55);
                text.push(LINE_FEED);
                assert(text@ =~= text_of_command(self@));
                text
            },
            Command::WindowsMode(command) => command.to_text(),
            Command::BoxDraw(command) => command.to_text(),
            Command::PrintDirection(command) => command.to_text(),
        }
    }
}

} // verus!
