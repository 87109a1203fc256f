//! The grammar of each command: its tag, then its fields in their fixed
//! order, separated by commas. A text command ends with a line terminator or
//! with the buffer; a command with a raw payload ends with the last byte of
//! the payload, whose length the fields before it declare.
//!
//! A parser that fails leaves the cursor at the start of the command; the
//! error tells where reading stopped.

use vstd::pervasive::unreached;
use vstd::prelude::*;
use crate::commands::{
    AsciiText, AsciiTextModel, BarCode2D, BarCode2DModel, BarCodeStandard, BarCodeStandardModel,
    BoxDraw, BoxDrawModel, CharacterSetSelection, CharacterSetSelectionModel, ClearImageBuffer,
    Density, DensityModel, Graphics, GraphicsModel, LineDraw, LineDrawModel, Print, PrintModel,
    PrintConfiguration, PrintDirection, PrintDirectionModel, SetFormLength, SetFormLengthModel,
    SetFormWidth, SetFormWidthModel, SpeedSelect, SpeedSelectModel, WindowsMode,
    WindowsModeModel,
};
use crate::cursor::ByteCursor;
use crate::error::{DecodeError, ErrorKind, Field};
use crate::fields::{
    parse_bar_code_2d_selection, parse_bar_code_selection, parse_bit_support, parse_choice,
    parse_country_code, parse_encoding, parse_font, parse_h_mult, parse_orientation,
    parse_ranged, parse_reverse, parse_rotation, parse_switch, parse_v_mult,
    spec_bar_code_2d_selection, spec_bar_code_selection, spec_bit_support, spec_choice,
    spec_country_code, spec_encoding, spec_font, spec_h_mult, spec_orientation, spec_ranged,
    spec_reverse, spec_rotation, spec_switch, spec_v_mult,
};
use crate::primitives::{
    binary_block, end_of_command, escaped_string, lemma_escaped_string_follows,
    lemma_integer_follows, lex, parse_integer, spec_binary_block, spec_end_of_command,
    spec_escaped_string, spec_integer, spec_lex, COMMA,
};
use crate::scan::{byte_at, failure, follows, reads, reads_as, Scan};

verus! {

/// Grammar of a one-letter command tag.
pub open spec fn spec_tag(s: Seq<u8>, st: Scan, letter: u8) -> Scan {
    match st {
        Ok(pos) => match byte_at(s, pos) {
            None => Err(failure(ErrorKind::UnexpectedEnd, pos)),
            Some(b) => if b == letter {
                Ok(pos + 1)
            } else {
                Err(failure(ErrorKind::UnknownCommand(b), pos))
            },
        },
        Err(_) => st,
    }
}

/// Grammar of a two-letter command tag: the command letter and the letter of
/// the one subform that is supported. Another subform is an unknown command.
pub open spec fn spec_tag_pair(s: Seq<u8>, st: Scan, letter: u8, subform: u8) -> Scan {
    match spec_tag(s, st, letter) {
        Ok(next) => if byte_at(s, next) == Some(subform) {
            Ok(next + 1)
        } else {
            Err(failure(ErrorKind::UnknownCommand(letter), next - 1))
        },
        Err(e) => Err(e),
    }
}

/// Consumes a one-letter command tag.
pub fn tag(cur: &mut ByteCursor<'_>, letter: u8) -> (r: Result<(), DecodeError>)
    ensures
        reads(
            *old(cur),
            *final(cur),
            r,
            ((), spec_tag(old(cur).buffer(), Ok(old(cur).offset()), letter)),
        ),
{
    let at = cur.position();
    match cur.peek() {
        None => Err(DecodeError { kind: ErrorKind::UnexpectedEnd, position: at }),
        Some(b) => {
            if b == letter {
                cur.advance(1)
            } else {
                Err(DecodeError { kind: ErrorKind::UnknownCommand(b), position: at })
            }
        },
    }
}

/// Consumes a two-letter command tag.
pub fn tag_pair(cur: &mut ByteCursor<'_>, letter: u8, subform: u8) -> (r: Result<(), DecodeError>)
    ensures
        reads(
            *old(cur),
            *final(cur),
            r,
            ((), spec_tag_pair(old(cur).buffer(), Ok(old(cur).offset()), letter, subform)),
        ),
{
    let at = cur.position();
    let mut ahead = *cur;
    tag(&mut ahead, letter)?;
    if ahead.peek() == Some(subform) {
        let _ = ahead.advance(1);
        *cur = ahead;
        Ok(())
    } else {
        Err(DecodeError { kind: ErrorKind::UnknownCommand(letter), position: at })
    }
}

/// Grammar of `A`:
/// `A<h_start>,<v_start>,<rotation>,<font>,<h_mult>,<v_mult>,<reverse>,"<data>"`,
/// then the end of the command.
pub open spec fn spec_ascii_text(s: Seq<u8>, st: Scan) -> (AsciiTextModel, Scan) {
    let st = spec_tag(s, st, 0x41);
    let (h_start, st) = spec_lex(s, spec_integer(s, st));
    let (v_start, st) = spec_lex(s, spec_integer(s, st));
    let (rotation, st) = spec_lex(s, spec_rotation(s, st));
    let (font_selection, st) = spec_lex(s, spec_font(s, st));
    let (h_mult, st) = spec_lex(s, spec_h_mult(s, st));
    let (v_mult, st) = spec_lex(s, spec_v_mult(s, st));
    let (reverse, st) = spec_lex(s, spec_reverse(s, st));
    let (data, st) = spec_escaped_string(s, st);
    let st = spec_end_of_command(s, st);
    (
        AsciiTextModel {
            h_start,
            v_start,
            rotation,
            font_selection,
            h_mult,
            v_mult,
            reverse,
            data,
        },
        st,
    )
}

/// Parses `A`.
pub fn parse_ascii_text(cur: &mut ByteCursor<'_>) -> (r: Result<AsciiText, DecodeError>)
    ensures
        reads_as(
            *old(cur),
            *final(cur),
            r,
            spec_ascii_text(old(cur).buffer(), Ok(old(cur).offset())),
        ),
{
    let mut ahead = *cur;
    tag(&mut ahead, 0x41)?;
    let h_start = lex(parse_integer(&mut ahead), &mut ahead)?;
    let v_start = lex(parse_integer(&mut ahead), &mut ahead)?;
    let rotation = lex(parse_rotation(&mut ahead), &mut ahead)?;
    let font_selection = lex(parse_font(&mut ahead), &mut ahead)?;
    let h_mult = lex(parse_h_mult(&mut ahead), &mut ahead)?;
    let v_mult = lex(parse_v_mult(&mut ahead), &mut ahead)?;
    let reverse = lex(parse_reverse(&mut ahead), &mut ahead)?;
    let data = escaped_string(&mut ahead)?;
    end_of_command(&mut ahead)?;
    match AsciiText::new(
        h_start,
        v_start,
        rotation,
        font_selection,
        h_mult,
        v_mult,
        reverse,
        data,
    ) {
        Some(command) => {
            *cur = ahead;
            Ok(command)
        },
        None => unreached(),
    }
}

/// Reading `A` only moves forward, and an error is placed inside the
/// command. What is read is at least one byte long, and valid.
pub proof fn lemma_ascii_text_reads(s: Seq<u8>, pos: int)
    ensures
        follows(s, Ok(pos), spec_ascii_text(s, Ok(pos)).1),
        spec_ascii_text(s, Ok(pos)).1 is Ok ==> pos < spec_ascii_text(s, Ok(pos)).1->Ok_0,
        0 <= pos && spec_ascii_text(s, Ok(pos)).1 is Ok ==> spec_ascii_text(s, Ok(pos)).0.valid(),
{
    broadcast use {lemma_integer_follows, lemma_escaped_string_follows};

}

/// Grammar of `B`:
/// `B<h_start>,<v_start>,<rotation>,<bar_code>,<narrow_width>,<wide_width>,`
/// `<bar_code_height>,<print_human_readable>,"<data>"`, then the end of the
/// command.
pub open spec fn spec_bar_code_standard(s: Seq<u8>, st: Scan) -> (BarCodeStandardModel, Scan) {
    let st = spec_tag(s, st, 0x42);
    let (h_start, st) = spec_lex(s, spec_integer(s, st));
    let (v_start, st) = spec_lex(s, spec_integer(s, st));
    let (rotation, st) = spec_lex(s, spec_rotation(s, st));
    let (bar_code, st) = spec_lex(s, spec_bar_code_selection(s, st));
    let (narrow_width, st) = spec_lex(s, spec_integer(s, st));
    let (wide_width, st) = spec_lex(s, spec_ranged(s, st, 2, 30, Field::WideBarWidth));
    let (bar_code_height, st) = spec_lex(s, spec_integer(s, st));
    let (print_human_readable, st) = spec_lex(
        s,
        spec_choice(s, st, 0x42, 0x4E, Field::PrintHumanReadable),
    );
    let (data, st) = spec_escaped_string(s, st);
    let st = spec_end_of_command(s, st);
    (
        BarCodeStandardModel {
            h_start,
            v_start,
            rotation,
            bar_code,
            narrow_width,
            wide_width,
            bar_code_height,
            print_human_readable,
            data,
        },
        st,
    )
}

/// Parses `B`.
pub fn parse_bar_code_standard(
    cur: &mut ByteCursor<'_>,
) -> (r: Result<BarCodeStandard, DecodeError>)
    ensures
        reads_as(
            *old(cur),
            *final(cur),
            r,
            spec_bar_code_standard(old(cur).buffer(), Ok(old(cur).offset())),
        ),
{
    let mut ahead = *cur;
    tag(&mut ahead, 0x42)?;
    let h_start = lex(parse_integer(&mut ahead), &mut ahead)?;
    let v_start = lex(parse_integer(&mut ahead), &mut ahead)?;
    let rotation = lex(parse_rotation(&mut ahead), &mut ahead)?;
    let bar_code = lex(parse_bar_code_selection(&mut ahead), &mut ahead)?;
    let narrow_width = lex(parse_integer(&mut ahead), &mut ahead)?;
    let wide_width = lex(parse_ranged(&mut ahead, 2, 30, Field::WideBarWidth), &mut ahead)?;
    let bar_code_height = lex(parse_integer(&mut ahead), &mut ahead)?;
    let print_human_readable = lex(
        parse_choice(&mut ahead, 0x42, 0x4E, Field::PrintHumanReadable),
        &mut ahead,
    )?;
    let data = escaped_string(&mut ahead)?;
    end_of_command(&mut ahead)?;
    match BarCodeStandard::new(
        h_start,
        v_start,
        rotation,
        bar_code,
        narrow_width,
        wide_width,
        bar_code_height,
        print_human_readable,
        data,
    ) {
        Some(command) => {
            *cur = ahead;
            Ok(command)
        },
        None => unreached(),
    }
}

/// Reading `B` only moves forward, and an error is placed inside the
/// command. What is read is at least one byte long, and valid.
pub proof fn lemma_bar_code_standard_reads(s: Seq<u8>, pos: int)
    ensures
        follows(s, Ok(pos), spec_bar_code_standard(s, Ok(pos)).1),
        spec_bar_code_standard(
            s,
            Ok(pos),
        ).1 is Ok ==> pos < spec_bar_code_standard(s, Ok(pos)).1->Ok_0,
        0 <= pos && spec_bar_code_standard(
            s,
            Ok(pos),
        ).1 is Ok ==> spec_bar_code_standard(s, Ok(pos)).0.valid(),
{
    broadcast use {lemma_integer_follows, lemma_escaped_string_follows};

}

/// Grammar of `D`: `D<setting>`, then the end of the command.
pub open spec fn spec_density(s: Seq<u8>, st: Scan) -> (DensityModel, Scan) {
    let st = spec_tag(s, st, 0x44);
    let (setting, st) = spec_ranged(s, st, 0, 15, Field::Density);
    let st = spec_end_of_command(s, st);
    (DensityModel { setting }, st)
}

/// Parses `D`.
pub fn parse_density(cur: &mut ByteCursor<'_>) -> (r: Result<Density, DecodeError>)
    ensures
        reads_as(*old(cur), *final(cur), r, spec_density(old(cur).buffer(), Ok(old(cur).offset()))),
{
    let mut ahead = *cur;
    tag(&mut ahead, 0x44)?;
    let setting = parse_ranged(&mut ahead, 0, 15, Field::Density)?;
    end_of_command(&mut ahead)?;
    match Density::new(setting) {
        Some(command) => {
            *cur = ahead;
            Ok(command)
        },
        None => unreached(),
    }
}

/// Reading `D` only moves forward, and an error is placed inside the
/// command. What is read is at least one byte long, and valid.
pub proof fn lemma_density_reads(s: Seq<u8>, pos: int)
    ensures
        follows(s, Ok(pos), spec_density(s, Ok(pos)).1),
        spec_density(s, Ok(pos)).1 is Ok ==> pos < spec_density(s, Ok(pos)).1->Ok_0,
        0 <= pos && spec_density(s, Ok(pos)).1 is Ok ==> spec_density(s, Ok(pos)).0.valid(),
{
    broadcast use {lemma_integer_follows, lemma_escaped_string_follows};

}

/// Grammar of `b`: `b<h_start>,<v_start>,<bar_code>,<max_width>,<max_height>,`
/// `<error_correction>,<data_compression>,<readable_h_start>,<readable_v_start>,`
/// `<readable_max_chars>,<origin_point>,<module_width>,<bar_height>,<max_rows>,`
/// `<max_cols>,<truncated>,<rotation>,<length>,` and then a raw payload of
/// `length` bytes.
pub open spec fn spec_bar_code_2d(s: Seq<u8>, st: Scan) -> (BarCode2DModel, Scan) {
    let st = spec_tag(s, st, 0x62);
    let (h_start, st) = spec_lex(s, spec_integer(s, st));
    let (v_start, st) = spec_lex(s, spec_integer(s, st));
    let (bar_code, st) = spec_lex(s, spec_bar_code_2d_selection(s, st));
    let (max_width, st) = spec_lex(s, spec_integer(s, st));
    let (max_height, st) = spec_lex(s, spec_integer(s, st));
    let (error_correction, st) = spec_lex(s, spec_integer(s, st));
    let (data_compression, st) = spec_lex(s, spec_integer(s, st));
    let (readable_h_start, st) = spec_lex(s, spec_integer(s, st));
    let (readable_v_start, st) = spec_lex(s, spec_integer(s, st));
    let (readable_max_chars, st) = spec_lex(s, spec_integer(s, st));
    let (origin_point, st) = spec_lex(s, spec_ranged(s, st, 0, 1, Field::OriginPoint));
    let (module_width, st) = spec_lex(s, spec_integer(s, st));
    let (bar_height, st) = spec_lex(s, spec_integer(s, st));
    let (max_rows, st) = spec_lex(s, spec_integer(s, st));
    let (max_cols, st) = spec_lex(s, spec_integer(s, st));
    let (truncated, st) = spec_lex(s, spec_switch(s, st, Field::Truncated));
    let (rotation, st) = spec_lex(s, spec_rotation(s, st));
    let (length, st) = spec_lex(s, spec_integer(s, st));
    let (data, st) = spec_binary_block(s, st, length);
    (
        BarCode2DModel {
            h_start,
            v_start,
            bar_code,
            max_width,
            max_height,
            error_correction,
            data_compression,
            readable_h_start,
            readable_v_start,
            readable_max_chars,
            origin_point,
            module_width,
            bar_height,
            max_rows,
            max_cols,
            truncated,
            rotation,
            data,
        },
        st,
    )
}

/// Parses `b`.
pub fn parse_bar_code_2d(cur: &mut ByteCursor<'_>) -> (r: Result<BarCode2D, DecodeError>)
    ensures
        reads_as(
            *old(cur),
            *final(cur),
            r,
            spec_bar_code_2d(old(cur).buffer(), Ok(old(cur).offset())),
        ),
{
    let mut ahead = *cur;
    tag(&mut ahead, 0x62)?;
    let h_start = lex(parse_integer(&mut ahead), &mut ahead)?;
    let v_start = lex(parse_integer(&mut ahead), &mut ahead)?;
    let bar_code = lex(parse_bar_code_2d_selection(&mut ahead), &mut ahead)?;
    let max_width = lex(parse_integer(&mut ahead), &mut ahead)?;
    let max_height = lex(parse_integer(&mut ahead), &mut ahead)?;
    let error_correction = lex(parse_integer(&mut ahead), &mut ahead)?;
    let data_compression = lex(parse_integer(&mut ahead), &mut ahead)?;
    let readable_h_start = lex(parse_integer(&mut ahead), &mut ahead)?;
    let readable_v_start = lex(parse_integer(&mut ahead), &mut ahead)?;
    let readable_max_chars = lex(parse_integer(&mut ahead), &mut ahead)?;
    let origin_point = lex(parse_ranged(&mut ahead, 0, 1, Field::OriginPoint), &mut ahead)?;
    let module_width = lex(parse_integer(&mut ahead), &mut ahead)?;
    let bar_height = lex(parse_integer(&mut ahead), &mut ahead)?;
    let max_rows = lex(parse_integer(&mut ahead), &mut ahead)?;
    let max_cols = lex(parse_integer(&mut ahead), &mut ahead)?;
    let truncated = lex(parse_switch(&mut ahead, Field::Truncated), &mut ahead)?;
    let rotation = lex(parse_rotation(&mut ahead), &mut ahead)?;
    let length = lex(parse_integer(&mut ahead), &mut ahead)?;
    let data = binary_block(&mut ahead, length as usize)?;
    match BarCode2D::new(
        h_start,
        v_start,
        bar_code,
        max_width,
        max_height,
        error_correction,
        data_compression,
        readable_h_start,
        readable_v_start,
        readable_max_chars,
        origin_point,
        module_width,
        bar_height,
        max_rows,
        max_cols,
        truncated,
        rotation,
        data,
    ) {
        Some(command) => {
            *cur = ahead;
            Ok(command)
        },
        None => unreached(),
    }
}

/// Reading `b` only moves forward, and an error is placed inside the
/// command. What is read is at least one byte long, and valid.
#[verifier::rlimit(60)]
pub proof fn lemma_bar_code_2d_reads(s: Seq<u8>, pos: int)
    ensures
        follows(s, Ok(pos), spec_bar_code_2d(s, Ok(pos)).1),
        spec_bar_code_2d(s, Ok(pos)).1 is Ok ==> pos < spec_bar_code_2d(s, Ok(pos)).1->Ok_0,
        0 <= pos && spec_bar_code_2d(s, Ok(pos)).1 is Ok ==> spec_bar_code_2d(s, Ok(pos)).0.valid(),
{
    broadcast use {lemma_integer_follows, lemma_escaped_string_follows};

}

/// Grammar of `GW`: `GW<h_start>,<v_start>,<graphic_width>,<graphic_length>,`
/// and then a raw payload of `graphic_width` times `graphic_length` bytes.
pub open spec fn spec_graphics(s: Seq<u8>, st: Scan) -> (GraphicsModel, Scan) {
    let st = spec_tag_pair(s, st, 0x47, 0x57);
    let (h_start, st) = spec_lex(s, spec_integer(s, st));
    let (v_start, st) = spec_lex(s, spec_integer(s, st));
    let (graphic_width, st) = spec_lex(s, spec_integer(s, st));
    let (graphic_length, st) = spec_lex(s, spec_integer(s, st));
    let (data, st) = spec_binary_block(s, st, graphic_width * graphic_length);
    (GraphicsModel { h_start, v_start, graphic_width, graphic_length, data }, st)
}

/// Parses `GW`.
pub fn parse_graphics(cur: &mut ByteCursor<'_>) -> (r: Result<Graphics, DecodeError>)
    ensures
        reads_as(
            *old(cur),
            *final(cur),
            r,
            spec_graphics(old(cur).buffer(), Ok(old(cur).offset())),
        ),
{
    let mut ahead = *cur;
    tag_pair(&mut ahead, 0x47, 0x57)?;
    let h_start = lex(parse_integer(&mut ahead), &mut ahead)?;
    let v_start = lex(parse_integer(&mut ahead), &mut ahead)?;
    let graphic_width = lex(parse_integer(&mut ahead), &mut ahead)?;
    let graphic_length = lex(parse_integer(&mut ahead), &mut ahead)?;
    let length = Graphics::payload_length(graphic_width as u32, graphic_length as u32);
    if length > ahead.remaining() as u64 {
        return Err(DecodeError { kind: ErrorKind::UnexpectedEnd, position: ahead.position() });
    }
    let data = binary_block(&mut ahead, length as usize)?;
    match Graphics::new(h_start, v_start, graphic_width, graphic_length, data) {
        Some(command) => {
            *cur = ahead;
            Ok(command)
        },
        None => unreached(),
    }
}

/// Reading `GW` only moves forward, and an error is placed inside the
/// command. What is read is at least one byte long, and valid.
pub proof fn lemma_graphics_reads(s: Seq<u8>, pos: int)
    ensures
        follows(s, Ok(pos), spec_graphics(s, Ok(pos)).1),
        spec_graphics(s, Ok(pos)).1 is Ok ==> pos < spec_graphics(s, Ok(pos)).1->Ok_0,
        0 <= pos && spec_graphics(s, Ok(pos)).1 is Ok ==> spec_graphics(s, Ok(pos)).0.valid(),
{
    broadcast use {lemma_integer_follows, lemma_escaped_string_follows};

}

/// Grammar of `I`: `I<number_of_bits>,<language_support>,<country_code>`, then
/// the end of the command.
pub open spec fn spec_character_set_selection(
    s: Seq<u8>,
    st: Scan,
) -> (CharacterSetSelectionModel, Scan) {
    let st = spec_tag(s, st, 0x49);
    let (number_of_bits, st) = spec_lex(s, spec_bit_support(s, st));
    let (language_support, st) = spec_lex(s, spec_encoding(s, st));
    let (country_code, st) = spec_country_code(s, st);
    let st = spec_end_of_command(s, st);
    (CharacterSetSelectionModel { number_of_bits, language_support, country_code }, st)
}

/// Parses `I`.
pub fn parse_character_set_selection(
    cur: &mut ByteCursor<'_>,
) -> (r: Result<CharacterSetSelection, DecodeError>)
    ensures
        reads_as(
            *old(cur),
            *final(cur),
            r,
            spec_character_set_selection(old(cur).buffer(), Ok(old(cur).offset())),
        ),
{
    let mut ahead = *cur;
    tag(&mut ahead, 0x49)?;
    let number_of_bits = lex(parse_bit_support(&mut ahead), &mut ahead)?;
    let language_support = lex(parse_encoding(&mut ahead), &mut ahead)?;
    let country_code = parse_country_code(&mut ahead)?;
    end_of_command(&mut ahead)?;
    *cur = ahead;
    Ok(CharacterSetSelection::new(number_of_bits, language_support, country_code))
}

/// Reading `I` only moves forward, and an error is placed inside the
/// command. What is read is at least one byte long, and valid.
pub proof fn lemma_character_set_selection_reads(s: Seq<u8>, pos: int)
    ensures
        follows(s, Ok(pos), spec_character_set_selection(s, Ok(pos)).1),
        spec_character_set_selection(
            s,
            Ok(pos),
        ).1 is Ok ==> pos < spec_character_set_selection(s, Ok(pos)).1->Ok_0,
        0 <= pos && spec_character_set_selection(
            s,
            Ok(pos),
        ).1 is Ok ==> spec_character_set_selection(s, Ok(pos)).0.valid(),
{
    broadcast use {lemma_integer_follows, lemma_escaped_string_follows};

}

/// Grammar of `LO`: `LO<h_start>,<v_start>,<h_length>,<v_length>`, then the end of the command.
pub open spec fn spec_line_draw(s: Seq<u8>, st: Scan) -> (LineDrawModel, Scan) {
    let st = spec_tag_pair(s, st, 0x4C, 0x4F);
    let (h_start, st) = spec_lex(s, spec_integer(s, st));
    let (v_start, st) = spec_lex(s, spec_integer(s, st));
    let (h_length, st) = spec_lex(s, spec_integer(s, st));
    let (v_length, st) = spec_integer(s, st);
    let st = spec_end_of_command(s, st);
    (LineDrawModel { h_start, v_start, h_length, v_length }, st)
}

/// Parses `LO`.
pub fn parse_line_draw(cur: &mut ByteCursor<'_>) -> (r: Result<LineDraw, DecodeError>)
    ensures
        reads_as(
            *old(cur),
            *final(cur),
            r,
            spec_line_draw(old(cur).buffer(), Ok(old(cur).offset())),
        ),
{
    let mut ahead = *cur;
    tag_pair(&mut ahead, 0x4C, 0x4F)?;
    let h_start = lex(parse_integer(&mut ahead), &mut ahead)?;
    let v_start = lex(parse_integer(&mut ahead), &mut ahead)?;
    let h_length = lex(parse_integer(&mut ahead), &mut ahead)?;
    let v_length = parse_integer(&mut ahead)?;
    end_of_command(&mut ahead)?;
    match LineDraw::new(h_start, v_start, h_length, v_length) {
        Some(command) => {
            *cur = ahead;
            Ok(command)
        },
        None => unreached(),
    }
}

/// Reading `LO` only moves forward, and an error is placed inside the
/// command. What is read is at least one byte long, and valid.
pub proof fn lemma_line_draw_reads(s: Seq<u8>, pos: int)
    ensures
        follows(s, Ok(pos), spec_line_draw(s, Ok(pos)).1),
        spec_line_draw(s, Ok(pos)).1 is Ok ==> pos < spec_line_draw(s, Ok(pos)).1->Ok_0,
        0 <= pos && spec_line_draw(s, Ok(pos)).1 is Ok ==> spec_line_draw(s, Ok(pos)).0.valid(),
{
    broadcast use {lemma_integer_follows, lemma_escaped_string_follows};

}

/// Grammar of `N`: the letter, then the end of the command.
pub open spec fn spec_clear_image_buffer(s: Seq<u8>, st: Scan) -> Scan {
    spec_end_of_command(s, spec_tag(s, st, 0x4E))
}

/// Parses `N`.
pub fn parse_clear_image_buffer(cur: &mut ByteCursor<'_>) -> (r: Result<
    ClearImageBuffer,
    DecodeError,
>)
    ensures
        reads(
            *old(cur),
            *final(cur),
            r,
            (ClearImageBuffer, spec_clear_image_buffer(old(cur).buffer(), Ok(old(cur).offset()))),
        ),
{
    let mut ahead = *cur;
    tag(&mut ahead, 0x4E)?;
    end_of_command(&mut ahead)?;
    *cur = ahead;
    Ok(ClearImageBuffer)
}

/// Reading `N` only moves forward, and an error is placed inside the
/// command. What is read is at least one byte long.
pub proof fn lemma_clear_image_buffer_reads(s: Seq<u8>, pos: int)
    ensures
        follows(s, Ok(pos), spec_clear_image_buffer(s, Ok(pos))),
        spec_clear_image_buffer(
            s,
            Ok(pos),
        ) is Ok ==> pos < spec_clear_image_buffer(s, Ok(pos))->Ok_0,
{
    broadcast use {lemma_integer_follows, lemma_escaped_string_follows};

}


/// Grammar of the optional second field of `P`: a comma and a number of
/// copies from 1 to 65535, or nothing, which asks for one copy.
pub open spec fn spec_copies(s: Seq<u8>, st: Scan) -> (int, Scan) {
    match st {
        Ok(pos) => if byte_at(s, pos) == Some(COMMA) {
            spec_ranged(s, Ok(pos + 1), 1, 65535, Field::Copies)
        } else {
            (1, st)
        },
        Err(_) => (0, st),
    }
}

/// Grammar of `P`: `P<nmbr_of_sets>` or `P<nmbr_of_sets>,<nmbr_of_copies>`,
/// then the end of the command.
pub open spec fn spec_print(s: Seq<u8>, st: Scan) -> (PrintModel, Scan) {
    let st = spec_tag(s, st, 0x50);
    let (nmbr_of_sets, st) = spec_ranged(s, st, 1, 65535, Field::Sets);
    let (nmbr_of_copies, st) = spec_copies(s, st);
    let st = spec_end_of_command(s, st);
    (PrintModel { nmbr_of_sets, nmbr_of_copies }, st)
}

/// Parses `P`.
pub fn parse_print(cur: &mut ByteCursor<'_>) -> (r: Result<Print, DecodeError>)
    ensures
        reads_as(*old(cur), *final(cur), r, spec_print(old(cur).buffer(), Ok(old(cur).offset()))),
{
    let mut ahead = *cur;
    tag(&mut ahead, 0x50)?;
    let nmbr_of_sets = parse_ranged(&mut ahead, 1, 65535, Field::Sets)?;
    let nmbr_of_copies = if ahead.peek() == Some(COMMA) {
        let _ = ahead.advance(1);
        parse_ranged(&mut ahead, 1, 65535, Field::Copies)?
    } else {
        1
    };
    end_of_command(&mut ahead)?;
    match Print::new(nmbr_of_sets, nmbr_of_copies) {
        Some(command) => {
            *cur = ahead;
            Ok(command)
        },
        None => unreached(),
    }
}

/// Reading `P` only moves forward, and an error is placed inside the
/// command. What is read is at least one byte long, and valid.
pub proof fn lemma_print_reads(s: Seq<u8>, pos: int)
    ensures
        follows(s, Ok(pos), spec_print(s, Ok(pos)).1),
        spec_print(s, Ok(pos)).1 is Ok ==> pos < spec_print(s, Ok(pos)).1->Ok_0,
        0 <= pos && spec_print(s, Ok(pos)).1 is Ok ==> spec_print(s, Ok(pos)).0.valid(),
{
    broadcast use {lemma_integer_follows, lemma_escaped_string_follows};

}

/// Grammar of `q`: `q<label_width>`, then the end of the command.
pub open spec fn spec_set_form_width(s: Seq<u8>, st: Scan) -> (SetFormWidthModel, Scan) {
    let st = spec_tag(s, st, 0x71);
    let (label_width, st) = spec_integer(s, st);
    let st = spec_end_of_command(s, st);
    (SetFormWidthModel { label_width }, st)
}

/// Parses `q`.
pub fn parse_set_form_width(cur: &mut ByteCursor<'_>) -> (r: Result<SetFormWidth, DecodeError>)
    ensures
        reads_as(
            *old(cur),
            *final(cur),
            r,
            spec_set_form_width(old(cur).buffer(), Ok(old(cur).offset())),
        ),
{
    let mut ahead = *cur;
    tag(&mut ahead, 0x71)?;
    let label_width = parse_integer(&mut ahead)?;
    end_of_command(&mut ahead)?;
    match SetFormWidth::new(label_width) {
        Some(command) => {
            *cur = ahead;
            Ok(command)
        },
        None => unreached(),
    }
}

/// Reading `q` only moves forward, and an error is placed inside the
/// command. What is read is at least one byte long, and valid.
pub proof fn lemma_set_form_width_reads(s: Seq<u8>, pos: int)
    ensures
        follows(s, Ok(pos), spec_set_form_width(s, Ok(pos)).1),
        spec_set_form_width(s, Ok(pos)).1 is Ok ==> pos < spec_set_form_width(s, Ok(pos)).1->Ok_0,
        0 <= pos && spec_set_form_width(
            s,
            Ok(pos),
        ).1 is Ok ==> spec_set_form_width(s, Ok(pos)).0.valid(),
{
    broadcast use {lemma_integer_follows, lemma_escaped_string_follows};

}

/// Grammar of `Q`: `Q<label_length>,<gap_length>,<offset_length>`, then the end of the command.
pub open spec fn spec_set_form_length(s: Seq<u8>, st: Scan) -> (SetFormLengthModel, Scan) {
    let st = spec_tag(s, st, 0x51);
    let (label_length, st) = spec_lex(s, spec_ranged(s, st, 0, 0xFFFF, Field::LabelLength));
    let (gap_length, st) = spec_lex(s, spec_ranged(s, st, 0, 0xFFFF, Field::GapLength));
    let (offset_length, st) = spec_ranged(s, st, 0, 0xFFFF, Field::OffsetLength);
    let st = spec_end_of_command(s, st);
    (SetFormLengthModel { label_length, gap_length, offset_length }, st)
}

/// Parses `Q`.
pub fn parse_set_form_length(cur: &mut ByteCursor<'_>) -> (r: Result<SetFormLength, DecodeError>)
    ensures
        reads_as(
            *old(cur),
            *final(cur),
            r,
            spec_set_form_length(old(cur).buffer(), Ok(old(cur).offset())),
        ),
{
    let mut ahead = *cur;
    tag(&mut ahead, 0x51)?;
    let label_length = lex(
        parse_ranged(&mut ahead, 0, 0xFFFF, Field::LabelLength),
        &mut ahead,
    )? as u16;
    let gap_length = lex(parse_ranged(&mut ahead, 0, 0xFFFF, Field::GapLength), &mut ahead)? as u16;
    let offset_length = parse_ranged(&mut ahead, 0, 0xFFFF, Field::OffsetLength)? as u16;
    end_of_command(&mut ahead)?;
    *cur = ahead;
    Ok(SetFormLength::new(label_length, gap_length, offset_length))
}

/// Reading `Q` only moves forward, and an error is placed inside the
/// command. What is read is at least one byte long, and valid.
pub proof fn lemma_set_form_length_reads(s: Seq<u8>, pos: int)
    ensures
        follows(s, Ok(pos), spec_set_form_length(s, Ok(pos)).1),
        spec_set_form_length(s, Ok(pos)).1 is Ok ==> pos < spec_set_form_length(s, Ok(pos)).1->Ok_0,
        0 <= pos && spec_set_form_length(
            s,
            Ok(pos),
        ).1 is Ok ==> spec_set_form_length(s, Ok(pos)).0.valid(),
{
    broadcast use {lemma_integer_follows, lemma_escaped_string_follows};

}

/// Grammar of `S`: `S<speed>`, then the end of the command.
pub open spec fn spec_speed_select(s: Seq<u8>, st: Scan) -> (SpeedSelectModel, Scan) {
    let st = spec_tag(s, st, 0x53);
    let (speed, st) = spec_ranged(s, st, 0, 0xFF, Field::Speed);
    let st = spec_end_of_command(s, st);
    (SpeedSelectModel { speed }, st)
}

/// Parses `S`.
pub fn parse_speed_select(cur: &mut ByteCursor<'_>) -> (r: Result<SpeedSelect, DecodeError>)
    ensures
        reads_as(
            *old(cur),
            *final(cur),
            r,
            spec_speed_select(old(cur).buffer(), Ok(old(cur).offset())),
        ),
{
    let mut ahead = *cur;
    tag(&mut ahead, 0x53)?;
    let speed = parse_ranged(&mut ahead, 0, 0xFF, Field::Speed)? as u8;
    end_of_command(&mut ahead)?;
    *cur = ahead;
    Ok(SpeedSelect::new(speed))
}

/// Reading `S` only moves forward, and an error is placed inside the
/// command. What is read is at least one byte long, and valid.
pub proof fn lemma_speed_select_reads(s: Seq<u8>, pos: int)
    ensures
        follows(s, Ok(pos), spec_speed_select(s, Ok(pos)).1),
        spec_speed_select(s, Ok(pos)).1 is Ok ==> pos < spec_speed_select(s, Ok(pos)).1->Ok_0,
        0 <= pos && spec_speed_select(
            s,
            Ok(pos),
        ).1 is Ok ==> spec_speed_select(s, Ok(pos)).0.valid(),
{
    broadcast use {lemma_integer_follows, lemma_escaped_string_follows};

}

/// Grammar of `U`: the letter, then the end of the command.
pub open spec fn spec_print_configuration(s: Seq<u8>, st: Scan) -> Scan {
    spec_end_of_command(s, spec_tag(s, st, 0x55))
}

/// Parses `U`.
pub fn parse_print_configuration(cur: &mut ByteCursor<'_>) -> (r: Result<
    PrintConfiguration,
    DecodeError,
>)
    ensures
        reads(
            *old(cur),
            *final(cur),
            r,
            (
                PrintConfiguration,
                spec_print_configuration(old(cur).buffer(), Ok(old(cur).offset())),
            ),
        ),
{
    let mut ahead = *cur;
    tag(&mut ahead, 0x55)?;
    end_of_command(&mut ahead)?;
    *cur = ahead;
    Ok(PrintConfiguration)
}

/// Reading `U` only moves forward, and an error is placed inside the
/// command. What is read is at least one byte long.
pub proof fn lemma_print_configuration_reads(s: Seq<u8>, pos: int)
    ensures
        follows(s, Ok(pos), spec_print_configuration(s, Ok(pos))),
        spec_print_configuration(
            s,
            Ok(pos),
        ) is Ok ==> pos < spec_print_configuration(s, Ok(pos))->Ok_0,
{
    broadcast use {lemma_integer_follows, lemma_escaped_string_follows};

}

/// Grammar of `W`: `W<enabled>`, then the end of the command.
pub open spec fn spec_windows_mode(s: Seq<u8>, st: Scan) -> (WindowsModeModel, Scan) {
    let st = spec_tag(s, st, 0x57);
    let (enabled, st) = spec_choice(s, st, 0x59, 0x4E, Field::WindowsMode);
    let st = spec_end_of_command(s, st);
    (WindowsModeModel { enabled }, st)
}

/// Parses `W`.
pub fn parse_windows_mode(cur: &mut ByteCursor<'_>) -> (r: Result<WindowsMode, DecodeError>)
    ensures
        reads_as(
            *old(cur),
            *final(cur),
            r,
            spec_windows_mode(old(cur).buffer(), Ok(old(cur).offset())),
        ),
{
    let mut ahead = *cur;
    tag(&mut ahead, 0x57)?;
    let enabled = parse_choice(&mut ahead, 0x59, 0x4E, Field::WindowsMode)?;
    end_of_command(&mut ahead)?;
    *cur = ahead;
    Ok(WindowsMode::new(enabled))
}

/// Reading `W` only moves forward, and an error is placed inside the
/// command. What is read is at least one byte long, and valid.
pub proof fn lemma_windows_mode_reads(s: Seq<u8>, pos: int)
    ensures
        follows(s, Ok(pos), spec_windows_mode(s, Ok(pos)).1),
        spec_windows_mode(s, Ok(pos)).1 is Ok ==> pos < spec_windows_mode(s, Ok(pos)).1->Ok_0,
        0 <= pos && spec_windows_mode(
            s,
            Ok(pos),
        ).1 is Ok ==> spec_windows_mode(s, Ok(pos)).0.valid(),
{
    broadcast use {lemma_integer_follows, lemma_escaped_string_follows};

}

/// Grammar of `X`: `X<h_start>,<v_start>,<line_thickness>,<h_end>,<v_end>`,
/// then the end of the command.
pub open spec fn spec_box_draw(s: Seq<u8>, st: Scan) -> (BoxDrawModel, Scan) {
    let st = spec_tag(s, st, 0x58);
    let (h_start, st) = spec_lex(s, spec_integer(s, st));
    let (v_start, st) = spec_lex(s, spec_integer(s, st));
    let (line_thickness, st) = spec_lex(s, spec_integer(s, st));
    let (h_end, st) = spec_lex(s, spec_integer(s, st));
    let (v_end, st) = spec_integer(s, st);
    let st = spec_end_of_command(s, st);
    (BoxDrawModel { h_start, v_start, line_thickness, h_end, v_end }, st)
}

/// Parses `X`.
pub fn parse_box_draw(cur: &mut ByteCursor<'_>) -> (r: Result<BoxDraw, DecodeError>)
    ensures
        reads_as(
            *old(cur),
            *final(cur),
            r,
            spec_box_draw(old(cur).buffer(), Ok(old(cur).offset())),
        ),
{
    let mut ahead = *cur;
    tag(&mut ahead, 0x58)?;
    let h_start = lex(parse_integer(&mut ahead), &mut ahead)?;
    let v_start = lex(parse_integer(&mut ahead), &mut ahead)?;
    let line_thickness = lex(parse_integer(&mut ahead), &mut ahead)?;
    let h_end = lex(parse_integer(&mut ahead), &mut ahead)?;
    let v_end = parse_integer(&mut ahead)?;
    end_of_command(&mut ahead)?;
    match BoxDraw::new(h_start, v_start, line_thickness, h_end, v_end) {
        Some(command) => {
            *cur = ahead;
            Ok(command)
        },
        None => unreached(),
    }
}

/// Reading `X` only moves forward, and an error is placed inside the
/// command. What is read is at least one byte long, and valid.
pub proof fn lemma_box_draw_reads(s: Seq<u8>, pos: int)
    ensures
        follows(s, Ok(pos), spec_box_draw(s, Ok(pos)).1),
        spec_box_draw(s, Ok(pos)).1 is Ok ==> pos < spec_box_draw(s, Ok(pos)).1->Ok_0,
        0 <= pos && spec_box_draw(s, Ok(pos)).1 is Ok ==> spec_box_draw(s, Ok(pos)).0.valid(),
{
    broadcast use {lemma_integer_follows, lemma_escaped_string_follows};

}

/// Grammar of `Z`: `Z<orientation>`, then the end of the command.
pub open spec fn spec_print_direction(s: Seq<u8>, st: Scan) -> (PrintDirectionModel, Scan) {
    let st = spec_tag(s, st, 0x5A);
    let (orientation, st) = spec_orientation(s, st);
    let st = spec_end_of_command(s, st);
    (PrintDirectionModel { orientation }, st)
}

/// Parses `Z`.
pub fn parse_print_direction(cur: &mut ByteCursor<'_>) -> (r: Result<PrintDirection, DecodeError>)
    ensures
        reads_as(
            *old(cur),
            *final(cur),
            r,
            spec_print_direction(old(cur).buffer(), Ok(old(cur).offset())),
        ),
{
    let mut ahead = *cur;
    tag(&mut ahead, 0x5A)?;
    let orientation = parse_orientation(&mut ahead)?;
    end_of_command(&mut ahead)?;
    match PrintDirection::new(orientation) {
        Some(command) => {
            *cur = ahead;
            Ok(command)
        },
        None => unreached(),
    }
}

/// Reading `Z` only moves forward, and an error is placed inside the
/// command. What is read is at least one byte long, and valid.
pub proof fn lemma_print_direction_reads(s: Seq<u8>, pos: int)
    ensures
        follows(s, Ok(pos), spec_print_direction(s, Ok(pos)).1),
        spec_print_direction(s, Ok(pos)).1 is Ok ==> pos < spec_print_direction(s, Ok(pos)).1->Ok_0,
        0 <= pos && spec_print_direction(
            s,
            Ok(pos),
        ).1 is Ok ==> spec_print_direction(s, Ok(pos)).0.valid(),
{
    broadcast use {lemma_integer_follows, lemma_escaped_string_follows};

}

} // verus!
