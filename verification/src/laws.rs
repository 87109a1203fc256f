//! The laws of the command set: what holds of every command, every buffer
//! and every offset.

use vstd::prelude::*;
use crate::commands::{
    AsciiTextModel, BarCode2DModel, BarCodeStandardModel, BoxDrawModel,
    CharacterSetSelectionModel, CommandModel, DensityModel, GraphicsModel, LineDrawModel,
    PrintModel, PrintDirectionModel, SetFormLengthModel, SetFormWidthModel, SpeedSelectModel,
    WindowsModeModel,
};
use crate::decoder::{
    blanks_end, is_blank, lemma_resume_advances, lemma_skip_blank_lines_bounds, skip_blank_lines,
    spec_decode, spec_entry, EntryModel,
};
use crate::dispatch::{lemma_command_reads, spec_command};
use crate::error::{DecodeError, Field};
use crate::fields::{
    spec_bar_code_2d_selection, spec_bar_code_selection, spec_bit_support, spec_choice,
    spec_country_code, spec_encoding, spec_font, spec_h_mult, spec_orientation, spec_ranged,
    spec_reverse, spec_rotation, spec_switch, spec_v_mult,
};
use crate::grammar::{
    spec_ascii_text, spec_bar_code_2d, spec_bar_code_standard, spec_box_draw,
    spec_character_set_selection, spec_density, spec_graphics, spec_line_draw, spec_print,
    spec_print_direction, spec_set_form_length, spec_set_form_width, spec_speed_select,
    spec_windows_mode,
};
use crate::primitives::{
    lemma_integer_follows, spec_escaped_string, spec_integer, COMMA, LINE_FEED,
};
use crate::round_trip::{
    lemma_holds_at_index, lemma_holds_at_split, lemma_reads_block, lemma_reads_byte,
    lemma_reads_country, lemma_reads_encoding, lemma_reads_number, lemma_reads_selection,
    lemma_reads_string,
};
use crate::scan::{byte_at, holds_at};
use crate::text::{
    choice_letter, country_text, decimal_digits, encoding_text, orientation_letter, quoted,
    selection_text, switch_number, text_of_ascii_text, text_of_bar_code_2d,
    text_of_bar_code_standard, text_of_box_draw, text_of_character_set_selection,
    text_of_command, text_of_density, text_of_graphics, text_of_line_draw, text_of_print,
    text_of_print_direction, text_of_set_form_length, text_of_set_form_width,
    text_of_speed_select, text_of_windows_mode,
};

verus! {

/// The grammar of `A` reads the canonical text of the command back as that
/// command, and ends where the text ends. The text begins with the
/// command's letter.
pub proof fn lemma_ascii_text_round_trip(s: Seq<u8>, pos: int, m: AsciiTextModel)
    requires
        m.valid(),
        holds_at(s, pos, text_of_ascii_text(m)),
    ensures
        spec_ascii_text(s, Ok(pos)) == (
            m,
            Ok::<int, DecodeError>(pos + text_of_ascii_text(m).len()),
        ),
        byte_at(s, pos) == Some(0x41u8),
{
    broadcast use lemma_holds_at_split;

    let t = seq![0x41u8];
    lemma_holds_at_index(s, pos, t, 0);
    let at_h_start = pos + t.len();
    let t = t + decimal_digits(m.h_start);
    lemma_reads_byte(s, pos + t.len(), COMMA);
    lemma_reads_number(s, at_h_start, m.h_start);
    assert(spec_integer(s, Ok(at_h_start)) == (m.h_start, Ok::<int, DecodeError>(pos + t.len())));
    let t = t + seq![COMMA];
    let at_v_start = pos + t.len();
    let t = t + decimal_digits(m.v_start);
    lemma_reads_byte(s, pos + t.len(), COMMA);
    lemma_reads_number(s, at_v_start, m.v_start);
    assert(spec_integer(s, Ok(at_v_start)) == (m.v_start, Ok::<int, DecodeError>(pos + t.len())));
    let t = t + seq![COMMA];
    let at_rotation = pos + t.len();
    let t = t + decimal_digits(m.rotation.spec_code());
    lemma_reads_byte(s, pos + t.len(), COMMA);
    lemma_reads_number(s, at_rotation, m.rotation.spec_code());
    assert(
        spec_rotation(s, Ok(at_rotation)) == (m.rotation, Ok::<int, DecodeError>(pos + t.len()))
    );
    let t = t + seq![COMMA];
    let at_font_selection = pos + t.len();
    let t = t + decimal_digits(m.font_selection.spec_code());
    lemma_reads_byte(s, pos + t.len(), COMMA);
    lemma_reads_number(s, at_font_selection, m.font_selection.spec_code());
    assert(
        spec_font(s, Ok(at_font_selection)) == (
            m.font_selection,
            Ok::<int, DecodeError>(pos + t.len()),
        )
    );
    let t = t + seq![COMMA];
    let at_h_mult = pos + t.len();
    let t = t + decimal_digits(m.h_mult);
    lemma_reads_byte(s, pos + t.len(), COMMA);
    lemma_reads_number(s, at_h_mult, m.h_mult);
    assert(spec_h_mult(s, Ok(at_h_mult)) == (m.h_mult, Ok::<int, DecodeError>(pos + t.len())));
    let t = t + seq![COMMA];
    let at_v_mult = pos + t.len();
    let t = t + decimal_digits(m.v_mult);
    lemma_reads_byte(s, pos + t.len(), COMMA);
    lemma_reads_number(s, at_v_mult, m.v_mult);
    assert(spec_v_mult(s, Ok(at_v_mult)) == (m.v_mult, Ok::<int, DecodeError>(pos + t.len())));
    let t = t + seq![COMMA];
    let at_reverse = pos + t.len();
    let t = t + seq![m.reverse.spec_letter()];
    lemma_reads_byte(s, pos + t.len(), COMMA);
    lemma_reads_byte(s, at_reverse, m.reverse.spec_letter());
    assert(spec_reverse(s, Ok(at_reverse)) == (m.reverse, Ok::<int, DecodeError>(pos + t.len())));
    let t = t + seq![COMMA];
    let at_data = pos + t.len();
    let t = t + quoted(m.data);
    lemma_reads_byte(s, pos + t.len(), LINE_FEED);
    lemma_reads_string(s, at_data, m.data);
    assert(spec_escaped_string(s, Ok(at_data)) == (m.data, Ok::<int, DecodeError>(pos + t.len())));
}

/// The grammar of `B` reads the canonical text of the command back as that
/// command, and ends where the text ends. The text begins with the
/// command's letter.
pub proof fn lemma_bar_code_standard_round_trip(s: Seq<u8>, pos: int, m: BarCodeStandardModel)
    requires
        m.valid(),
        holds_at(s, pos, text_of_bar_code_standard(m)),
    ensures
        spec_bar_code_standard(s, Ok(pos)) == (
            m,
            Ok::<int, DecodeError>(pos + text_of_bar_code_standard(m).len()),
        ),
        byte_at(s, pos) == Some(0x42u8),
{
    broadcast use lemma_holds_at_split;

    let t = seq![0x42u8];
    lemma_holds_at_index(s, pos, t, 0);
    let at_h_start = pos + t.len();
    let t = t + decimal_digits(m.h_start);
    lemma_reads_byte(s, pos + t.len(), COMMA);
    lemma_reads_number(s, at_h_start, m.h_start);
    assert(spec_integer(s, Ok(at_h_start)) == (m.h_start, Ok::<int, DecodeError>(pos + t.len())));
    let t = t + seq![COMMA];
    let at_v_start = pos + t.len();
    let t = t + decimal_digits(m.v_start);
    lemma_reads_byte(s, pos + t.len(), COMMA);
    lemma_reads_number(s, at_v_start, m.v_start);
    assert(spec_integer(s, Ok(at_v_start)) == (m.v_start, Ok::<int, DecodeError>(pos + t.len())));
    let t = t + seq![COMMA];
    let at_rotation = pos + t.len();
    let t = t + decimal_digits(m.rotation.spec_code());
    lemma_reads_byte(s, pos + t.len(), COMMA);
    lemma_reads_number(s, at_rotation, m.rotation.spec_code());
    assert(
        spec_rotation(s, Ok(at_rotation)) == (m.rotation, Ok::<int, DecodeError>(pos + t.len()))
    );
    let t = t + seq![COMMA];
    let at_bar_code = pos + t.len();
    let t = t + selection_text(m.bar_code);
    lemma_reads_byte(s, pos + t.len(), COMMA);
    lemma_reads_selection(s, at_bar_code, m.bar_code);
    assert(
        spec_bar_code_selection(s, Ok(at_bar_code)) == (
            m.bar_code,
            Ok::<int, DecodeError>(pos + t.len()),
        )
    );
    let t = t + seq![COMMA];
    let at_narrow_width = pos + t.len();
    let t = t + decimal_digits(m.narrow_width);
    lemma_reads_byte(s, pos + t.len(), COMMA);
    lemma_reads_number(s, at_narrow_width, m.narrow_width);
    assert(
        spec_integer(s, Ok(at_narrow_width)) == (
            m.narrow_width,
            Ok::<int, DecodeError>(pos + t.len()),
        )
    );
    let t = t + seq![COMMA];
    let at_wide_width = pos + t.len();
    let t = t + decimal_digits(m.wide_width);
    lemma_reads_byte(s, pos + t.len(), COMMA);
    lemma_reads_number(s, at_wide_width, m.wide_width);
    assert(
        spec_ranged(s, Ok(at_wide_width), 2, 30, Field::WideBarWidth) == (
            m.wide_width,
            Ok::<int, DecodeError>(pos + t.len()),
        )
    );
    let t = t + seq![COMMA];
    let at_bar_code_height = pos + t.len();
    let t = t + decimal_digits(m.bar_code_height);
    lemma_reads_byte(s, pos + t.len(), COMMA);
    lemma_reads_number(s, at_bar_code_height, m.bar_code_height);
    assert(
        spec_integer(s, Ok(at_bar_code_height)) == (
            m.bar_code_height,
            Ok::<int, DecodeError>(pos + t.len()),
        )
    );
    let t = t + seq![COMMA];
    let at_print_human_readable = pos + t.len();
    let t = t + seq![choice_letter(m.print_human_readable, 0x42, 0x4E)];
    lemma_reads_byte(s, pos + t.len(), COMMA);
    lemma_reads_byte(s, at_print_human_readable, choice_letter(m.print_human_readable, 0x42, 0x4E));
    assert(
        spec_choice(
            s,
            Ok(at_print_human_readable),
            0x42,
            0x4E,
            Field::PrintHumanReadable,
        ) == (m.print_human_readable, Ok::<int, DecodeError>(pos + t.len()))
    );
    let t = t + seq![COMMA];
    let at_data = pos + t.len();
    let t = t + quoted(m.data);
    lemma_reads_byte(s, pos + t.len(), LINE_FEED);
    lemma_reads_string(s, at_data, m.data);
    assert(spec_escaped_string(s, Ok(at_data)) == (m.data, Ok::<int, DecodeError>(pos + t.len())));
}

/// The grammar of `b` reads the canonical text of the command back as that
/// command, and ends where the text ends. The text begins with the
/// command's letter.
#[verifier::rlimit(60)]
pub proof fn lemma_bar_code_2d_round_trip(s: Seq<u8>, pos: int, m: BarCode2DModel)
    requires
        m.valid(),
        holds_at(s, pos, text_of_bar_code_2d(m)),
    ensures
        spec_bar_code_2d(s, Ok(pos)) == (
            m,
            Ok::<int, DecodeError>(pos + text_of_bar_code_2d(m).len()),
        ),
        byte_at(s, pos) == Some(0x62u8),
{
    broadcast use lemma_holds_at_split;

    let t = seq![0x62u8];
    lemma_holds_at_index(s, pos, t, 0);
    let at_h_start = pos + t.len();
    let t = t + decimal_digits(m.h_start);
    lemma_reads_byte(s, pos + t.len(), COMMA);
    lemma_reads_number(s, at_h_start, m.h_start);
    assert(spec_integer(s, Ok(at_h_start)) == (m.h_start, Ok::<int, DecodeError>(pos + t.len())));
    let t = t + seq![COMMA];
    let at_v_start = pos + t.len();
    let t = t + decimal_digits(m.v_start);
    lemma_reads_byte(s, pos + t.len(), COMMA);
    lemma_reads_number(s, at_v_start, m.v_start);
    assert(spec_integer(s, Ok(at_v_start)) == (m.v_start, Ok::<int, DecodeError>(pos + t.len())));
    let t = t + seq![COMMA];
    let at_bar_code = pos + t.len();
    let t = t + seq![m.bar_code.spec_letter()];
    lemma_reads_byte(s, pos + t.len(), COMMA);
    lemma_reads_byte(s, at_bar_code, m.bar_code.spec_letter());
    assert(
        spec_bar_code_2d_selection(s, Ok(at_bar_code)) == (
            m.bar_code,
            Ok::<int, DecodeError>(pos + t.len()),
        )
    );
    let t = t + seq![COMMA];
    let at_max_width = pos + t.len();
    let t = t + decimal_digits(m.max_width);
    lemma_reads_byte(s, pos + t.len(), COMMA);
    lemma_reads_number(s, at_max_width, m.max_width);
    assert(
        spec_integer(s, Ok(at_max_width)) == (m.max_width, Ok::<int, DecodeError>(pos + t.len()))
    );
    let t = t + seq![COMMA];
    let at_max_height = pos + t.len();
    let t = t + decimal_digits(m.max_height);
    lemma_reads_byte(s, pos + t.len(), COMMA);
    lemma_reads_number(s, at_max_height, m.max_height);
    assert(
        spec_integer(s, Ok(at_max_height)) == (m.max_height, Ok::<int, DecodeError>(pos + t.len()))
    );
    let t = t + seq![COMMA];
    let at_error_correction = pos + t.len();
    let t = t + decimal_digits(m.error_correction);
    lemma_reads_byte(s, pos + t.len(), COMMA);
    lemma_reads_number(s, at_error_correction, m.error_correction);
    assert(
        spec_integer(s, Ok(at_error_correction)) == (
            m.error_correction,
            Ok::<int, DecodeError>(pos + t.len()),
        )
    );
    let t = t + seq![COMMA];
    let at_data_compression = pos + t.len();
    let t = t + decimal_digits(m.data_compression);
    lemma_reads_byte(s, pos + t.len(), COMMA);
    lemma_reads_number(s, at_data_compression, m.data_compression);
    assert(
        spec_integer(s, Ok(at_data_compression)) == (
            m.data_compression,
            Ok::<int, DecodeError>(pos + t.len()),
        )
    );
    let t = t + seq![COMMA];
    let at_readable_h_start = pos + t.len();
    let t = t + decimal_digits(m.readable_h_start);
    lemma_reads_byte(s, pos + t.len(), COMMA);
    lemma_reads_number(s, at_readable_h_start, m.readable_h_start);
    assert(
        spec_integer(s, Ok(at_readable_h_start)) == (
            m.readable_h_start,
            Ok::<int, DecodeError>(pos + t.len()),
        )
    );
    let t = t + seq![COMMA];
    let at_readable_v_start = pos + t.len();
    let t = t + decimal_digits(m.readable_v_start);
    lemma_reads_byte(s, pos + t.len(), COMMA);
    lemma_reads_number(s, at_readable_v_start, m.readable_v_start);
    assert(
        spec_integer(s, Ok(at_readable_v_start)) == (
            m.readable_v_start,
            Ok::<int, DecodeError>(pos + t.len()),
        )
    );
    let t = t + seq![COMMA];
    let at_readable_max_chars = pos + t.len();
    let t = t + decimal_digits(m.readable_max_chars);
    lemma_reads_byte(s, pos + t.len(), COMMA);
    lemma_reads_number(s, at_readable_max_chars, m.readable_max_chars);
    assert(
        spec_integer(s, Ok(at_readable_max_chars)) == (
            m.readable_max_chars,
            Ok::<int, DecodeError>(pos + t.len()),
        )
    );
    let t = t + seq![COMMA];
    let at_origin_point = pos + t.len();
    let t = t + decimal_digits(m.origin_point);
    lemma_reads_byte(s, pos + t.len(), COMMA);
    lemma_reads_number(s, at_origin_point, m.origin_point);
    assert(
        spec_ranged(s, Ok(at_origin_point), 0, 1, Field::OriginPoint) == (
            m.origin_point,
            Ok::<int, DecodeError>(pos + t.len()),
        )
    );
    let t = t + seq![COMMA];
    let at_module_width = pos + t.len();
    let t = t + decimal_digits(m.module_width);
    lemma_reads_byte(s, pos + t.len(), COMMA);
    lemma_reads_number(s, at_module_width, m.module_width);
    assert(
        spec_integer(s, Ok(at_module_width)) == (
            m.module_width,
            Ok::<int, DecodeError>(pos + t.len()),
        )
    );
    let t = t + seq![COMMA];
    let at_bar_height = pos + t.len();
    let t = t + decimal_digits(m.bar_height);
    lemma_reads_byte(s, pos + t.len(), COMMA);
    lemma_reads_number(s, at_bar_height, m.bar_height);
    assert(
        spec_integer(s, Ok(at_bar_height)) == (m.bar_height, Ok::<int, DecodeError>(pos + t.len()))
    );
    let t = t + seq![COMMA];
    let at_max_rows = pos + t.len();
    let t = t + decimal_digits(m.max_rows);
    lemma_reads_byte(s, pos + t.len(), COMMA);
    lemma_reads_number(s, at_max_rows, m.max_rows);
    assert(spec_integer(s, Ok(at_max_rows)) == (m.max_rows, Ok::<int, DecodeError>(pos + t.len())));
    let t = t + seq![COMMA];
    let at_max_cols = pos + t.len();
    let t = t + decimal_digits(m.max_cols);
    lemma_reads_byte(s, pos + t.len(), COMMA);
    lemma_reads_number(s, at_max_cols, m.max_cols);
    assert(spec_integer(s, Ok(at_max_cols)) == (m.max_cols, Ok::<int, DecodeError>(pos + t.len())));
    let t = t + seq![COMMA];
    let at_truncated = pos + t.len();
    let t = t + decimal_digits(switch_number(m.truncated));
    lemma_reads_byte(s, pos + t.len(), COMMA);
    lemma_reads_number(s, at_truncated, switch_number(m.truncated));
    assert(
        spec_switch(s, Ok(at_truncated), Field::Truncated) == (
            m.truncated,
            Ok::<int, DecodeError>(pos + t.len()),
        )
    );
    let t = t + seq![COMMA];
    let at_rotation = pos + t.len();
    let t = t + decimal_digits(m.rotation.spec_code());
    lemma_reads_byte(s, pos + t.len(), COMMA);
    lemma_reads_number(s, at_rotation, m.rotation.spec_code());
    assert(
        spec_rotation(s, Ok(at_rotation)) == (m.rotation, Ok::<int, DecodeError>(pos + t.len()))
    );
    let t = t + seq![COMMA];
    let at_length = pos + t.len();
    let t = t + decimal_digits(m.data.len() as int);
    lemma_reads_byte(s, pos + t.len(), COMMA);
    lemma_reads_number(s, at_length, m.data.len() as int);
    let t = t + seq![COMMA];
    lemma_reads_block(s, pos + t.len(), m.data);
}

/// The grammar of `D` reads the canonical text of the command back as that
/// command, and ends where the text ends. The text begins with the
/// command's letter.
pub proof fn lemma_density_round_trip(s: Seq<u8>, pos: int, m: DensityModel)
    requires
        m.valid(),
        holds_at(s, pos, text_of_density(m)),
    ensures
        spec_density(s, Ok(pos)) == (m, Ok::<int, DecodeError>(pos + text_of_density(m).len())),
        byte_at(s, pos) == Some(0x44u8),
{
    broadcast use lemma_holds_at_split;

    let t = seq![0x44u8];
    lemma_holds_at_index(s, pos, t, 0);
    let at_setting = pos + t.len();
    let t = t + decimal_digits(m.setting);
    lemma_reads_byte(s, pos + t.len(), LINE_FEED);
    lemma_reads_number(s, at_setting, m.setting);
    assert(
        spec_ranged(s, Ok(at_setting), 0, 15, Field::Density) == (
            m.setting,
            Ok::<int, DecodeError>(pos + t.len()),
        )
    );
}

/// The grammar of `GW` reads the canonical text of the command back as that
/// command, and ends where the text ends. The text begins with the
/// command's letter.
pub proof fn lemma_graphics_round_trip(s: Seq<u8>, pos: int, m: GraphicsModel)
    requires
        m.valid(),
        holds_at(s, pos, text_of_graphics(m)),
    ensures
        spec_graphics(s, Ok(pos)) == (m, Ok::<int, DecodeError>(pos + text_of_graphics(m).len())),
        byte_at(s, pos) == Some(0x47u8),
{
    broadcast use lemma_holds_at_split;

    let t = seq![0x47u8, 0x57u8];
    lemma_holds_at_index(s, pos, t, 0);
    lemma_holds_at_index(s, pos, t, 1);
    let at_h_start = pos + t.len();
    let t = t + decimal_digits(m.h_start);
    lemma_reads_byte(s, pos + t.len(), COMMA);
    lemma_reads_number(s, at_h_start, m.h_start);
    assert(spec_integer(s, Ok(at_h_start)) == (m.h_start, Ok::<int, DecodeError>(pos + t.len())));
    let t = t + seq![COMMA];
    let at_v_start = pos + t.len();
    let t = t + decimal_digits(m.v_start);
    lemma_reads_byte(s, pos + t.len(), COMMA);
    lemma_reads_number(s, at_v_start, m.v_start);
    assert(spec_integer(s, Ok(at_v_start)) == (m.v_start, Ok::<int, DecodeError>(pos + t.len())));
    let t = t + seq![COMMA];
    let at_graphic_width = pos + t.len();
    let t = t + decimal_digits(m.graphic_width);
    lemma_reads_byte(s, pos + t.len(), COMMA);
    lemma_reads_number(s, at_graphic_width, m.graphic_width);
    assert(
        spec_integer(s, Ok(at_graphic_width)) == (
            m.graphic_width,
            Ok::<int, DecodeError>(pos + t.len()),
        )
    );
    let t = t + seq![COMMA];
    let at_graphic_length = pos + t.len();
    let t = t + decimal_digits(m.graphic_length);
    lemma_reads_byte(s, pos + t.len(), COMMA);
    lemma_reads_number(s, at_graphic_length, m.graphic_length);
    assert(
        spec_integer(s, Ok(at_graphic_length)) == (
            m.graphic_length,
            Ok::<int, DecodeError>(pos + t.len()),
        )
    );
    let t = t + seq![COMMA];
    lemma_reads_block(s, pos + t.len(), m.data);
}

/// The grammar of `I` reads the canonical text of the command back as that
/// command, and ends where the text ends. The text begins with the
/// command's letter.
pub proof fn lemma_character_set_selection_round_trip(
    s: Seq<u8>,
    pos: int,
    m: CharacterSetSelectionModel,
)
    requires
        m.valid(),
        holds_at(s, pos, text_of_character_set_selection(m)),
    ensures
        spec_character_set_selection(s, Ok(pos)) == (
            m,
            Ok::<int, DecodeError>(pos + text_of_character_set_selection(m).len()),
        ),
        byte_at(s, pos) == Some(0x49u8),
{
    broadcast use lemma_holds_at_split;

    let t = seq![0x49u8];
    lemma_holds_at_index(s, pos, t, 0);
    let at_number_of_bits = pos + t.len();
    let t = t + decimal_digits(m.number_of_bits.spec_code());
    lemma_reads_byte(s, pos + t.len(), COMMA);
    lemma_reads_number(s, at_number_of_bits, m.number_of_bits.spec_code());
    assert(
        spec_bit_support(s, Ok(at_number_of_bits)) == (
            m.number_of_bits,
            Ok::<int, DecodeError>(pos + t.len()),
        )
    );
    let t = t + seq![COMMA];
    let at_language_support = pos + t.len();
    let t = t + encoding_text(m.language_support);
    lemma_reads_byte(s, pos + t.len(), COMMA);
    lemma_reads_encoding(s, at_language_support, m.language_support);
    assert(
        spec_encoding(s, Ok(at_language_support)) == (
            m.language_support,
            Ok::<int, DecodeError>(pos + t.len()),
        )
    );
    let t = t + seq![COMMA];
    let at_country_code = pos + t.len();
    let t = t + country_text(m.country_code);
    lemma_reads_byte(s, pos + t.len(), LINE_FEED);
    lemma_reads_country(s, at_country_code, m.country_code);
    assert(
        spec_country_code(s, Ok(at_country_code)) == (
            m.country_code,
            Ok::<int, DecodeError>(pos + t.len()),
        )
    );
}

/// The grammar of `LO` reads the canonical text of the command back as that
/// command, and ends where the text ends. The text begins with the
/// command's letter.
pub proof fn lemma_line_draw_round_trip(s: Seq<u8>, pos: int, m: LineDrawModel)
    requires
        m.valid(),
        holds_at(s, pos, text_of_line_draw(m)),
    ensures
        spec_line_draw(s, Ok(pos)) == (m, Ok::<int, DecodeError>(pos + text_of_line_draw(m).len())),
        byte_at(s, pos) == Some(0x4Cu8),
{
    broadcast use lemma_holds_at_split;

    let t = seq![0x4Cu8, 0x4Fu8];
    lemma_holds_at_index(s, pos, t, 0);
    lemma_holds_at_index(s, pos, t, 1);
    let at_h_start = pos + t.len();
    let t = t + decimal_digits(m.h_start);
    lemma_reads_byte(s, pos + t.len(), COMMA);
    lemma_reads_number(s, at_h_start, m.h_start);
    assert(spec_integer(s, Ok(at_h_start)) == (m.h_start, Ok::<int, DecodeError>(pos + t.len())));
    let t = t + seq![COMMA];
    let at_v_start = pos + t.len();
    let t = t + decimal_digits(m.v_start);
    lemma_reads_byte(s, pos + t.len(), COMMA);
    lemma_reads_number(s, at_v_start, m.v_start);
    assert(spec_integer(s, Ok(at_v_start)) == (m.v_start, Ok::<int, DecodeError>(pos + t.len())));
    let t = t + seq![COMMA];
    let at_h_length = pos + t.len();
    let t = t + decimal_digits(m.h_length);
    lemma_reads_byte(s, pos + t.len(), COMMA);
    lemma_reads_number(s, at_h_length, m.h_length);
    assert(spec_integer(s, Ok(at_h_length)) == (m.h_length, Ok::<int, DecodeError>(pos + t.len())));
    let t = t + seq![COMMA];
    let at_v_length = pos + t.len();
    let t = t + decimal_digits(m.v_length);
    lemma_reads_byte(s, pos + t.len(), LINE_FEED);
    lemma_reads_number(s, at_v_length, m.v_length);
    assert(spec_integer(s, Ok(at_v_length)) == (m.v_length, Ok::<int, DecodeError>(pos + t.len())));
}

/// The grammar of `P` reads the canonical text of the command back as that
/// command, and ends where the text ends. The text begins with the
/// command's letter.
pub proof fn lemma_print_round_trip(s: Seq<u8>, pos: int, m: PrintModel)
    requires
        m.valid(),
        holds_at(s, pos, text_of_print(m)),
    ensures
        spec_print(s, Ok(pos)) == (m, Ok::<int, DecodeError>(pos + text_of_print(m).len())),
        byte_at(s, pos) == Some(0x50u8),
{
    broadcast use lemma_holds_at_split;

    let t = seq![0x50u8];
    lemma_holds_at_index(s, pos, t, 0);
    let at_nmbr_of_sets = pos + t.len();
    let t = t + decimal_digits(m.nmbr_of_sets);
    lemma_reads_byte(s, pos + t.len(), COMMA);
    lemma_reads_number(s, at_nmbr_of_sets, m.nmbr_of_sets);
    assert(
        spec_ranged(s, Ok(at_nmbr_of_sets), 1, 65535, Field::Sets) == (
            m.nmbr_of_sets,
            Ok::<int, DecodeError>(pos + t.len()),
        )
    );
    let t = t + seq![COMMA];
    let at_nmbr_of_copies = pos + t.len();
    let t = t + decimal_digits(m.nmbr_of_copies);
    lemma_reads_byte(s, pos + t.len(), LINE_FEED);
    lemma_reads_number(s, at_nmbr_of_copies, m.nmbr_of_copies);
    assert(
        spec_ranged(s, Ok(at_nmbr_of_copies), 1, 65535, Field::Copies) == (
            m.nmbr_of_copies,
            Ok::<int, DecodeError>(pos + t.len()),
        )
    );
}

/// The grammar of `q` reads the canonical text of the command back as that
/// command, and ends where the text ends. The text begins with the
/// command's letter.
pub proof fn lemma_set_form_width_round_trip(s: Seq<u8>, pos: int, m: SetFormWidthModel)
    requires
        m.valid(),
        holds_at(s, pos, text_of_set_form_width(m)),
    ensures
        spec_set_form_width(s, Ok(pos)) == (
            m,
            Ok::<int, DecodeError>(pos + text_of_set_form_width(m).len()),
        ),
        byte_at(s, pos) == Some(0x71u8),
{
    broadcast use lemma_holds_at_split;

    let t = seq![0x71u8];
    lemma_holds_at_index(s, pos, t, 0);
    let at_label_width = pos + t.len();
    let t = t + decimal_digits(m.label_width);
    lemma_reads_byte(s, pos + t.len(), LINE_FEED);
    lemma_reads_number(s, at_label_width, m.label_width);
    assert(
        spec_integer(s, Ok(at_label_width)) == (
            m.label_width,
            Ok::<int, DecodeError>(pos + t.len()),
        )
    );
}

/// The grammar of `Q` reads the canonical text of the command back as that
/// command, and ends where the text ends. The text begins with the
/// command's letter.
pub proof fn lemma_set_form_length_round_trip(s: Seq<u8>, pos: int, m: SetFormLengthModel)
    requires
        m.valid(),
        holds_at(s, pos, text_of_set_form_length(m)),
    ensures
        spec_set_form_length(s, Ok(pos)) == (
            m,
            Ok::<int, DecodeError>(pos + text_of_set_form_length(m).len()),
        ),
        byte_at(s, pos) == Some(0x51u8),
{
    broadcast use lemma_holds_at_split;

    let t = seq![0x51u8];
    lemma_holds_at_index(s, pos, t, 0);
    let at_label_length = pos + t.len();
    let t = t + decimal_digits(m.label_length);
    lemma_reads_byte(s, pos + t.len(), COMMA);
    lemma_reads_number(s, at_label_length, m.label_length);
    assert(
        spec_ranged(
            s,
            Ok(at_label_length),
            0,
            0xFFFF,
            Field::LabelLength,
        ) == (m.label_length, Ok::<int, DecodeError>(pos + t.len()))
    );
    let t = t + seq![COMMA];
    let at_gap_length = pos + t.len();
    let t = t + decimal_digits(m.gap_length);
    lemma_reads_byte(s, pos + t.len(), COMMA);
    lemma_reads_number(s, at_gap_length, m.gap_length);
    assert(
        spec_ranged(s, Ok(at_gap_length), 0, 0xFFFF, Field::GapLength) == (
            m.gap_length,
            Ok::<int, DecodeError>(pos + t.len()),
        )
    );
    let t = t + seq![COMMA];
    let at_offset_length = pos + t.len();
    let t = t + decimal_digits(m.offset_length);
    lemma_reads_byte(s, pos + t.len(), LINE_FEED);
    lemma_reads_number(s, at_offset_length, m.offset_length);
    assert(
        spec_ranged(
            s,
            Ok(at_offset_length),
            0,
            0xFFFF,
            Field::OffsetLength,
        ) == (m.offset_length, Ok::<int, DecodeError>(pos + t.len()))
    );
}

/// The grammar of `S` reads the canonical text of the command back as that
/// command, and ends where the text ends. The text begins with the
/// command's letter.
pub proof fn lemma_speed_select_round_trip(s: Seq<u8>, pos: int, m: SpeedSelectModel)
    requires
        m.valid(),
        holds_at(s, pos, text_of_speed_select(m)),
    ensures
        spec_speed_select(s, Ok(pos)) == (
            m,
            Ok::<int, DecodeError>(pos + text_of_speed_select(m).len()),
        ),
        byte_at(s, pos) == Some(0x53u8),
{
    broadcast use lemma_holds_at_split;

    let t = seq![0x53u8];
    lemma_holds_at_index(s, pos, t, 0);
    let at_speed = pos + t.len();
    let t = t + decimal_digits(m.speed);
    lemma_reads_byte(s, pos + t.len(), LINE_FEED);
    lemma_reads_number(s, at_speed, m.speed);
    assert(
        spec_ranged(s, Ok(at_speed), 0, 0xFF, Field::Speed) == (
            m.speed,
            Ok::<int, DecodeError>(pos + t.len()),
        )
    );
}

/// The grammar of `W` reads the canonical text of the command back as that
/// command, and ends where the text ends. The text begins with the
/// command's letter.
pub proof fn lemma_windows_mode_round_trip(s: Seq<u8>, pos: int, m: WindowsModeModel)
    requires
        m.valid(),
        holds_at(s, pos, text_of_windows_mode(m)),
    ensures
        spec_windows_mode(s, Ok(pos)) == (
            m,
            Ok::<int, DecodeError>(pos + text_of_windows_mode(m).len()),
        ),
        byte_at(s, pos) == Some(0x57u8),
{
    broadcast use lemma_holds_at_split;

    let t = seq![0x57u8];
    lemma_holds_at_index(s, pos, t, 0);
    let at_enabled = pos + t.len();
    let t = t + seq![choice_letter(m.enabled, 0x59, 0x4E)];
    lemma_reads_byte(s, pos + t.len(), LINE_FEED);
    lemma_reads_byte(s, at_enabled, choice_letter(m.enabled, 0x59, 0x4E));
    assert(
        spec_choice(
            s,
            Ok(at_enabled),
            0x59,
            0x4E,
            Field::WindowsMode,
        ) == (m.enabled, Ok::<int, DecodeError>(pos + t.len()))
    );
}

/// The grammar of `X` reads the canonical text of the command back as that
/// command, and ends where the text ends. The text begins with the
/// command's letter.
pub proof fn lemma_box_draw_round_trip(s: Seq<u8>, pos: int, m: BoxDrawModel)
    requires
        m.valid(),
        holds_at(s, pos, text_of_box_draw(m)),
    ensures
        spec_box_draw(s, Ok(pos)) == (m, Ok::<int, DecodeError>(pos + text_of_box_draw(m).len())),
        byte_at(s, pos) == Some(0x58u8),
{
    broadcast use lemma_holds_at_split;

    let t = seq![0x58u8];
    lemma_holds_at_index(s, pos, t, 0);
    let at_h_start = pos + t.len();
    let t = t + decimal_digits(m.h_start);
    lemma_reads_byte(s, pos + t.len(), COMMA);
    lemma_reads_number(s, at_h_start, m.h_start);
    assert(spec_integer(s, Ok(at_h_start)) == (m.h_start, Ok::<int, DecodeError>(pos + t.len())));
    let t = t + seq![COMMA];
    let at_v_start = pos + t.len();
    let t = t + decimal_digits(m.v_start);
    lemma_reads_byte(s, pos + t.len(), COMMA);
    lemma_reads_number(s, at_v_start, m.v_start);
    assert(spec_integer(s, Ok(at_v_start)) == (m.v_start, Ok::<int, DecodeError>(pos + t.len())));
    let t = t + seq![COMMA];
    let at_line_thickness = pos + t.len();
    let t = t + decimal_digits(m.line_thickness);
    lemma_reads_byte(s, pos + t.len(), COMMA);
    lemma_reads_number(s, at_line_thickness, m.line_thickness);
    assert(
        spec_integer(s, Ok(at_line_thickness)) == (
            m.line_thickness,
            Ok::<int, DecodeError>(pos + t.len()),
        )
    );
    let t = t + seq![COMMA];
    let at_h_end = pos + t.len();
    let t = t + decimal_digits(m.h_end);
    lemma_reads_byte(s, pos + t.len(), COMMA);
    lemma_reads_number(s, at_h_end, m.h_end);
    assert(spec_integer(s, Ok(at_h_end)) == (m.h_end, Ok::<int, DecodeError>(pos + t.len())));
    let t = t + seq![COMMA];
    let at_v_end = pos + t.len();
    let t = t + decimal_digits(m.v_end);
    lemma_reads_byte(s, pos + t.len(), LINE_FEED);
    lemma_reads_number(s, at_v_end, m.v_end);
    assert(spec_integer(s, Ok(at_v_end)) == (m.v_end, Ok::<int, DecodeError>(pos + t.len())));
}

/// The grammar of `Z` reads the canonical text of the command back as that
/// command, and ends where the text ends. The text begins with the
/// command's letter.
pub proof fn lemma_print_direction_round_trip(s: Seq<u8>, pos: int, m: PrintDirectionModel)
    requires
        m.valid(),
        holds_at(s, pos, text_of_print_direction(m)),
    ensures
        spec_print_direction(s, Ok(pos)) == (
            m,
            Ok::<int, DecodeError>(pos + text_of_print_direction(m).len()),
        ),
        byte_at(s, pos) == Some(0x5Au8),
{
    broadcast use lemma_holds_at_split;

    let t = seq![0x5Au8];
    lemma_holds_at_index(s, pos, t, 0);
    let at_orientation = pos + t.len();
    let t = t + seq![orientation_letter(m.orientation)];
    lemma_reads_byte(s, pos + t.len(), LINE_FEED);
    lemma_reads_byte(s, at_orientation, orientation_letter(m.orientation));
    assert(
        spec_orientation(s, Ok(at_orientation)) == (
            m.orientation,
            Ok::<int, DecodeError>(pos + t.len()),
        )
    );
}

/// The round-trip law. The grammar reads the canonical text of a command
/// back as that command: where a buffer holds the canonical text of a valid
/// command at an offset, reading a command at that offset yields that
/// command and ends where the text ends, whatever else the buffer holds.
pub proof fn lemma_command_round_trip(s: Seq<u8>, pos: int, m: CommandModel)
    requires
        m.valid(),
        holds_at(s, pos, text_of_command(m)),
    ensures
        spec_command(s, Ok(pos)) == (m, Ok::<int, DecodeError>(pos + text_of_command(m).len())),
{
    match m {
        CommandModel::AsciiText(inner) => {
            lemma_ascii_text_round_trip(s, pos, inner);
        },
        CommandModel::BarCodeStandard(inner) => {
            lemma_bar_code_standard_round_trip(s, pos, inner);
        },
        CommandModel::BarCode2D(inner) => {
            lemma_bar_code_2d_round_trip(s, pos, inner);
        },
        CommandModel::Density(inner) => {
            lemma_density_round_trip(s, pos, inner);
        },
        CommandModel::Graphics(inner) => {
            lemma_graphics_round_trip(s, pos, inner);
        },
        CommandModel::CharacterSetSelection(inner) => {
            lemma_character_set_selection_round_trip(s, pos, inner);
        },
        CommandModel::LineDraw(inner) => {
            lemma_line_draw_round_trip(s, pos, inner);
        },
        CommandModel::ClearImageBuffer => {
            let text = seq![0x4Eu8, LINE_FEED];
            lemma_holds_at_index(s, pos, text, 0);
            lemma_holds_at_index(s, pos, text, 1);
        },
        CommandModel::Print(inner) => {
            lemma_print_round_trip(s, pos, inner);
        },
        CommandModel::SetFormWidth(inner) => {
            lemma_set_form_width_round_trip(s, pos, inner);
        },
        CommandModel::SetFormLength(inner) => {
            lemma_set_form_length_round_trip(s, pos, inner);
        },
        CommandModel::SpeedSelect(inner) => {
            lemma_speed_select_round_trip(s, pos, inner);
        },
        CommandModel::PrintConfiguration => {
            let text = seq![0x55u8, LINE_FEED];
            lemma_holds_at_index(s, pos, text, 0);
            lemma_holds_at_index(s, pos, text, 1);
        },
        CommandModel::WindowsMode(inner) => {
            lemma_windows_mode_round_trip(s, pos, inner);
        },
        CommandModel::BoxDraw(inner) => {
            lemma_box_draw_round_trip(s, pos, inner);
        },
        CommandModel::PrintDirection(inner) => {
            lemma_print_direction_round_trip(s, pos, inner);
        },
    }
}

/// The bytes `s` are the canonical text of a valid command.
pub open spec fn is_canonical(s: Seq<u8>) -> bool {
    exists|m: CommandModel| m.valid() && #[trigger] text_of_command(m) == s
}

/// Reading and writing again changes nothing. A canonical text is read as a
/// whole, and the command that is read has that text as its canonical text,
/// byte for byte.
pub proof fn lemma_canonical_text_is_reproduced(s: Seq<u8>)
    requires
        is_canonical(s),
    ensures
        spec_command(s, Ok(0)).1 == Ok::<int, DecodeError>(s.len() as int),
        text_of_command(spec_command(s, Ok(0)).0) == s,
{
    let m = choose|m: CommandModel| m.valid() && #[trigger] text_of_command(m) == s;
    assert(s.subrange(0, s.len() as int) =~= s);
    lemma_command_round_trip(s, 0, m);
}

/// Only a canonical text is reproduced. Where a text is read as a whole and
/// the command that is read has that text as its canonical text, the text is
/// canonical: every other spelling that the grammar reads is normalized.
pub proof fn lemma_reproduced_text_is_canonical(s: Seq<u8>)
    requires
        spec_command(s, Ok(0)).1 is Ok,
        text_of_command(spec_command(s, Ok(0)).0) == s,
    ensures
        is_canonical(s),
{
    lemma_command_reads(s, 0);
}

/// The payload of a graphic is taken verbatim: where `GW` is read, the
/// payload is the last `graphic_width` times `graphic_length` bytes that
/// were read, whatever they are.
pub proof fn lemma_graphics_payload_is_verbatim(s: Seq<u8>, pos: int)
    requires
        0 <= pos,
    ensures
        spec_graphics(s, Ok(pos)).1 is Ok ==> {
            let m = spec_graphics(s, Ok(pos)).0;
            let end = spec_graphics(s, Ok(pos)).1->Ok_0;
            &&& m.data.len() == m.graphic_width * m.graphic_length
            &&& m.data == s.subrange(end - m.graphic_width * m.graphic_length, end)
        },
{
    broadcast use lemma_integer_follows;

}

/// The canonical text of a sequence of commands: their canonical texts in a
/// row.
pub open spec fn text_of_stream(commands: Seq<CommandModel>) -> Seq<u8>
    decreases commands.len(),
{
    if commands.len() == 0 {
        Seq::empty()
    } else {
        text_of_command(commands[0]) + text_of_stream(commands.drop_first())
    }
}

/// The decoded stream that holds the commands, in their order, each at the
/// offset where its canonical text starts when the first starts at `start`.
pub open spec fn entries_of(commands: Seq<CommandModel>, start: int) -> Seq<EntryModel>
    decreases commands.len(),
{
    if commands.len() == 0 {
        Seq::empty()
    } else {
        seq![EntryModel { position: start, outcome: Ok(commands[0]) }] + entries_of(
            commands.drop_first(),
            start + text_of_command(commands[0]).len(),
        )
    }
}

/// Decoding keeps the order. A buffer that ends with the canonical texts of
/// valid commands in a row decodes, from where they start, to exactly those
/// commands: none is lost, none comes twice, none changes its place.
pub proof fn lemma_stream_round_trip(s: Seq<u8>, pos: int, commands: Seq<CommandModel>)
    requires
        forall|i: int| 0 <= i < commands.len() ==> (#[trigger] commands[i]).valid(),
        holds_at(s, pos, text_of_stream(commands)),
        pos + text_of_stream(commands).len() == s.len(),
    ensures
        spec_decode(s, pos) == entries_of(commands, pos),
    decreases commands.len(),
{
    if commands.len() == 0 {
        assert(blanks_end(s, pos) == pos);
    } else {
        let first = commands[0];
        let rest = commands.drop_first();
        let text = text_of_command(first);
        lemma_holds_at_split(s, pos, text, text_of_stream(rest));
        lemma_command_round_trip(s, pos, first);
        lemma_command_reads(s, pos);
        assert(byte_at(s, pos) is Some);
        assert(!is_blank(s[pos]) && s[pos] != LINE_FEED);
        assert(blanks_end(s, pos) == pos);
        assert(skip_blank_lines(s, pos) == pos);
        assert forall|i: int| 0 <= i < rest.len() implies (#[trigger] rest[i]).valid() by {
            assert(rest[i] == commands[i + 1]);
        }
        lemma_stream_round_trip(s, pos + text.len(), rest);
    }
}

/// An entry stands in a buffer from `from` on: its command starts at or
/// after `from`, inside the buffer; a command that was read is valid, and an
/// error is placed at or after the start of its command, inside the buffer.
pub open spec fn in_place(s: Seq<u8>, from: int, entry: EntryModel) -> bool {
    &&& from <= entry.position < s.len()
    &&& match entry.outcome {
        Ok(command) => command.valid(),
        Err(e) => s.len() <= usize::MAX ==> entry.position <= e.position <= s.len(),
    }
}

/// The decoded stream is in stream order. Every entry stands in the buffer
/// from the start of the pass on, and each entry's command starts after the
/// one before it.
pub proof fn lemma_entries_are_in_order(s: Seq<u8>, pos: int)
    requires
        0 <= pos <= s.len(),
    ensures
        forall|i: int|
            0 <= i < spec_decode(s, pos).len() ==> in_place(
                s,
                pos,
                #[trigger] spec_decode(s, pos)[i],
            ),
        forall|i: int, j: int|
            0 <= i < j < spec_decode(s, pos).len() ==> spec_decode(s, pos)[i].position
                < spec_decode(s, pos)[j].position,
    decreases s.len() - pos,
{
    let entries = spec_decode(s, pos);
    lemma_skip_blank_lines_bounds(s, pos);
    let start = skip_blank_lines(s, pos);
    if start < s.len() {
        let (first, resume) = spec_entry(s, start);
        lemma_command_reads(s, start);
        lemma_resume_advances(s, start);
        assert(in_place(s, pos, first));
        match resume {
            Some(next) => {
                let rest = spec_decode(s, next);
                lemma_entries_are_in_order(s, next);
                assert(entries == seq![first] + rest);
                assert forall|i: int| 0 <= i < entries.len() implies in_place(
                    s,
                    pos,
                    #[trigger] entries[i],
                ) by {
                    if i > 0 {
                        assert(entries[i] == rest[i - 1]);
                        assert(in_place(s, next, rest[i - 1]));
                    }
                }
                assert forall|i: int, j: int| 0 <= i < j < entries.len() implies entries[i].position
                    < entries[j].position by {
                    assert(entries[j] == rest[j - 1]);
                    assert(in_place(s, next, rest[j - 1]));
                    if i > 0 {
                        assert(entries[i] == rest[i - 1]);
                    }
                }
            },
            None => {
                assert(entries == seq![first]);
            },
        }
    }
}

} // verus!
