//! The command dispatcher: the byte at a command boundary selects the
//! grammar that reads the command.

use vstd::prelude::*;
use crate::commands::{Command, CommandModel};
use crate::cursor::ByteCursor;
use crate::error::{DecodeError, ErrorKind};
use crate::grammar::{
    lemma_ascii_text_reads, lemma_bar_code_2d_reads, lemma_bar_code_standard_reads,
    lemma_box_draw_reads, lemma_character_set_selection_reads, lemma_clear_image_buffer_reads,
    lemma_density_reads, lemma_graphics_reads, lemma_line_draw_reads,
    lemma_print_configuration_reads, lemma_print_direction_reads, lemma_print_reads,
    lemma_set_form_length_reads, lemma_set_form_width_reads, lemma_speed_select_reads,
    lemma_windows_mode_reads, parse_ascii_text, parse_bar_code_2d, parse_bar_code_standard,
    parse_box_draw, parse_character_set_selection, parse_clear_image_buffer, parse_density,
    parse_graphics, parse_line_draw, parse_print, parse_print_configuration,
    parse_print_direction, parse_set_form_length, parse_set_form_width, parse_speed_select,
    parse_windows_mode, spec_ascii_text, spec_bar_code_2d, spec_bar_code_standard, spec_box_draw,
    spec_character_set_selection, spec_clear_image_buffer, spec_density, spec_graphics,
    spec_line_draw, spec_print, spec_print_configuration, spec_print_direction,
    spec_set_form_length, spec_set_form_width, spec_speed_select, spec_windows_mode,
};
use crate::scan::{byte_at, failure, follows, reads_as, Scan};

verus! {

/// Grammar of a command: the grammar that the first byte selects. A byte
/// that selects none is an unknown command, reported where it stands.
pub open spec fn spec_command(s: Seq<u8>, st: Scan) -> (CommandModel, Scan) {
    match st {
        Ok(pos) => match byte_at(s, pos) {
            None => (CommandModel::ClearImageBuffer, Err(failure(ErrorKind::UnexpectedEnd, pos))),
            Some(letter) => if letter == 0x41 {
                let (m, end) = spec_ascii_text(s, st);
                (CommandModel::AsciiText(m), end)
            } else if letter == 0x42 {
                let (m, end) = spec_bar_code_standard(s, st);
                (CommandModel::BarCodeStandard(m), end)
            } else if letter == 0x62 {
                let (m, end) = spec_bar_code_2d(s, st);
                (CommandModel::BarCode2D(m), end)
            } else if letter == 0x44 {
                let (m, end) = spec_density(s, st);
                (CommandModel::Density(m), end)
            } else if letter == 0x47 {
                let (m, end) = spec_graphics(s, st);
                (CommandModel::Graphics(m), end)
            } else if letter == 0x49 {
                let (m, end) = spec_character_set_selection(s, st);
                (CommandModel::CharacterSetSelection(m), end)
            } else if letter == 0x4C {
                let (m, end) = spec_line_draw(s, st);
                (CommandModel::LineDraw(m), end)
            } else if letter == 0x4E {
                (CommandModel::ClearImageBuffer, spec_clear_image_buffer(s, st))
            } else if letter == 0x50 {
                let (m, end) = spec_print(s, st);
                (CommandModel::Print(m), end)
            } else if letter == 0x71 {
                let (m, end) = spec_set_form_width(s, st);
                (CommandModel::SetFormWidth(m), end)
            } else if letter == 0x51 {
                let (m, end) = spec_set_form_length(s, st);
                (CommandModel::SetFormLength(m), end)
            } else if letter == 0x53 {
                let (m, end) = spec_speed_select(s, st);
                (CommandModel::SpeedSelect(m), end)
            } else if letter == 0x55 {
                (CommandModel::PrintConfiguration, spec_print_configuration(s, st))
            } else if letter == 0x57 {
                let (m, end) = spec_windows_mode(s, st);
                (CommandModel::WindowsMode(m), end)
            } else if letter == 0x58 {
                let (m, end) = spec_box_draw(s, st);
                (CommandModel::BoxDraw(m), end)
            } else if letter == 0x5A {
                let (m, end) = spec_print_direction(s, st);
                (CommandModel::PrintDirection(m), end)
            } else {
                (
                    CommandModel::ClearImageBuffer,
                    Err(failure(ErrorKind::UnknownCommand(letter), pos)),
                )
            },
        },
        Err(_) => (CommandModel::ClearImageBuffer, st),
    }
}

/// Reads the command at the cursor with the grammar that its first byte
/// selects. On an unknown command nothing is consumed.
pub fn dispatch(cur: &mut ByteCursor<'_>) -> (r: Result<Command, DecodeError>)
    ensures
        reads_as(*old(cur), *final(cur), r, spec_command(old(cur).buffer(), Ok(old(cur).offset()))),
{
    let at = cur.position();
    match cur.peek() {
        None => Err(DecodeError { kind: ErrorKind::UnexpectedEnd, position: at }),
        Some(letter) => {
            if letter == 0x41 {
                Ok(Command::AsciiText(parse_ascii_text(cur)?))
            } else if letter == 0x42 {
                Ok(Command::BarCodeStandard(parse_bar_code_standard(cur)?))
            } else if letter == 0x62 {
                Ok(Command::BarCode2D(parse_bar_code_2d(cur)?))
            } else if letter == 0x44 {
                Ok(Command::Density(parse_density(cur)?))
            } else if letter == 0x47 {
                Ok(Command::Graphics(parse_graphics(cur)?))
            } else if letter == 0x49 {
                Ok(Command::CharacterSetSelection(parse_character_set_selection(cur)?))
            } else if letter == 0x4C {
                Ok(Command::LineDraw(parse_line_draw(cur)?))
            } else if letter == 0x4E {
                parse_clear_image_buffer(cur)?;
                Ok(Command::ClearImageBuffer)
            } else if letter == 0x50 {
                Ok(Command::Print(parse_print(cur)?))
            } else if letter == 0x71 {
                Ok(Command::SetFormWidth(parse_set_form_width(cur)?))
            } else if letter == 0x51 {
                Ok(Command::SetFormLength(parse_set_form_length(cur)?))
            } else if letter == 0x53 {
                Ok(Command::SpeedSelect(parse_speed_select(cur)?))
            } else if letter == 0x55 {
                parse_print_configuration(cur)?;
                Ok(Command::PrintConfiguration)
            } else if letter == 0x57 {
                Ok(Command::WindowsMode(parse_windows_mode(cur)?))
            } else if letter == 0x58 {
                Ok(Command::BoxDraw(parse_box_draw(cur)?))
            } else if letter == 0x5A {
                Ok(Command::PrintDirection(parse_print_direction(cur)?))
            } else {
                Err(DecodeError { kind: ErrorKind::UnknownCommand(letter), position: at })
            }
        },
    }
}

/// Reading a command only moves forward, and an error is placed inside the
/// command. What is read is at least one byte long, and valid.
pub proof fn lemma_command_reads(s: Seq<u8>, pos: int)
    ensures
        follows(s, Ok(pos), spec_command(s, Ok(pos)).1),
        spec_command(s, Ok(pos)).1 is Ok ==> pos < spec_command(s, Ok(pos)).1->Ok_0,
        0 <= pos && spec_command(s, Ok(pos)).1 is Ok ==> spec_command(s, Ok(pos)).0.valid(),
{
    if let Some(letter) = byte_at(s, pos) {
        if letter == 0x41 {
            lemma_ascii_text_reads(s, pos);
        } else if letter == 0x42 {
            lemma_bar_code_standard_reads(s, pos);
        } else if letter == 0x62 {
            lemma_bar_code_2d_reads(s, pos);
        } else if letter == 0x44 {
            lemma_density_reads(s, pos);
        } else if letter == 0x47 {
            lemma_graphics_reads(s, pos);
        } else if letter == 0x49 {
            lemma_character_set_selection_reads(s, pos);
        } else if letter == 0x4C {
            lemma_line_draw_reads(s, pos);
        } else if letter == 0x4E {
            lemma_clear_image_buffer_reads(s, pos);
        } else if letter == 0x50 {
            lemma_print_reads(s, pos);
        } else if letter == 0x71 {
            lemma_set_form_width_reads(s, pos);
        } else if letter == 0x51 {
            lemma_set_form_length_reads(s, pos);
        } else if letter == 0x53 {
            lemma_speed_select_reads(s, pos);
        } else if letter == 0x55 {
            lemma_print_configuration_reads(s, pos);
        } else if letter == 0x57 {
            lemma_windows_mode_reads(s, pos);
        } else if letter == 0x58 {
            lemma_box_draw_reads(s, pos);
        } else if letter == 0x5A {
            lemma_print_direction_reads(s, pos);
        }
    }
}

} // verus!
