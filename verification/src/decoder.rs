//! The stream decoder: the loop that finds the next command boundary, has
//! the command read, records the command or the error, and goes on.
//!
//! A command that cannot be read costs the line on which it starts: decoding
//! resumes after the next line terminator. The one exception is a command
//! with a raw payload. Where such a command fails, nothing tells how many
//! bytes belong to it, so its error is the last entry of the pass.

use vstd::prelude::*;
use crate::commands::{Command, CommandModel};
use crate::cursor::ByteCursor;
use crate::dispatch::{dispatch, lemma_command_reads, spec_command};
use crate::error::DecodeError;
use crate::primitives::LINE_FEED;
use crate::scan::byte_at;

verus! {

/// A byte that may stand on a blank line: a space, a tab or a carriage
/// return.
pub open spec fn is_blank(b: u8) -> bool {
    b == 0x20 || b == 0x09 || b == 0x0D
}

/// The end of the longest run of blank bytes that starts at `pos`.
pub open spec fn blanks_end(s: Seq<u8>, pos: int) -> int
    decreases s.len() - pos,
{
    if 0 <= pos < s.len() && is_blank(s[pos]) {
        blanks_end(s, pos + 1)
    } else {
        pos
    }
}

/// The offset of the first line terminator at or after `pos`, or the end of
/// the buffer where there is none.
pub open spec fn line_end(s: Seq<u8>, pos: int) -> int
    decreases s.len() - pos,
{
    if 0 <= pos < s.len() && s[pos] != LINE_FEED {
        line_end(s, pos + 1)
    } else {
        pos
    }
}

/// The start of the line after the one that holds `pos`, or the end of the
/// buffer where that line is the last.
pub open spec fn next_line(s: Seq<u8>, pos: int) -> int {
    if 0 <= line_end(s, pos) < s.len() {
        line_end(s, pos) + 1
    } else {
        line_end(s, pos)
    }
}

/// The command boundary at or after `pos`: the start of the first line from
/// `pos` on that holds anything but blank bytes, or the end of the buffer.
pub open spec fn skip_blank_lines(s: Seq<u8>, pos: int) -> int
    decreases s.len() - pos,
    via skip_blank_lines_decreases
{
    let end = blanks_end(s, pos);
    if 0 <= end < s.len() {
        if s[end] == LINE_FEED {
            skip_blank_lines(s, end + 1)
        } else {
            pos
        }
    } else {
        end
    }
}

#[via_fn]
proof fn skip_blank_lines_decreases(s: Seq<u8>, pos: int) {
    lemma_blanks_end_bounds(s, pos);
}

/// A run of blank bytes ends at or after its start, inside the buffer, and
/// at a byte that is not blank.
pub proof fn lemma_blanks_end_bounds(s: Seq<u8>, pos: int)
    ensures
        pos <= blanks_end(s, pos),
        0 <= pos <= s.len() ==> blanks_end(s, pos) <= s.len(),
        0 <= blanks_end(s, pos) < s.len() ==> !is_blank(s[blanks_end(s, pos)]),
    decreases s.len() - pos,
{
    if 0 <= pos < s.len() && is_blank(s[pos]) {
        lemma_blanks_end_bounds(s, pos + 1);
    }
}

/// A run of blank bytes that ends at `end` is the longest one.
pub proof fn lemma_blanks_end(s: Seq<u8>, pos: int, end: int)
    requires
        0 <= pos <= end <= s.len(),
        forall|i: int| pos <= i < end ==> is_blank(#[trigger] s[i]),
        end < s.len() ==> !is_blank(s[end]),
    ensures
        blanks_end(s, pos) == end,
    decreases end - pos,
{
    if pos < end {
        lemma_blanks_end(s, pos + 1, end);
    }
}

/// A line ends at or after any of its offsets, inside the buffer.
pub proof fn lemma_line_end_bounds(s: Seq<u8>, pos: int)
    ensures
        pos <= line_end(s, pos),
        0 <= pos <= s.len() ==> line_end(s, pos) <= s.len(),
    decreases s.len() - pos,
{
    if 0 <= pos < s.len() && s[pos] != LINE_FEED {
        lemma_line_end_bounds(s, pos + 1);
    }
}

/// A stretch without a line terminator that ends at `end`, at a line
/// terminator or at the end of the buffer, ends where the line ends.
pub proof fn lemma_line_end(s: Seq<u8>, pos: int, end: int)
    requires
        0 <= pos <= end <= s.len(),
        forall|i: int| pos <= i < end ==> #[trigger] s[i] != LINE_FEED,
        end < s.len() ==> s[end] == LINE_FEED,
    ensures
        line_end(s, pos) == end,
    decreases end - pos,
{
    if pos < end {
        lemma_line_end(s, pos + 1, end);
    }
}

/// The command boundary after `pos` is not before `pos`, and inside the
/// buffer.
pub proof fn lemma_skip_blank_lines_bounds(s: Seq<u8>, pos: int)
    requires
        0 <= pos <= s.len(),
    ensures
        pos <= skip_blank_lines(s, pos) <= s.len(),
    decreases s.len() - pos,
{
    lemma_blanks_end_bounds(s, pos);
    let end = blanks_end(s, pos);
    if 0 <= end < s.len() && s[end] == LINE_FEED {
        lemma_skip_blank_lines_bounds(s, end + 1);
    }
}

/// The command that starts at `start` has a raw payload: it is `b` or `GW`.
pub open spec fn carries_payload(s: Seq<u8>, start: int) -> bool {
    ||| byte_at(s, start) == Some(0x62u8)
    ||| (byte_at(s, start) == Some(0x47u8) && byte_at(s, start + 1) == Some(0x57u8))
}

/// One entry of the decoded stream: where a command starts, and the command
/// or the reason why it could not be read.
#[derive(Debug, PartialEq, Eq)]
pub struct Entry {
    pub position: usize,
    pub outcome: Result<Command, DecodeError>,
}

/// What an [`Entry`] holds.
pub struct EntryModel {
    pub position: int,
    pub outcome: Result<CommandModel, DecodeError>,
}

impl View for Entry {
    type V = EntryModel;

    open spec fn view(&self) -> EntryModel {
        EntryModel {
            position: self.position as int,
            outcome: match self.outcome {
                Ok(command) => Ok(command@),
                Err(e) => Err(e),
            },
        }
    }
}

/// The models of a sequence of entries, in the same order.
pub open spec fn models(entries: Seq<Entry>) -> Seq<EntryModel> {
    entries.map_values(|e: Entry| e@)
}

/// The entry for the command boundary `start`, and the offset at which
/// decoding resumes after it: past the command where it was read, on the
/// next line where it was not, and nowhere where a command with a raw
/// payload failed.
pub open spec fn spec_entry(s: Seq<u8>, start: int) -> (EntryModel, Option<int>) {
    let (command, end) = spec_command(s, Ok(start));
    match end {
        Ok(next) => (EntryModel { position: start, outcome: Ok(command) }, Some(next)),
        Err(e) => (
            EntryModel { position: start, outcome: Err(e) },
            if carries_payload(s, start) {
                None
            } else {
                Some(next_line(s, start))
            },
        ),
    }
}

/// The decoded stream of the buffer `s` from offset `pos` on: one entry for
/// each command boundary, in stream order.
pub open spec fn spec_decode(s: Seq<u8>, pos: int) -> Seq<EntryModel>
    decreases s.len() - pos,
    via spec_decode_decreases
{
    let start = skip_blank_lines(s, pos);
    if 0 <= pos <= start < s.len() {
        let (entry, resume) = spec_entry(s, start);
        match resume {
            Some(next) => seq![entry] + spec_decode(s, next),
            None => seq![entry],
        }
    } else {
        Seq::empty()
    }
}

#[via_fn]
proof fn spec_decode_decreases(s: Seq<u8>, pos: int) {
    let start = skip_blank_lines(s, pos);
    if 0 <= pos <= start < s.len() {
        lemma_resume_advances(s, start);
    }
}

/// Decoding resumes after the boundary that it has dealt with, inside the
/// buffer.
pub proof fn lemma_resume_advances(s: Seq<u8>, start: int)
    requires
        0 <= start < s.len(),
    ensures
        spec_entry(s, start).1 is Some ==> start < spec_entry(s, start).1->Some_0 <= s.len(),
{
    lemma_command_reads(s, start);
    lemma_line_end_bounds(s, start);
}

/// Moves the cursor to the next command boundary.
pub fn skip_to_boundary(cur: &mut ByteCursor<'_>)
    ensures
        final(cur).buffer() == old(cur).buffer(),
        final(cur).offset() == skip_blank_lines(old(cur).buffer(), old(cur).offset()),
{
    let ghost s = cur.buffer();
    let ghost from = cur.offset();
    loop
        invariant
            s == old(cur).buffer(),
            from == old(cur).offset(),
            cur.buffer() == s,
            skip_blank_lines(s, from) == skip_blank_lines(s, cur.offset()),
        decreases s.len() - cur.offset(),
    {
        let here = cur.position();
        let mut ahead = *cur;
        let blank = |b: u8| -> (r: bool)
            ensures
                r == is_blank(b),
            { b == 0x20 || b == 0x09 || b == 0x0D };
        let _ = ahead.read_while(blank);
        proof {
            let end = ahead.offset();
            assert forall|i: int| here <= i < end implies is_blank(#[trigger] s[i]) by {
                assert(blank.ensures((s[i],), true));
            }
            lemma_blanks_end(s, here as int, end);
        }
        match ahead.peek() {
            None => {
                *cur = ahead;
                return ;
            },
            Some(b) => {
                if b == LINE_FEED {
                    let _ = ahead.advance(1);
                    *cur = ahead;
                } else {
                    return ;
                }
            },
        }
    }
}

/// Moves the cursor past the next line terminator, or to the end of the
/// buffer where none follows.
pub fn skip_line(cur: &mut ByteCursor<'_>)
    ensures
        final(cur).buffer() == old(cur).buffer(),
        final(cur).offset() == next_line(old(cur).buffer(), old(cur).offset()),
{
    let ghost s = cur.buffer();
    let here = cur.position();
    let inside = |b: u8| -> (r: bool)
        ensures
            r == (b != LINE_FEED),
        { b != LINE_FEED };
    let _ = cur.read_while(inside);
    proof {
        let end = cur.offset();
        assert forall|i: int| here <= i < end implies #[trigger] s[i] != LINE_FEED by {
            assert(inside.ensures((s[i],), true));
        }
        lemma_line_end(s, here as int, end);
    }
    let _ = cur.advance(1);
}

/// The states of the stream decoder. A pass starts in `Ready` and ends in
/// `Done`.
#[derive(Debug, PartialEq, Eq)]
pub enum DecoderState {
    /// Between commands: the next command boundary is to be found.
    Ready,
    /// At a command boundary: the command is to be read.
    Dispatching,
    /// A command was read and is to be recorded.
    Emit(Command),
    /// A command could not be read; the error is to be recorded.
    Recover(DecodeError),
    /// The pass is over.
    Done,
}

/// What a [`DecoderState`] holds.
pub enum StateModel {
    Ready,
    Dispatching,
    Emit(CommandModel),
    Recover(DecodeError),
    Done,
}

impl View for DecoderState {
    type V = StateModel;

    open spec fn view(&self) -> StateModel {
        match self {
            DecoderState::Ready => StateModel::Ready,
            DecoderState::Dispatching => StateModel::Dispatching,
            DecoderState::Emit(command) => StateModel::Emit(command@),
            DecoderState::Recover(e) => StateModel::Recover(*e),
            DecoderState::Done => StateModel::Done,
        }
    }
}

/// What a [`StreamDecoder`] holds: the buffer, the read position, the
/// boundary of the command in hand, and the state.
pub struct DecoderModel {
    pub buffer: Seq<u8>,
    pub position: int,
    pub start: int,
    pub state: StateModel,
}

impl DecoderModel {
    /// The decoder at the start of a pass over `buffer`.
    pub open spec fn initial(buffer: Seq<u8>) -> DecoderModel {
        DecoderModel { buffer, position: 0, start: 0, state: StateModel::Ready }
    }

    /// The positions are in order and inside the buffer, and a command that
    /// is yet to be read, or was not read, has the read position at its start.
    pub open spec fn consistent(self) -> bool {
        &&& 0 <= self.start <= self.position <= self.buffer.len()
        &&& (self.state is Dispatching || self.state is Recover) ==> {
            &&& self.position == self.start
            &&& self.start < self.buffer.len()
        }
    }

    /// One transition: the decoder after it, and the entry that it adds to
    /// the decoded stream, if any.
    pub open spec fn step(self) -> (DecoderModel, Option<EntryModel>) {
        match self.state {
            StateModel::Ready => {
                let start = skip_blank_lines(self.buffer, self.position);
                if start < self.buffer.len() {
                    (
                        DecoderModel {
                            position: start,
                            start,
                            state: StateModel::Dispatching,
                            ..self
                        },
                        None,
                    )
                } else {
                    (DecoderModel { position: start, state: StateModel::Done, ..self }, None)
                }
            },
            StateModel::Dispatching => {
                let (command, end) = spec_command(self.buffer, Ok(self.start));
                match end {
                    Ok(next) => (
                        DecoderModel { position: next, state: StateModel::Emit(command), ..self },
                        None,
                    ),
                    Err(e) => (DecoderModel { state: StateModel::Recover(e), ..self }, None),
                }
            },
            StateModel::Emit(command) => (
                DecoderModel { state: StateModel::Ready, ..self },
                Some(EntryModel { position: self.start, outcome: Ok(command) }),
            ),
            StateModel::Recover(e) => (
                if carries_payload(self.buffer, self.start) {
                    DecoderModel { state: StateModel::Done, ..self }
                } else {
                    DecoderModel {
                        position: next_line(self.buffer, self.start),
                        state: StateModel::Ready,
                        ..self
                    }
                },
                Some(EntryModel { position: self.start, outcome: Err(e) }),
            ),
            StateModel::Done => (self, None),
        }
    }

    /// The entries that the pass will still add to the decoded stream.
    pub open spec fn pending(self) -> Seq<EntryModel> {
        match self.state {
            StateModel::Ready => spec_decode(self.buffer, self.position),
            StateModel::Dispatching => {
                let (entry, resume) = spec_entry(self.buffer, self.start);
                match resume {
                    Some(next) => seq![entry] + spec_decode(self.buffer, next),
                    None => seq![entry],
                }
            },
            StateModel::Emit(command) => seq![
                EntryModel { position: self.start, outcome: Ok(command) },
            ] + spec_decode(self.buffer, self.position),
            StateModel::Recover(e) => if carries_payload(self.buffer, self.start) {
                seq![EntryModel { position: self.start, outcome: Err(e) }]
            } else {
                seq![EntryModel { position: self.start, outcome: Err(e) }] + spec_decode(
                    self.buffer,
                    next_line(self.buffer, self.start),
                )
            },
            StateModel::Done => Seq::empty(),
        }
    }

    /// A bound on the number of transitions that are left in the pass.
    pub open spec fn budget(self) -> nat {
        let left = self.buffer.len() - self.position;
        match self.state {
            StateModel::Ready => (4 * left + 3) as nat,
            StateModel::Dispatching => (4 * left + 2) as nat,
            StateModel::Emit(_) => (4 * left + 4) as nat,
            StateModel::Recover(_) => (4 * left + 1) as nat,
            StateModel::Done => 0,
        }
    }
}

/// A transition keeps the decoder consistent and the buffer as it is, and
/// never moves the read position back; the entry that it adds, if any, is
/// the first of those that were pending, and the rest stay pending; and
/// unless the pass is over, it uses up budget.
pub proof fn lemma_step(m: DecoderModel)
    requires
        m.consistent(),
    ensures
        m.step().0.consistent(),
        m.step().0.buffer == m.buffer,
        m.step().0.position >= m.position,
        m.pending() == match m.step().1 {
            Some(entry) => seq![entry] + m.step().0.pending(),
            None => m.step().0.pending(),
        },
        !(m.state is Done) ==> m.step().0.budget() < m.budget(),
        m.state is Done ==> m.step().0 == m,
{
    let s = m.buffer;
    match m.state {
        StateModel::Ready => {
            lemma_skip_blank_lines_bounds(s, m.position);
        },
        StateModel::Dispatching => {
            lemma_command_reads(s, m.start);
        },
        StateModel::Emit(_) => {},
        StateModel::Recover(_) => {
            lemma_line_end_bounds(s, m.start);
        },
        StateModel::Done => {},
    }
}

/// The stream decoder: a pass over one buffer, from which the entries of the
/// decoded stream are taken one by one.
#[derive(Debug)]
pub struct StreamDecoder<'a> {
    cursor: ByteCursor<'a>,
    start: usize,
    state: DecoderState,
}

impl<'a> View for StreamDecoder<'a> {
    type V = DecoderModel;

    closed spec fn view(&self) -> DecoderModel {
        DecoderModel {
            buffer: self.cursor.buffer(),
            position: self.cursor.offset(),
            start: self.start as int,
            state: self.state@,
        }
    }
}

impl<'a> StreamDecoder<'a> {
    /// A decoder is always consistent.
    #[verifier::type_invariant]
    pub open spec fn well_formed(&self) -> bool {
        self@.consistent()
    }

    /// A decoder at the start of a pass over `buf`.
    pub fn new(buf: &'a [u8]) -> (decoder: Self)
        ensures
            decoder@ == DecoderModel::initial(buf@),
    {
        StreamDecoder { cursor: ByteCursor::new(buf), start: 0, state: DecoderState::Ready }
    }

    /// Whether the pass is over.
    pub fn is_done(&self) -> (done: bool)
        ensures
            done == (self@.state is Done),
    {
        match &self.state {
            DecoderState::Done => true,
            _ => false,
        }
    }

    /// The state in which the decoder stands.
    pub fn state(&self) -> (state: &DecoderState)
        ensures
            state@ == self@.state,
    {
        &self.state
    }

    /// The read position.
    pub fn position(&self) -> (p: usize)
        ensures
            p == self@.position,
    {
        self.cursor.position()
    }

    /// Makes one transition and returns the entry that it adds to the
    /// decoded stream, if it adds one.
    pub fn step(&mut self) -> (emitted: Option<Entry>)
        ensures
            final(self)@ == old(self)@.step().0,
            match emitted {
                Some(entry) => old(self)@.step().1 == Some(entry@),
                None => old(self)@.step().1 is None,
            },
    {
        proof {
            use_type_invariant(&*self);
            lemma_step(self@);
        }
        let mut state = DecoderState::Ready;
        core::mem::swap(&mut self.state, &mut state);
        let mut cursor = self.cursor;
        let start = self.start;
        match state {
            DecoderState::Ready => {
                skip_to_boundary(&mut cursor);
                let boundary = cursor.position();
                if cursor.remaining() > 0 {
                    *self = StreamDecoder {
                        cursor,
                        start: boundary,
                        state: DecoderState::Dispatching,
                    };
                } else {
                    *self = StreamDecoder { cursor, start, state: DecoderState::Done };
                }
                None
            },
            DecoderState::Dispatching => {
                match dispatch(&mut cursor) {
                    Ok(command) => {
                        *self = StreamDecoder { cursor, start, state: DecoderState::Emit(command) };
                    },
                    Err(e) => {
                        *self = StreamDecoder { cursor, start, state: DecoderState::Recover(e) };
                    },
                }
                None
            },
            DecoderState::Emit(command) => {
                *self = StreamDecoder { cursor, start, state: DecoderState::Ready };
                Some(Entry { position: start, outcome: Ok(command) })
            },
            DecoderState::Recover(e) => {
                let first = cursor.peek();
                let mut ahead = cursor;
                let _ = ahead.advance(1);
                let second = ahead.peek();
                if first == Some(0x62u8) || (first == Some(0x47u8) && second == Some(0x57u8)) {
                    *self = StreamDecoder { cursor, start, state: DecoderState::Done };
                } else {
                    skip_line(&mut cursor);
                    *self = StreamDecoder { cursor, start, state: DecoderState::Ready };
                }
                Some(Entry { position: start, outcome: Err(e) })
            },
            DecoderState::Done => {
                *self = StreamDecoder { cursor, start, state: DecoderState::Done };
                None
            },
        }
    }

    /// Runs the pass up to its next entry and returns it, or `None` once the
    /// pass is over.
    pub fn next_entry(&mut self) -> (next: Option<Entry>)
        ensures
            final(self)@.buffer == old(self)@.buffer,
            match next {
                Some(entry) => old(self)@.pending() == seq![entry@] + final(self)@.pending(),
                None => old(self)@.pending().len() == 0 && final(self)@.state is Done,
            },
    {
        loop
            invariant
                self@.buffer == old(self)@.buffer,
                self@.pending() == old(self)@.pending(),
            decreases self@.budget(),
        {
            if self.is_done() {
                return None;
            }
            proof {
                use_type_invariant(&*self);
                lemma_step(self@);
            }
            let emitted = self.step();
            if emitted.is_some() {
                return emitted;
            }
        }
    }
}

/// Decodes the buffer: the whole decoded stream, in stream order.
pub fn decode(buf: &[u8]) -> (entries: Vec<Entry>)
    ensures
        models(entries@) == spec_decode(buf@, 0),
{
    let mut decoder = StreamDecoder::new(buf);
    let mut entries: Vec<Entry> = Vec::new();
    assert(models(entries@) =~= Seq::<EntryModel>::empty());
    loop
        invariant
            spec_decode(buf@, 0) == models(entries@) + decoder@.pending(),
        decreases decoder@.pending().len(),
    {
        match decoder.next_entry() {
            Some(entry) => {
                proof {
                    assert(models(entries@.push(entry)) =~= models(entries@).push(entry@));
                    assert(models(entries@).push(entry@) + decoder@.pending() =~= models(entries@)
                        + (seq![entry@] + decoder@.pending()));
                }
                entries.push(entry);
            },
            None => {
                return entries;
            },
        }
    }
}

} // verus!
