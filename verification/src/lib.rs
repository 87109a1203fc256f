//! Decoder for EPL2 label-printer command streams.
//!
//! An EPL2 job is a byte buffer of ASCII text commands interleaved with raw
//! binary payloads. This crate turns such a buffer into typed command
//! records, in stream order, and reports what it could not decode.
//!
//! [`decoder::decode`] decodes a whole buffer; [`decoder::StreamDecoder`]
//! hands the entries out one by one. Below them stand, leaves first:
//!
//! - [`cursor`]: the buffer and the read position;
//! - [`primitives`]: separators, numbers, quoted strings, raw blocks;
//! - [`values`] and [`fields`]: the domains of fields and their validators;
//! - [`commands`] and [`grammar`]: the records and the grammar of each
//!   command;
//! - [`dispatch`]: the choice of a grammar by the command letter.
//!
//! [`text`] writes a command in its canonical text. [`laws`] states what
//! holds of all of this, the round trip of reading and writing first of all;
//! [`scan`] and [`round_trip`] hold the vocabulary and the lemmas on which
//! the laws rest.
//!
//! # Proofs about given bytes
//!
//! The contracts are stated over grammar functions. Those that walk the
//! buffer are recursive: [`primitives::digits_end`],
//! [`primitives::decimal_value`], [`primitives::spec_string_body`],
//! [`decoder::blanks_end`], [`decoder::line_end`],
//! [`decoder::skip_blank_lines`] and [`decoder::spec_decode`]. A proof about
//! what is read from given bytes reveals each of them with as much fuel as
//! the bytes are long.

pub mod commands;
pub mod cursor;
pub mod decoder;
pub mod dispatch;
pub mod error;
pub mod fields;
pub mod grammar;
pub mod laws;
pub mod primitives;
pub mod round_trip;
pub mod scan;
pub mod text;
pub mod values;
