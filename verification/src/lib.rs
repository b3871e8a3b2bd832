//! Conversion between two representations of a chess game: a compact binary
//! encoding ("ASCN") and a human-readable, move-numbered movetext ("PGN"-like).
//!
//! The heart of the crate is the move-notation codec: a pure notation
//! generator that turns a move and the facts read from the board before the
//! move into an unambiguous textual token, an assembler that folds a stream of
//! such records into numbered movetext, and a total bidirectional codec for
//! game outcomes.  Board-rule enforcement and the binary layout itself belong
//! to outside collaborators; the crate reads boards only through a narrow,
//! clearly marked trusted interface.

pub mod board;
pub mod format;
pub mod movetext;
pub mod notation;
pub mod outcome;
pub mod text;
