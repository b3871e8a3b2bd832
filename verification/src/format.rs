//! The two on-disk formats the tool converts between, and how each is named
//! by a file extension.

use vstd::prelude::*;
use crate::text::str_eq;

verus! {

/// A game file format: the compact binary encoding or the movetext form.
#[derive(Debug, PartialEq, Eq, Structural, Clone, Copy)]
pub enum Format {
    ASCN,
    PGN,
}

impl Format {
    /// The format a conversion of this one produces: conversion always goes
    /// to the other representation.
    pub fn opposite(&self) -> (r: Format)
        ensures
            r == (match self {
                Format::ASCN => Format::PGN,
                Format::PGN => Format::ASCN,
            }),
    {
        match self {
            Format::ASCN => Format::PGN,
            Format::PGN => Format::ASCN,
        }
    }

    /// The file extension that names this format.
    pub open spec fn extension_spec(self) -> Seq<char> {
        match self {
            Format::ASCN => "ascn"@,
            Format::PGN => "pgn"@,
        }
    }

    /// The file extension that names this format.
    pub fn get_extension(&self) -> (r: &'static str)
        ensures
            r@ == self.extension_spec(),
    {
        match self {
            Format::ASCN => "ascn",
            Format::PGN => "pgn",
        }
    }

    /// The format named by a file extension, if any: `"ascn"` and `"pgn"` are
    /// recognized, every other extension is rejected with `None`.
    pub fn from_extension(ext: &str) -> (r: Option<Format>)
        ensures
            r == (if ext@ == "ascn"@ {
                Some(Format::ASCN)
            } else if ext@ == "pgn"@ {
                Some(Format::PGN)
            } else {
                None::<Format>
            }),
    {
        if str_eq(ext, "ascn") {
            Some(Format::ASCN)
        } else if str_eq(ext, "pgn") {
            Some(Format::PGN)
        } else {
            None
        }
    }
}

} // verus!
