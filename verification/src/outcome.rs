//! The outcome codec: the fixed bidirectional mapping between a game's
//! terminal outcome and its textual token.

use vstd::prelude::*;
use crate::text::str_eq;

verus! {

/// The terminal result of a game.
#[derive(Debug, PartialEq, Eq, Structural, Clone, Copy)]
pub enum Outcome {
    WhiteWins,
    BlackWins,
    Draw,
    Unknown,
}

impl Outcome {
    /// The token of an outcome: "1-0", "0-1", "1/2-1/2" or "*".
    pub open spec fn token_spec(self) -> Seq<char> {
        match self {
            Outcome::WhiteWins => "1-0"@,
            Outcome::BlackWins => "0-1"@,
            Outcome::Draw => "1/2-1/2"@,
            Outcome::Unknown => "*"@,
        }
    }

    /// The outcome a token decodes to.  Total: every unrecognized token
    /// decodes to `Unknown`.
    pub open spec fn of_token_spec(s: Seq<char>) -> Outcome {
        if s == "1-0"@ {
            Outcome::WhiteWins
        } else if s == "0-1"@ {
            Outcome::BlackWins
        } else if s == "1/2-1/2"@ {
            Outcome::Draw
        } else {
            Outcome::Unknown
        }
    }

    /// The textual token of this outcome.
    pub fn token(&self) -> (r: &'static str)
        ensures
            r@ == self.token_spec(),
    {
        match self {
            Outcome::WhiteWins => "1-0",
            Outcome::BlackWins => "0-1",
            Outcome::Draw => "1/2-1/2",
            Outcome::Unknown => "*",
        }
    }

    /// Decodes a token.  Total — it never fails: the three winning and
    /// drawing tokens map to their outcomes, everything else to `Unknown`.
    pub fn from_token(s: &str) -> (r: Outcome)
        ensures
            r == Outcome::of_token_spec(s@),
    {
        if str_eq(s, "1-0") {
            Outcome::WhiteWins
        } else if str_eq(s, "0-1") {
            Outcome::BlackWins
        } else if str_eq(s, "1/2-1/2") {
            Outcome::Draw
        } else {
            Outcome::Unknown
        }
    }
}

/// Law: the outcome codec round-trips — decoding any outcome's own token
/// gives that outcome back.
pub proof fn lemma_outcome_round_trip(o: Outcome)
    ensures
        Outcome::of_token_spec(o.token_spec()) == o,
{
    reveal_strlit("1-0");
    reveal_strlit("0-1");
    reveal_strlit("1/2-1/2");
    reveal_strlit("*");
    assert("1-0"@.len() == 3);
    assert("0-1"@.len() == 3);
    assert("1/2-1/2"@.len() == 7);
    assert("*"@.len() == 1);
    assert("1-0"@[0] == '1' && "0-1"@[0] == '0');
}

} // verus!
