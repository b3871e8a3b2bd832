//! The notation generator: a pure function from a move and the facts read
//! from the board immediately before it to an unambiguous textual token.
//!
//! The emitted form always includes the source square, so a token never needs
//! the disambiguation search of standard notation and can be decoded without
//! re-deriving legality.

use vstd::prelude::*;
use crate::text::digit_char;

verus! {

/// The kind of a chess piece.
#[derive(Debug, PartialEq, Eq, Structural, Clone, Copy)]
pub enum PieceKind {
    Pawn,
    Knight,
    Bishop,
    Rook,
    Queen,
    King,
}

/// A board square: a file (column, 0 is "a") and a rank (row, 0 is "1").
#[derive(Debug, PartialEq, Eq, Structural, Clone, Copy)]
pub struct Square {
    pub file: u8,
    pub rank: u8,
}

impl Square {
    /// A square lies on the 8 by 8 board.
    pub open spec fn wf(self) -> bool {
        self.file < 8 && self.rank < 8
    }

    /// The square's position in rank-major order, the usual board index.
    pub open spec fn index_spec(self) -> int {
        self.rank * 8 + self.file
    }

    /// The square's two-character name, such as "e2".
    pub open spec fn name_spec(self) -> Seq<char> {
        seq![file_char(self.file as nat), rank_char(self.rank as nat)]
    }
}

/// A move: source and destination square and an optional promotion piece.
#[derive(Debug, PartialEq, Eq, Structural, Clone, Copy)]
pub struct Mv {
    pub from: Square,
    pub to: Square,
    pub promotion: Option<PieceKind>,
}

impl Mv {
    /// Both endpoints lie on the board.
    pub open spec fn wf(self) -> bool {
        self.from.wf() && self.to.wf()
    }
}

/// What the position looks like right after a move: checkmate, a plain
/// check, or neither.
#[derive(Debug, PartialEq, Eq, Structural, Clone, Copy)]
pub enum Aftermath {
    Checkmate,
    Check,
    Quiet,
}

/// One half-move of a game: the move itself together with everything the
/// notation generator reads from the surrounding boards — the kind of the
/// moving piece, whether the destination square was occupied just before the
/// move, and the check status of the resulting position.
#[derive(Debug, PartialEq, Eq, Structural, Clone, Copy)]
pub struct MoveRecord {
    pub mv: Mv,
    pub piece: PieceKind,
    pub capture: bool,
    pub aftermath: Aftermath,
}

impl MoveRecord {
    /// The move's squares lie on the board.
    pub open spec fn wf(self) -> bool {
        self.mv.wf()
    }
}

/// The letter of a piece kind.
pub open spec fn piece_char(p: PieceKind) -> char {
    match p {
        PieceKind::Pawn => 'P',
        PieceKind::Knight => 'N',
        PieceKind::Bishop => 'B',
        PieceKind::Rook => 'R',
        PieceKind::Queen => 'Q',
        PieceKind::King => 'K',
    }
}

/// The letter of a file: 0 is 'a', 7 is 'h'.
pub open spec fn file_char(f: nat) -> char {
    if f == 0 {
        'a'
    } else if f == 1 {
        'b'
    } else if f == 2 {
        'c'
    } else if f == 3 {
        'd'
    } else if f == 4 {
        'e'
    } else if f == 5 {
        'f'
    } else if f == 6 {
        'g'
    } else {
        'h'
    }
}

/// The digit of a rank: 0 is '1', 7 is '8'.
pub open spec fn rank_char(r: nat) -> char {
    digit_char(r + 1)
}

/// The token the notation generator owes a move record: piece letter, source
/// square, "x" exactly on captures, destination square, "=" and the piece
/// letter on promotions, then "#" on checkmate or "+" on a plain check.
pub open spec fn san_spec(rec: MoveRecord) -> Seq<char> {
    seq![piece_char(rec.piece)] + rec.mv.from.name_spec() + (if rec.capture {
        seq!['x']
    } else {
        Seq::<char>::empty()
    }) + rec.mv.to.name_spec() + (match rec.mv.promotion {
        Some(p) => seq!['=', piece_char(p)],
        None => Seq::<char>::empty(),
    }) + (match rec.aftermath {
        Aftermath::Checkmate => seq!['#'],
        Aftermath::Check => seq!['+'],
        Aftermath::Quiet => Seq::<char>::empty(),
    })
}

/// The one-letter string of a piece kind.
pub fn get_piece(piece: PieceKind) -> (r: &'static str)
    ensures
        r@ == seq![piece_char(piece)],
{
    proof {
        reveal_strlit("P");
        reveal_strlit("N");
        reveal_strlit("B");
        reveal_strlit("R");
        reveal_strlit("Q");
        reveal_strlit("K");
    }
    match piece {
        PieceKind::Pawn => "P",
        PieceKind::Knight => "N",
        PieceKind::Bishop => "B",
        PieceKind::Rook => "R",
        PieceKind::Queen => "Q",
        PieceKind::King => "K",
    }
}

/// The one-letter string of a file.
fn file_str(f: u8) -> (r: &'static str)
    ensures
        r@ == seq![file_char(f as nat)],
{
    proof {
        reveal_strlit("a");
        reveal_strlit("b");
        reveal_strlit("c");
        reveal_strlit("d");
        reveal_strlit("e");
        reveal_strlit("f");
        reveal_strlit("g");
        reveal_strlit("h");
    }
    if f == 0 {
        "a"
    } else if f == 1 {
        "b"
    } else if f == 2 {
        "c"
    } else if f == 3 {
        "d"
    } else if f == 4 {
        "e"
    } else if f == 5 {
        "f"
    } else if f == 6 {
        "g"
    } else {
        "h"
    }
}

/// The one-digit string of a rank.
fn rank_str(r: u8) -> (s: &'static str)
    ensures
        s@ == seq![rank_char(r as nat)],
{
    proof {
        reveal_strlit("1");
        reveal_strlit("2");
        reveal_strlit("3");
        reveal_strlit("4");
        reveal_strlit("5");
        reveal_strlit("6");
        reveal_strlit("7");
        reveal_strlit("8");
        reveal_strlit("9");
    }
    if r == 0 {
        "1"
    } else if r == 1 {
        "2"
    } else if r == 2 {
        "3"
    } else if r == 3 {
        "4"
    } else if r == 4 {
        "5"
    } else if r == 5 {
        "6"
    } else if r == 6 {
        "7"
    } else if r == 7 {
        "8"
    } else {
        "9"
    }
}

/// The notation generator: the token of one move record, exactly as
/// `san_spec` states it.  Total: every record gets a token.
pub fn get_san(rec: &MoveRecord) -> (s: String)
    ensures
        s@ == san_spec(*rec),
{
    let mut s = String::from_str(get_piece(rec.piece));
    s.append(file_str(rec.mv.from.file));
    s.append(rank_str(rec.mv.from.rank));
    if rec.capture {
        proof {
            reveal_strlit("x");
        }
        s.append("x");
    }
    s.append(file_str(rec.mv.to.file));
    s.append(rank_str(rec.mv.to.rank));
    match rec.mv.promotion {
        Some(p) => {
            proof {
                reveal_strlit("=");
            }
            s.append("=");
            s.append(get_piece(p));
        },
        None => {},
    }
    match rec.aftermath {
        Aftermath::Checkmate => {
            proof {
                reveal_strlit("#");
            }
            s.append("#");
        },
        Aftermath::Check => {
            proof {
                reveal_strlit("+");
            }
            s.append("+");
        },
        Aftermath::Quiet => {},
    }
    proof {
        assert(s@ =~= san_spec(*rec));
    }
    s
}

/// Law: the notation generator is pure.  Identical move records always yield
/// an identical token; `get_san` returns exactly this sequence, so two calls
/// on equal inputs return equal strings.
pub proof fn lemma_notation_deterministic(a: MoveRecord, b: MoveRecord)
    requires
        a == b,
    ensures
        san_spec(a) == san_spec(b),
{
}

/// Law: a token contains "x" if and only if the destination square was
/// occupied immediately before the move, and when it does, the "x" stands
/// immediately before the destination square's name.
pub proof fn lemma_capture_marker(rec: MoveRecord)
    ensures
        san_spec(rec).contains('x') <==> rec.capture,
        rec.capture ==> san_spec(rec)[3] == 'x' && san_spec(rec).subrange(4, 6)
            == rec.mv.to.name_spec(),
{
    let s = san_spec(rec);
    if rec.capture {
        assert(s[3] == 'x');
        assert(s.contains('x'));
        assert(s.subrange(4, 6) =~= rec.mv.to.name_spec());
    } else {
        assert forall|i: int| 0 <= i < s.len() implies s[i] != 'x' by {
            if i == 0 {
                assert(s[i] == piece_char(rec.piece));
            } else if i == 1 {
                assert(s[i] == file_char(rec.mv.from.file as nat));
            } else if i == 2 {
                assert(s[i] == rank_char(rec.mv.from.rank as nat));
            } else if i == 3 {
                assert(s[i] == file_char(rec.mv.to.file as nat));
            } else if i == 4 {
                assert(s[i] == rank_char(rec.mv.to.rank as nat));
            } else {
                match rec.mv.promotion {
                    Some(p) => {
                        if i == 5 {
                            assert(s[i] == '=');
                        } else if i == 6 {
                            assert(s[i] == piece_char(p));
                        } else {
                            assert(s[i] == '#' || s[i] == '+');
                        }
                    },
                    None => {
                        assert(s[i] == '#' || s[i] == '+');
                    },
                }
            }
        }
        assert(!s.contains('x'));
    }
}

/// Law: a token ends in '#' exactly when the resulting position is
/// checkmate, and in '+' exactly when the side to move is left in check
/// without checkmate; otherwise it carries no such suffix.
pub proof fn lemma_check_marker(rec: MoveRecord)
    ensures
        san_spec(rec).last() == '#' <==> rec.aftermath == Aftermath::Checkmate,
        san_spec(rec).last() == '+' <==> rec.aftermath == Aftermath::Check,
{
    let s = san_spec(rec);
    match rec.aftermath {
        Aftermath::Checkmate => {
            assert(s.last() == '#');
        },
        Aftermath::Check => {
            assert(s.last() == '+');
        },
        Aftermath::Quiet => {
            assert(s.last() != '#' && s.last() != '+');
        },
    }
}

} // verus!
