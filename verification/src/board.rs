//! The crate's only window onto the outside rules engine: a chess board is
//! an opaque value, read through a narrow trusted interface, and everything
//! built from those readings is verified.
//!
//! A board value is immutable, and each reading below is a pure function of
//! the board value alone, so each gets an uninterpreted name that the trusted
//! wrappers' contracts share: what a square holds, whether the position is
//! checkmate, and whether the side to move stands in check.

use vstd::prelude::*;
use crate::movetext::{game_text_spec, render_game};
use crate::notation::{
    lemma_capture_marker, lemma_check_marker, san_spec, Aftermath, MoveRecord, Mv, PieceKind,
    Square,
};
use crate::outcome::Outcome;

verus! {

#[verifier::external_type_specification]
#[verifier::external_body]
pub struct ExBoard(chess::Board);

/// The occupancy of a board: which piece kind stands on each occupied
/// square, keyed by the square's rank-major index.
pub uninterp spec fn board_pieces(b: chess::Board) -> Map<int, PieceKind>;

/// Whether a board's position is checkmate.
pub uninterp spec fn board_checkmate(b: chess::Board) -> bool;

/// Whether the side to move on a board is in check.
pub uninterp spec fn board_in_check(b: chess::Board) -> bool;

/// Relies on chess::Board::piece_on: the piece standing on the given square
/// of the given board, converted to this crate's piece kinds.
#[verifier::external_body]
fn piece_on(b: &chess::Board, sq: Square) -> (r: Option<PieceKind>)
    requires
        sq.wf(),
    ensures
        r == (if board_pieces(*b).dom().contains(sq.index_spec()) {
            Some(board_pieces(*b)[sq.index_spec()])
        } else {
            None::<PieceKind>
        }),
{
    let square = chess::Square::make_square(
        chess::Rank::from_index(sq.rank as usize),
        chess::File::from_index(sq.file as usize),
    );
    match b.piece_on(square) {
        Some(chess::Piece::Pawn) => Some(PieceKind::Pawn),
        Some(chess::Piece::Knight) => Some(PieceKind::Knight),
        Some(chess::Piece::Bishop) => Some(PieceKind::Bishop),
        Some(chess::Piece::Rook) => Some(PieceKind::Rook),
        Some(chess::Piece::Queen) => Some(PieceKind::Queen),
        Some(chess::Piece::King) => Some(PieceKind::King),
        None => None,
    }
}

/// Relies on chess::Board::status: whether the position is checkmate.
#[verifier::external_body]
fn status_checkmate(b: &chess::Board) -> (r: bool)
    ensures
        r == board_checkmate(*b),
{
    match b.status() {
        chess::BoardStatus::Checkmate => true,
        chess::BoardStatus::Stalemate => false,
        chess::BoardStatus::Ongoing => false,
    }
}

/// Relies on chess::Board::checkers: the bit mask of the pieces giving
/// check; the side to move is in check exactly when it is nonzero.
#[verifier::external_body]
fn checkers_mask(b: &chess::Board) -> (r: u64)
    ensures
        (r != 0) == board_in_check(*b),
{
    b.checkers().0
}

/// The record the notation generator is owed for a move, stated over the
/// trusted board readings: the piece on the move's source square before the
/// move, whether its destination was occupied, and the check status of the
/// position after it.
pub open spec fn record_spec(m: Mv, before: chess::Board, after: chess::Board) -> MoveRecord {
    (MoveRecord {
        mv: m,
        piece: board_pieces(before)[m.from.index_spec()],
        capture: board_pieces(before).dom().contains(m.to.index_spec()),
        aftermath: if board_checkmate(after) {
            Aftermath::Checkmate
        } else if board_in_check(after) {
            Aftermath::Check
        } else {
            Aftermath::Quiet
        },
    })
}

/// Reads everything the notation generator needs about one move from the
/// boards around it.  Returns `None` exactly when the move's source square
/// is empty — a move stream that asks for such a move is malformed, and the
/// whole conversion fails.
pub fn record_of(m: Mv, before: &chess::Board, after: &chess::Board) -> (r: Option<MoveRecord>)
    requires
        m.wf(),
    ensures
        r == (if board_pieces(*before).dom().contains(m.from.index_spec()) {
            Some(record_spec(m, *before, *after))
        } else {
            None::<MoveRecord>
        }),
{
    let piece = match piece_on(before, m.from) {
        Some(p) => p,
        None => {
            return None;
        },
    };
    let capture = piece_on(before, m.to).is_some();
    let aftermath = if status_checkmate(after) {
        Aftermath::Checkmate
    } else if checkers_mask(after) != 0 {
        Aftermath::Check
    } else {
        Aftermath::Quiet
    };
    Some(MoveRecord { mv: m, piece, capture, aftermath })
}

/// Law: stated directly over the trusted board readings, the token of a
/// move contains "x" exactly when its destination square was occupied
/// immediately before the move, ends in '#' exactly when the position after
/// it is checkmate, and ends in '+' exactly when that position leaves the
/// side to move in check without checkmate.
pub proof fn lemma_markers_of_boards(m: Mv, before: chess::Board, after: chess::Board)
    ensures
        san_spec(record_spec(m, before, after)).contains('x') <==> board_pieces(
            before,
        ).dom().contains(m.to.index_spec()),
        san_spec(record_spec(m, before, after)).last() == '#' <==> board_checkmate(after),
        san_spec(record_spec(m, before, after)).last() == '+' <==> (board_in_check(after)
            && !board_checkmate(after)),
{
    lemma_capture_marker(record_spec(m, before, after));
    lemma_check_marker(record_spec(m, before, after));
}

/// The board a move was played on: the starting board for the first move,
/// afterwards the board the previous play produced.
pub open spec fn board_before(plays: Seq<(Mv, chess::Board)>, start: chess::Board, i: int) -> chess::Board {
    if i == 0 {
        start
    } else {
        plays[i - 1].1
    }
}

/// Every play's source square is occupied on the board it is played on.
pub open spec fn sources_occupied(plays: Seq<(Mv, chess::Board)>, start: chess::Board) -> bool {
    forall|i: int| 0 <= i < plays.len()
        ==> board_pieces(board_before(plays, start, i)).dom().contains(
            plays[i].0.from.index_spec(),
        )
}

/// The move records of a sequence of plays, each stated over the board it
/// was played on and the board it produced.
pub open spec fn records_seq(plays: Seq<(Mv, chess::Board)>, start: chess::Board) -> Seq<MoveRecord> {
    Seq::new(plays.len(), |i: int| record_spec(plays[i].0, board_before(plays, start, i), plays[i].1))
}

/// All plays' squares lie on the board.
pub open spec fn plays_wf(plays: Seq<(Mv, chess::Board)>) -> bool {
    forall|i: int| 0 <= i < plays.len() ==> (#[trigger] plays[i].0).wf()
}

/// Builds the move records of a decoded game: each play is a move together
/// with the board it produced, in game order from the starting board.
/// Returns `None` exactly when some play's source square is empty on the
/// board it is played on — the stream is malformed and no partial result is
/// returned.
pub fn records_of(plays: &Vec<(Mv, chess::Board)>, start: &chess::Board) -> (r: Option<
    Vec<MoveRecord>,
>)
    requires
        plays_wf(plays@),
    ensures
        r is Some <==> sources_occupied(plays@, *start),
        r is Some ==> r->0@ == records_seq(plays@, *start),
{
    let mut records: Vec<MoveRecord> = Vec::new();
    let n = plays.len();
    let mut i: usize = 0;
    while i < n
        invariant
            i <= n,
            n == plays@.len(),
            plays_wf(plays@),
            records@ == records_seq(plays@, *start).take(i as int),
            forall|j: int| 0 <= j < i
                ==> board_pieces(board_before(plays@, *start, j)).dom().contains(
                    plays@[j].0.from.index_spec(),
                ),
        decreases n - i,
    {
        let play = plays[i];
        let before: &chess::Board = if i == 0 {
            start
        } else {
            &plays[i - 1].1
        };
        match record_of(play.0, before, &play.1) {
            Some(rec) => {
                records.push(rec);
                proof {
                    assert(records@ =~= records_seq(plays@, *start).take(i as int + 1));
                }
            },
            None => {
                proof {
                    assert(*before == board_before(plays@, *start, i as int));
                    assert(!sources_occupied(plays@, *start));
                }
                return None;
            },
        }
        i = i + 1;
    }
    proof {
        assert(records@ =~= records_seq(plays@, *start));
    }
    Some(records)
}

/// The whole binary-to-text core: turns a decoded game — its plays, its
/// starting board and its outcome — into the full movetext output.  Fails,
/// with no partial output, exactly when the play stream is malformed.
pub fn game_text(plays: &Vec<(Mv, chess::Board)>, start: &chess::Board, outcome: Outcome) -> (r:
    Option<String>)
    requires
        plays_wf(plays@),
    ensures
        r is Some <==> sources_occupied(plays@, *start),
        r is Some ==> r->0@ == game_text_spec(records_seq(plays@, *start), outcome),
{
    match records_of(plays, start) {
        Some(records) => Some(render_game(&records, outcome)),
        None => None,
    }
}

} // verus!
