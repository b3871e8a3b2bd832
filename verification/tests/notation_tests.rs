use ascn_convert::format::Format;
use ascn_convert::movetext::{assemble_movetext, render_game};
use ascn_convert::notation::{get_piece, get_san, Aftermath, MoveRecord, Mv, PieceKind, Square};
use ascn_convert::outcome::Outcome;
use ascn_convert::text::{num_to_string, str_eq};

fn sq(file: u8, rank: u8) -> Square {
    Square { file, rank }
}

fn record(
    from: Square,
    to: Square,
    piece: PieceKind,
    capture: bool,
    promotion: Option<PieceKind>,
    aftermath: Aftermath,
) -> MoveRecord {
    MoveRecord { mv: Mv { from, to, promotion }, piece, capture, aftermath }
}

#[test]
fn pawn_e2_e4_token() {
    // A pawn move from e2 to e4, no capture, no check.
    let rec = record(sq(4, 1), sq(4, 3), PieceKind::Pawn, false, None, Aftermath::Quiet);
    assert_eq!(get_san(&rec), "Pe2e4");
}

#[test]
fn capture_token_has_x_before_destination() {
    let rec = record(sq(4, 3), sq(3, 4), PieceKind::Pawn, true, None, Aftermath::Quiet);
    assert_eq!(get_san(&rec), "Pe4xd5");
}

#[test]
fn promotion_and_checkmate_token() {
    let rec = record(
        sq(0, 6),
        sq(1, 7),
        PieceKind::Pawn,
        true,
        Some(PieceKind::Queen),
        Aftermath::Checkmate,
    );
    assert_eq!(get_san(&rec), "Pa7xb8=Q#");
}

#[test]
fn check_token_ends_in_plus() {
    let rec = record(sq(7, 4), sq(5, 6), PieceKind::Queen, true, None, Aftermath::Check);
    assert_eq!(get_san(&rec), "Qh5xf7+");
}

#[test]
fn piece_letters() {
    assert_eq!(get_piece(PieceKind::Pawn), "P");
    assert_eq!(get_piece(PieceKind::Knight), "N");
    assert_eq!(get_piece(PieceKind::Bishop), "B");
    assert_eq!(get_piece(PieceKind::Rook), "R");
    assert_eq!(get_piece(PieceKind::Queen), "Q");
    assert_eq!(get_piece(PieceKind::King), "K");
}

#[test]
fn movetext_numbers_every_white_move() {
    // Three half-moves: two numbered White moves, one unnumbered Black move.
    let r1 = record(sq(4, 1), sq(4, 3), PieceKind::Pawn, false, None, Aftermath::Quiet);
    let r2 = record(sq(4, 6), sq(4, 4), PieceKind::Pawn, false, None, Aftermath::Quiet);
    let r3 = record(sq(6, 0), sq(5, 2), PieceKind::Knight, false, None, Aftermath::Quiet);
    let text = assemble_movetext(&vec![r1, r2, r3]);
    assert_eq!(text, "1. Pe2e4 Pe7e5 2. Ng1f3 ");
}

#[test]
fn movetext_of_empty_stream_is_empty() {
    let text = assemble_movetext(&vec![]);
    assert_eq!(text, "");
}

#[test]
fn one_move_draw_renders_exactly() {
    // A one-move game ending in a draw.
    let rec = record(sq(4, 1), sq(4, 3), PieceKind::Pawn, false, None, Aftermath::Quiet);
    let text = render_game(&vec![rec], Outcome::Draw);
    assert_eq!(text, "[Result \"1/2-1/2\"]\n\n1. Pe2e4 1/2-1/2");
}

#[test]
fn empty_game_renders_header_and_outcome_only() {
    let text = render_game(&vec![], Outcome::Unknown);
    assert_eq!(text, "[Result \"*\"]\n\n*");
}

#[test]
fn outcome_tokens() {
    assert_eq!(Outcome::WhiteWins.token(), "1-0");
    assert_eq!(Outcome::BlackWins.token(), "0-1");
    assert_eq!(Outcome::Draw.token(), "1/2-1/2");
    assert_eq!(Outcome::Unknown.token(), "*");
}

#[test]
fn outcome_decoding_is_total() {
    assert_eq!(Outcome::from_token("1-0"), Outcome::WhiteWins);
    assert_eq!(Outcome::from_token("0-1"), Outcome::BlackWins);
    assert_eq!(Outcome::from_token("1/2-1/2"), Outcome::Draw);
    assert_eq!(Outcome::from_token("*"), Outcome::Unknown);
    assert_eq!(Outcome::from_token("2-0"), Outcome::Unknown);
    assert_eq!(Outcome::from_token(""), Outcome::Unknown);
}

#[test]
fn format_dispatch() {
    assert_eq!(Format::from_extension("ascn"), Some(Format::ASCN));
    assert_eq!(Format::from_extension("pgn"), Some(Format::PGN));
    assert_eq!(Format::from_extension("txt"), None);
    assert_eq!(Format::ASCN.opposite(), Format::PGN);
    assert_eq!(Format::PGN.opposite(), Format::ASCN);
    assert_eq!(Format::ASCN.get_extension(), "ascn");
    assert_eq!(Format::PGN.get_extension(), "pgn");
}

#[test]
fn decimal_rendering() {
    assert_eq!(num_to_string(0), "0");
    assert_eq!(num_to_string(7), "7");
    assert_eq!(num_to_string(10), "10");
    assert_eq!(num_to_string(1234), "1234");
}

#[test]
fn string_equality_helper() {
    assert!(str_eq("1-0", "1-0"));
    assert!(!str_eq("1-0", "0-1"));
    assert!(!str_eq("1-0", "1-00"));
    assert!(str_eq("", ""));
}
