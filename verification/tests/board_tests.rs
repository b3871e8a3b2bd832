use ascn_convert::board::{game_text, record_of, records_of};
use ascn_convert::notation::{get_san, Aftermath, Mv, PieceKind, Square};
use ascn_convert::outcome::Outcome;
use chess::{Board, ChessMove};

fn sq(square: chess::Square) -> Square {
    Square {
        file: square.get_file().to_index() as u8,
        rank: square.get_rank().to_index() as u8,
    }
}

fn mv(from: chess::Square, to: chess::Square) -> Mv {
    Mv { from: sq(from), to: sq(to), promotion: None }
}

fn play(board: &Board, from: chess::Square, to: chess::Square) -> (Mv, Board) {
    (mv(from, to), board.make_move_new(ChessMove::new(from, to, None)))
}

#[test]
fn first_move_record_reads_the_board() {
    let start = Board::default();
    let (m, after) = play(&start, chess::Square::E2, chess::Square::E4);
    let rec = record_of(m, &start, &after).unwrap();
    assert_eq!(rec.piece, PieceKind::Pawn);
    assert!(!rec.capture);
    assert_eq!(rec.aftermath, Aftermath::Quiet);
    assert_eq!(get_san(&rec), "Pe2e4");
}

#[test]
fn capture_is_read_from_the_board() {
    // 1. e4 d5 2. exd5: the second White move lands on an occupied square.
    let b0 = Board::default();
    let (_, b1) = play(&b0, chess::Square::E2, chess::Square::E4);
    let (_, b2) = play(&b1, chess::Square::D7, chess::Square::D5);
    let (m3, b3) = play(&b2, chess::Square::E4, chess::Square::D5);
    let rec = record_of(m3, &b2, &b3).unwrap();
    assert_eq!(rec.piece, PieceKind::Pawn);
    assert!(rec.capture);
    assert_eq!(get_san(&rec), "Pe4xd5");
}

#[test]
fn checkmate_is_read_from_the_board() {
    // Fool's mate: 1. f3 e5 2. g4 Qh4#.
    let b0 = Board::default();
    let (_, b1) = play(&b0, chess::Square::F2, chess::Square::F3);
    let (_, b2) = play(&b1, chess::Square::E7, chess::Square::E5);
    let (_, b3) = play(&b2, chess::Square::G2, chess::Square::G4);
    let (m4, b4) = play(&b3, chess::Square::D8, chess::Square::H4);
    let rec = record_of(m4, &b3, &b4).unwrap();
    assert_eq!(rec.aftermath, Aftermath::Checkmate);
    assert_eq!(get_san(&rec), "Qd8h4#");
}

#[test]
fn check_is_read_from_the_board() {
    // 1. e4 e5 2. Qh5 Nc6 3. Qxf7+: a capture that leaves Black in check,
    // not checkmate (the king can take the queen).
    let b0 = Board::default();
    let (_, b1) = play(&b0, chess::Square::E2, chess::Square::E4);
    let (_, b2) = play(&b1, chess::Square::E7, chess::Square::E5);
    let (_, b3) = play(&b2, chess::Square::D1, chess::Square::H5);
    let (_, b4) = play(&b3, chess::Square::B8, chess::Square::C6);
    let (m5, b5) = play(&b4, chess::Square::H5, chess::Square::F7);
    let rec = record_of(m5, &b4, &b5).unwrap();
    assert!(rec.capture);
    assert_eq!(rec.aftermath, Aftermath::Check);
    assert_eq!(get_san(&rec), "Qh5xf7+");
}

#[test]
fn empty_source_square_fails_the_stream() {
    let start = Board::default();
    let m = mv(chess::Square::E4, chess::Square::E5);
    assert!(record_of(m, &start, &start).is_none());
    let plays = vec![(m, start)];
    assert!(records_of(&plays, &start).is_none());
    assert!(game_text(&plays, &start, Outcome::Unknown).is_none());
}

#[test]
fn one_move_draw_game_text() {
    let start = Board::default();
    let p = play(&start, chess::Square::E2, chess::Square::E4);
    let text = game_text(&vec![p], &start, Outcome::Draw).unwrap();
    assert_eq!(text, "[Result \"1/2-1/2\"]\n\n1. Pe2e4 1/2-1/2");
}

#[test]
fn full_game_text_numbers_and_outcome() {
    // Fool's mate again, rendered whole: two numbered White moves, the
    // mating token ends in '#', and Black's win trails the movetext.
    let b0 = Board::default();
    let p1 = play(&b0, chess::Square::F2, chess::Square::F3);
    let p2 = play(&p1.1, chess::Square::E7, chess::Square::E5);
    let p3 = play(&p2.1, chess::Square::G2, chess::Square::G4);
    let p4 = play(&p3.1, chess::Square::D8, chess::Square::H4);
    let plays = vec![p1, p2, p3, p4];
    let text = game_text(&plays, &b0, Outcome::BlackWins).unwrap();
    assert_eq!(
        text,
        "[Result \"0-1\"]\n\n1. Pf2f3 Pe7e5 2. Pg2g4 Qd8h4# 0-1"
    );
}
