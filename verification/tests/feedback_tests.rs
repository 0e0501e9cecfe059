use chesscore::bitboard::{Bitboard, ColorOccupancy};
use chesscore::engine::{GameEngine, GameState};
use chesscore::feedback::{SquareFeedback, compute_feedback};
use chesscore::square::Square;
use shakmaty::{CastlingMode, Chess, Position, fen::Fen};

fn sq(name: &str) -> Square {
    name.parse().expect("test square is invalid")
}

fn position(fen: &str) -> Chess {
    fen.parse::<Fen>()
        .expect("invalid FEN")
        .into_position(CastlingMode::Standard)
        .expect("invalid position")
}

/// Ticks an engine for `pos` with the given squares removed from the
/// occupancy, so that the state reports them as lifted or captured.
fn state_with_missing(pos: Chess, missing: &[&str]) -> GameState {
    let board = pos.board();
    let mut white = Bitboard::new(board.white().0);
    let mut black = Bitboard::new(board.black().0);
    for name in missing {
        let s = sq(name);
        if white.contains(s) {
            white.toggle(s);
        } else {
            black.toggle(s);
        }
    }
    let occ = ColorOccupancy::new(white, black).expect("no overlapping squares");
    GameEngine::from_position(pos).tick(occ)
}

#[test]
fn test_no_feedback_when_nothing_happening() {
    let state = state_with_missing(Chess::default(), &[]);

    let feedback = compute_feedback(&state);
    assert_eq!(feedback.squares().len(), 0);
    assert!(feedback.is_empty());
}

#[test]
fn test_show_destinations_when_piece_lifted() {
    let state = state_with_missing(Chess::default(), &["e2"]);

    let feedback = compute_feedback(&state);

    assert_eq!(feedback.get(sq("e2")), Some(SquareFeedback::Origin));
    assert_eq!(feedback.get(sq("e3")), Some(SquareFeedback::Destination));
    assert_eq!(feedback.get(sq("e4")), Some(SquareFeedback::Destination));
    assert_eq!(feedback.get(sq("d2")), None);
}

#[test]
fn test_show_capture_options_when_opponent_piece_removed() {
    // Position where e4 pawn can capture d5, and c3 knight can capture d5
    let pos = position("rnbqkbnr/ppp1pppp/8/3p4/4P3/2N5/PPPP1PPP/R1BQKBNR w KQkq - 0 1");

    let state = state_with_missing(pos, &["d5"]);

    let feedback = compute_feedback(&state);

    assert_eq!(feedback.get(sq("d5")), Some(SquareFeedback::Destination));
    assert_eq!(feedback.get(sq("e4")), Some(SquareFeedback::Origin));
    assert_eq!(feedback.get(sq("c3")), Some(SquareFeedback::Origin));
}

#[test]
fn test_show_capture_options_when_en_passant() {
    let pos = position("rnbqkbnr/1pp1pppp/p7/3pP3/8/8/PPPP1PPP/RNBQKBNR w KQkq d6 0 1");

    let state = state_with_missing(pos, &["d5"]);

    let feedback = compute_feedback(&state);

    assert_eq!(feedback.get(sq("d6")), Some(SquareFeedback::Destination));
    assert_eq!(feedback.get(sq("e5")), Some(SquareFeedback::Origin));
}

#[test]
fn test_show_capture_completion_when_en_passant() {
    let pos = position("rnbqkbnr/1pp1pppp/p7/3pP3/8/8/PPPP1PPP/RNBQKBNR w KQkq d6 0 1");

    let state = state_with_missing(pos, &["e5", "d5"]);

    let feedback = compute_feedback(&state);

    assert_eq!(feedback.get(sq("d6")), Some(SquareFeedback::Destination));
    assert_eq!(feedback.get(sq("e5")), Some(SquareFeedback::Origin));
}

#[test]
fn test_show_destination_when_both_removed_and_lifted() {
    let pos = position("rnbqkbnr/ppp1pppp/8/3p4/4P3/8/PPPP1PPP/RNBQKBNR w KQkq - 0 1");

    let state = state_with_missing(pos, &["e4", "d5"]);

    let feedback = compute_feedback(&state);

    assert_eq!(feedback.get(sq("e4")), Some(SquareFeedback::Origin));
    assert_eq!(feedback.get(sq("d5")), Some(SquareFeedback::Destination));
}

#[test]
fn test_distinguish_captures() {
    let pos = position("rnbqkbnr/ppp1pppp/8/3p4/4P3/8/PPPP1PPP/RNBQKBNR w KQkq - 0 1");

    let state = state_with_missing(pos, &["e4"]);

    let feedback = compute_feedback(&state);

    assert_eq!(feedback.get(sq("e4")), Some(SquareFeedback::Origin));
    assert_eq!(feedback.get(sq("e5")), Some(SquareFeedback::Destination));
    assert_eq!(feedback.get(sq("d5")), Some(SquareFeedback::Capture));
}

#[test]
fn scenario_double_check_feedback() {
    let state = state_with_missing(position("4k3/8/8/7B/8/8/8/4R2K b - - 0 1"), &[]);

    let feedback = compute_feedback(&state);

    assert_eq!(feedback.get(sq("e8")), Some(SquareFeedback::Check));
    assert_eq!(feedback.get(sq("e1")), Some(SquareFeedback::Checker));
    assert_eq!(feedback.get(sq("h5")), Some(SquareFeedback::Checker));
}

#[test]
fn feedback_squares_lists_marked_squares() {
    let state = state_with_missing(Chess::default(), &["e2"]);
    let feedback = compute_feedback(&state);

    let entries = feedback.squares();
    assert!(!entries.is_empty());
    for (square, tag) in entries.iter() {
        assert_eq!(feedback.get(*square), Some(*tag));
    }
    assert!(entries.iter().any(|(s, t)| *s == sq("e2") && *t == SquareFeedback::Origin));
    assert!(entries.iter().any(|(s, t)| *s == sq("e4") && *t == SquareFeedback::Destination));
}
