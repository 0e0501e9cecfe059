//! The chess-rules boundary: the engine holds a `shakmaty::Chess` position
//! and reads it only through the small trusted surface below. Each name
//! (`occ_of`, `legal_of`, ...) stands for what the rules library computes
//! from the position alone; the wrappers promise nothing beyond what the
//! library's source shows.

use vstd::prelude::*;
use shakmaty::Position;
use crate::square::Square;
use crate::moves::{Color, MoveInfo, Piece, PieceRole};

verus! {

#[verifier::external_type_specification]
#[verifier::external_body]
pub struct ExChess(shakmaty::Chess);

#[verifier::external_type_specification]
#[verifier::external_body]
pub struct ExMove(shakmaty::Move);

#[verifier::external_type_specification]
#[verifier::external_body]
pub struct ExRole(shakmaty::Role);

/// The occupied-squares bitboard of a position.
pub uninterp spec fn occ_of(p: shakmaty::Chess) -> u64;

/// The squares occupied by white pieces.
pub uninterp spec fn white_of(p: shakmaty::Chess) -> u64;

/// The squares occupied by black pieces.
pub uninterp spec fn black_of(p: shakmaty::Chess) -> u64;

/// The squares occupied by the side to move.
pub uninterp spec fn us_of(p: shakmaty::Chess) -> u64;

/// The squares occupied by the opponent of the side to move.
pub uninterp spec fn them_of(p: shakmaty::Chess) -> u64;

/// The squares of the pieces giving check to the side to move.
pub uninterp spec fn checkers_of(p: shakmaty::Chess) -> u64;

/// The square of the king of the side to move.
pub uninterp spec fn king_of(p: shakmaty::Chess) -> u8;

/// The piece standing on a square of the position, if any.
pub uninterp spec fn piece_of(p: shakmaty::Chess, sq: u8) -> Option<Piece>;

/// The legal moves of the position, in the order the rules library
/// generates them.
pub uninterp spec fn legal_of(p: shakmaty::Chess) -> Seq<MoveInfo>;

/// The position reached by playing the `i`-th legal move.
pub uninterp spec fn position_after(p: shakmaty::Chess, i: int) -> shakmaty::Chess;

/// Relies on `shakmaty::Chess::default`: the standard starting position,
/// with white to move and ranks 1, 2, 7 and 8 occupied.
#[verifier::external_body]
pub(crate) fn start_position() -> (p: shakmaty::Chess)
    ensures
        occ_of(p) == 0xFFFF_0000_0000_FFFFu64,
        us_of(p) == 0xFFFFu64,
        them_of(p) == 0xFFFF_0000_0000_0000u64,
        white_of(p) == 0xFFFFu64,
        black_of(p) == 0xFFFF_0000_0000_0000u64,
{
    shakmaty::Chess::default()
}

/// Relies on `shakmaty::Board::white` and `black`: the two colors occupy
/// disjoint square sets that together make up the occupied bitboard.
#[verifier::external_body]
pub(crate) fn color_boards(p: &shakmaty::Chess) -> (r: (u64, u64))
    ensures
        r.0 == white_of(*p),
        r.1 == black_of(*p),
        r.0 & r.1 == 0,
        r.0 | r.1 == occ_of(*p),
{
    (p.board().white().0, p.board().black().0)
}

/// Relies on `shakmaty::Board::occupied`, reached through
/// `Position::board`: the bitboard of all occupied squares.
#[verifier::external_body]
pub(crate) fn occupied(p: &shakmaty::Chess) -> (r: u64)
    ensures
        r == occ_of(*p),
{
    p.board().occupied().0
}

/// Relies on `shakmaty::Position::us`: the side to move occupies a square
/// set disjoint from the opponent's, and the two sets together make up the
/// occupied bitboard.
#[verifier::external_body]
pub(crate) fn us_occupied(p: &shakmaty::Chess) -> (r: u64)
    ensures
        r == us_of(*p),
        r & them_of(*p) == 0,
        r | them_of(*p) == occ_of(*p),
{
    p.us().0
}

/// Relies on `shakmaty::Position::them`: the opponent's occupied squares,
/// disjoint from those of the side to move.
#[verifier::external_body]
pub(crate) fn them_occupied(p: &shakmaty::Chess) -> (r: u64)
    ensures
        r == them_of(*p),
        us_of(*p) & r == 0,
        us_of(*p) | r == occ_of(*p),
{
    p.them().0
}

/// Relies on `shakmaty::Position::checkers`: the squares of the pieces
/// attacking the king of the side to move.
#[verifier::external_body]
pub(crate) fn checkers_board(p: &shakmaty::Chess) -> (r: u64)
    ensures
        r == checkers_of(*p),
{
    p.checkers().0
}

/// Relies on `shakmaty::Position::our` and `Bitboard::first`: the king
/// square of the side to move. A `Chess` value always holds both kings
/// (shakmaty validates that on every construction path), so `first` is
/// never empty here.
#[verifier::external_body]
pub(crate) fn king_square_of(p: &shakmaty::Chess) -> (r: u8)
    ensures
        r == king_of(*p),
        r < 64,
{
    p.our(shakmaty::Role::King).first().expect("side to move has a king") as u8
}

/// Relies on `shakmaty::Board::piece_at`, converting the piece's color and
/// role variant by variant.
#[verifier::external_body]
pub(crate) fn piece_on(p: &shakmaty::Chess, sq: Square) -> (r: Option<Piece>)
    requires
        sq.wf(),
    ensures
        r == piece_of(*p, sq.0),
{
    p.board().piece_at(shakmaty::Square::new(sq.0 as u32)).map(
        |pc|
            Piece {
                color: match pc.color {
                    shakmaty::Color::White => Color::White,
                    shakmaty::Color::Black => Color::Black,
                },
                role: role_info(pc.role),
            },
    )
}

/// Converts a `shakmaty::Role` variant to the library's own, one arm each.
#[verifier::external_body]
pub(crate) fn role_info(r: shakmaty::Role) -> PieceRole {
    match r {
        shakmaty::Role::Pawn => PieceRole::Pawn,
        shakmaty::Role::Knight => PieceRole::Knight,
        shakmaty::Role::Bishop => PieceRole::Bishop,
        shakmaty::Role::Rook => PieceRole::Rook,
        shakmaty::Role::Queen => PieceRole::Queen,
        shakmaty::Role::King => PieceRole::King,
    }
}

/// Converts a `shakmaty::Move` to the library's own move value, moving each
/// field across and narrowing each square to its index.
#[verifier::external_body]
pub(crate) fn move_info(m: &shakmaty::Move) -> MoveInfo {
    match *m {
        shakmaty::Move::Normal { role, from, capture, to, promotion } => MoveInfo::Normal {
            role: role_info(role), from: Square(from as u8), capture: capture.map(role_info),
            to: Square(to as u8), promotion: promotion.map(role_info),
        },
        shakmaty::Move::EnPassant { from, to } =>
            MoveInfo::EnPassant { from: Square(from as u8), to: Square(to as u8) },
        shakmaty::Move::Castle { king, rook } =>
            MoveInfo::Castle { king: Square(king as u8), rook: Square(rook as u8) },
        shakmaty::Move::Put { role, to } =>
            MoveInfo::Put { role: role_info(role), to: Square(to as u8) },
    }
}

/// Relies on `shakmaty::Position::legal_moves`: the legal moves of the
/// position, converted move by move in their generated order. Move
/// generation reads the position alone, and every square it emits is one
/// of the 64 board squares.
#[verifier::external_body]
pub(crate) fn legal_moves_of(p: &shakmaty::Chess) -> (r: Vec<MoveInfo>)
    ensures
        r@ == legal_of(*p),
        forall|i: int| 0 <= i < r@.len() ==> (#[trigger] r@[i]).wf(),
{
    p.legal_moves().iter().map(move_info).collect()
}

/// Relies on `shakmaty::Position::legal_moves` and `play_unchecked`: the
/// position reached by playing the `i`-th legal move on a copy of `p`.
/// `play_unchecked` is fed only moves from the position's own legal list.
#[verifier::external_body]
pub(crate) fn play_nth(p: &shakmaty::Chess, i: usize) -> (q: shakmaty::Chess)
    requires
        i < legal_of(*p).len(),
    ensures
        q == position_after(*p, i as int),
{
    let moves = p.legal_moves();
    let mut q = p.clone();
    q.play_unchecked(moves[i]);
    q
}

} // verus!
