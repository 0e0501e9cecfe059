//! Plain-value model of chess moves and pieces, as the engine and the
//! feedback computer read them.

use vstd::prelude::*;
use crate::square::Square;

verus! {

/// Color of a piece.
#[derive(Debug, Clone, Copy, PartialEq, Eq, Structural)]
pub enum Color {
    White,
    Black,
}

/// Kind of a piece.
#[derive(Debug, Clone, Copy, PartialEq, Eq, Structural)]
pub enum PieceRole {
    Pawn,
    Knight,
    Bishop,
    Rook,
    Queen,
    King,
}

/// A piece: its color and its kind.
#[derive(Debug, Clone, Copy, PartialEq, Eq, Structural)]
pub struct Piece {
    pub color: Color,
    pub role: PieceRole,
}

/// A chess move. `Castle` carries the king and rook origin squares, so its
/// target square (as reported by `to`) is the rook's origin. `Put` is a
/// drop move of chess variants; it never occurs in a standard game.
#[derive(Debug, Clone, Copy, PartialEq, Eq, Structural)]
pub enum MoveInfo {
    Normal { role: PieceRole, from: Square, capture: Option<PieceRole>, to: Square, promotion: Option<PieceRole> },
    EnPassant { from: Square, to: Square },
    Castle { king: Square, rook: Square },
    Put { role: PieceRole, to: Square },
}

impl MoveInfo {
    /// Every square the move mentions is a real square.
    pub open spec fn wf(self) -> bool {
        match self {
            MoveInfo::Normal { from, to, .. } => from.wf() && to.wf(),
            MoveInfo::EnPassant { from, to } => from.wf() && to.wf(),
            MoveInfo::Castle { king, rook } => king.wf() && rook.wf(),
            MoveInfo::Put { to, .. } => to.wf(),
        }
    }

    /// The origin square, or `None` for drops.
    pub open spec fn from_spec(self) -> Option<Square> {
        match self {
            MoveInfo::Normal { from, .. } => Some(from),
            MoveInfo::EnPassant { from, .. } => Some(from),
            MoveInfo::Castle { king, .. } => Some(king),
            MoveInfo::Put { .. } => None,
        }
    }

    /// The target square; for castling this is the rook's origin square.
    pub open spec fn to_spec(self) -> Square {
        match self {
            MoveInfo::Normal { to, .. } => to,
            MoveInfo::EnPassant { to, .. } => to,
            MoveInfo::Castle { rook, .. } => rook,
            MoveInfo::Put { to, .. } => to,
        }
    }

    /// Whether the move removes an opponent piece.
    pub open spec fn is_capture_spec(self) -> bool {
        match self {
            MoveInfo::Normal { capture, .. } => capture is Some,
            MoveInfo::EnPassant { .. } => true,
            _ => false,
        }
    }

    /// Whether the move is an en passant capture.
    pub open spec fn is_en_passant_spec(self) -> bool {
        self matches MoveInfo::EnPassant { .. }
    }

    /// The promotion role of the move, if it promotes.
    pub open spec fn promotion_spec(self) -> Option<PieceRole> {
        match self {
            MoveInfo::Normal { promotion, .. } => promotion,
            _ => None,
        }
    }

    /// Whether the move removes the opponent piece standing on `t`. A normal
    /// capture removes the piece on its target square; an en passant capture
    /// removes the pawn on the square with the target's file and the
    /// origin's rank.
    pub open spec fn captures_on_spec(self, t: Square) -> bool {
        match self {
            MoveInfo::Normal { capture, to, .. } => capture is Some && to == t,
            MoveInfo::EnPassant { from, to } => t.0 == (from.0 / 8) * 8 + (to.0 % 8),
            _ => false,
        }
    }

    /// The origin square, or `None` for drops.
    pub fn from(&self) -> (r: Option<Square>)
        ensures
            r == self.from_spec(),
    {
        match *self {
            MoveInfo::Normal { from, .. } => Some(from),
            MoveInfo::EnPassant { from, .. } => Some(from),
            MoveInfo::Castle { king, .. } => Some(king),
            MoveInfo::Put { .. } => None,
        }
    }

    /// The target square; for castling this is the rook's origin square.
    pub fn to(&self) -> (r: Square)
        ensures
            r == self.to_spec(),
    {
        match *self {
            MoveInfo::Normal { to, .. } => to,
            MoveInfo::EnPassant { to, .. } => to,
            MoveInfo::Castle { rook, .. } => rook,
            MoveInfo::Put { to, .. } => to,
        }
    }

    /// Whether the move removes an opponent piece.
    pub fn is_capture(&self) -> (r: bool)
        ensures
            r == self.is_capture_spec(),
    {
        match *self {
            MoveInfo::Normal { capture, .. } => matches!(capture, Some(_)),
            MoveInfo::EnPassant { .. } => true,
            _ => false,
        }
    }

    /// Whether the move is an en passant capture.
    pub fn is_en_passant(&self) -> (r: bool)
        ensures
            r == self.is_en_passant_spec(),
    {
        matches!(*self, MoveInfo::EnPassant { .. })
    }

    /// The promotion role of the move, if it promotes.
    pub fn promotion(&self) -> (r: Option<PieceRole>)
        ensures
            r == self.promotion_spec(),
    {
        match *self {
            MoveInfo::Normal { promotion, .. } => promotion,
            _ => None,
        }
    }

    /// Whether the move removes the opponent piece standing on `t`.
    pub fn captures_on(&self, t: Square) -> (r: bool)
        requires
            self.wf(),
        ensures
            r == self.captures_on_spec(t),
    {
        match *self {
            MoveInfo::Normal { capture, to, .. } => matches!(capture, Some(_)) && to.0 == t.0,
            MoveInfo::EnPassant { from, to } => t.0 == (from.0 / 8) * 8 + (to.0 % 8),
            _ => false,
        }
    }
}

} // verus!
