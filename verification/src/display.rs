//! Terminal rendering of a feedback map: an 8-by-8 grid whose cells carry
//! the ANSI background color of their feedback tag.

use vstd::prelude::*;
use crate::feedback::{BoardFeedback, SquareFeedback};
use crate::moves::{Color, Piece, PieceRole};
use crate::square::Square;

verus! {

/// A terminal-based board display for development and testing.
#[derive(Debug)]
pub struct TerminalDisplay;

/// Error reported by a display sink that failed to write its output.
#[derive(Debug, Clone, PartialEq, Eq)]
pub enum DisplayError {
    Io(String),
}

/// The ANSI-colored cell text of a feedback tag.
pub open spec fn format_square_spec(feedback: Option<SquareFeedback>) -> Seq<char> {
    match feedback {
        Some(SquareFeedback::Destination) => "\x1b[44m \u{b7} \x1b[0m"@,
        Some(SquareFeedback::Capture) => "\x1b[41m \u{b7} \x1b[0m"@,
        Some(SquareFeedback::Origin) => "\x1b[42m \u{b7} \x1b[0m"@,
        Some(SquareFeedback::Check) => "\x1b[45m \u{b7} \x1b[0m"@,
        Some(SquareFeedback::Checker) => "\x1b[43m \u{b7} \x1b[0m"@,
        None => " \u{b7} "@,
    }
}

/// Maps a feedback variant to its ANSI-colored cell text.
pub fn format_square(feedback: Option<SquareFeedback>) -> (r: &'static str)
    ensures
        r@ == format_square_spec(feedback),
{
    match feedback {
        Some(SquareFeedback::Destination) => "\x1b[44m \u{b7} \x1b[0m",
        Some(SquareFeedback::Capture) => "\x1b[41m \u{b7} \x1b[0m",
        Some(SquareFeedback::Origin) => "\x1b[42m \u{b7} \x1b[0m",
        Some(SquareFeedback::Check) => "\x1b[45m \u{b7} \x1b[0m",
        Some(SquareFeedback::Checker) => "\x1b[43m \u{b7} \x1b[0m",
        None => " \u{b7} ",
    }
}

/// The game-state cell of a square: the piece's letter when the sensor
/// agrees with the committed position, a hollow mark for a missing piece,
/// a warning mark for an extra one, and a dot for an empty square.
pub open spec fn game_state_symbol_spec(piece: Option<Piece>, sensed: bool) -> Seq<char> {
    match piece {
        Some(p) => if !sensed {
            " \u{25cb} "@
        } else {
            match (p.role, p.color) {
                (PieceRole::Pawn, Color::White) => " P "@,
                (PieceRole::Knight, Color::White) => " N "@,
                (PieceRole::Bishop, Color::White) => " B "@,
                (PieceRole::Rook, Color::White) => " R "@,
                (PieceRole::Queen, Color::White) => " Q "@,
                (PieceRole::King, Color::White) => " K "@,
                (PieceRole::Pawn, Color::Black) => " p "@,
                (PieceRole::Knight, Color::Black) => " n "@,
                (PieceRole::Bishop, Color::Black) => " b "@,
                (PieceRole::Rook, Color::Black) => " r "@,
                (PieceRole::Queen, Color::Black) => " q "@,
                (PieceRole::King, Color::Black) => " k "@,
            }
        },
        None => if sensed {
            " \u{26a0} "@
        } else {
            " \u{b7} "@
        },
    }
}

/// The cell shown for a square of the game-state board, given the piece
/// the committed position holds there and whether the sensor reports one.
pub fn game_state_symbol(piece: Option<Piece>, sensed: bool) -> (r: &'static str)
    ensures
        r@ == game_state_symbol_spec(piece, sensed),
{
    match piece {
        Some(p) => if !sensed {
            " \u{25cb} "
        } else {
            match (p.role, p.color) {
                (PieceRole::Pawn, Color::White) => " P ",
                (PieceRole::Knight, Color::White) => " N ",
                (PieceRole::Bishop, Color::White) => " B ",
                (PieceRole::Rook, Color::White) => " R ",
                (PieceRole::Queen, Color::White) => " Q ",
                (PieceRole::King, Color::White) => " K ",
                (PieceRole::Pawn, Color::Black) => " p ",
                (PieceRole::Knight, Color::Black) => " n ",
                (PieceRole::Bishop, Color::Black) => " b ",
                (PieceRole::Rook, Color::Black) => " r ",
                (PieceRole::Queen, Color::Black) => " q ",
                (PieceRole::King, Color::Black) => " k ",
            }
        },
        None => if sensed {
            " \u{26a0} "
        } else {
            " \u{b7} "
        },
    }
}

/// The label opening the line of a rank.
pub open spec fn rank_label_spec(rank: u8) -> Seq<char> {
    match rank {
        1u8 => " 1 "@,
        2u8 => " 2 "@,
        3u8 => " 3 "@,
        4u8 => " 4 "@,
        5u8 => " 5 "@,
        6u8 => " 6 "@,
        7u8 => " 7 "@,
        _ => " 8 "@,
    }
}

/// The first `f` cells of a rank's line.
pub open spec fn cells_spec(v: Seq<Option<SquareFeedback>>, rank: u8, f: int) -> Seq<char>
    decreases f,
{
    if f <= 0 {
        Seq::empty()
    } else {
        cells_spec(v, rank, f - 1) + format_square_spec(v[(rank - 1) * 8 + (f - 1)])
    }
}

/// One rank's line: its label, its eight cells, and a line break.
pub open spec fn row_spec(v: Seq<Option<SquareFeedback>>, rank: u8) -> Seq<char> {
    rank_label_spec(rank) + cells_spec(v, rank, 8) + "\n"@
}

/// The lines of the ranks from 8 down to `low`.
pub open spec fn rows_down_to(v: Seq<Option<SquareFeedback>>, low: u8) -> Seq<char>
    decreases 9 - low,
{
    if low > 8 {
        Seq::empty()
    } else {
        rows_down_to(v, (low + 1) as u8) + row_spec(v, low)
    }
}

/// The whole rendered board: ranks 8 down to 1, then the file labels.
pub open spec fn render_spec(v: Seq<Option<SquareFeedback>>) -> Seq<char> {
    rows_down_to(v, 1) + "    a  b  c  d  e  f  g  h\n"@
}

impl TerminalDisplay {
    /// Creates a new terminal display.
    pub fn new() -> (r: TerminalDisplay)
        ensures
            r == TerminalDisplay,
    {
        TerminalDisplay
    }

    /// Renders a feedback map as text: one line per rank, top rank first,
    /// closed by a line of file labels.
    pub fn render(&self, feedback: &BoardFeedback) -> (r: String)
        requires
            feedback.wf(),
        ensures
            r@ == render_spec(feedback@),
    {
        let mut out = String::new();
        let mut rank: u8 = 8;
        loop
            invariant
                feedback.wf(),
                0 <= rank <= 8,
                out@ == rows_down_to(feedback@, (rank + 1) as u8),
            ensures
                out@ == rows_down_to(feedback@, 1),
            decreases rank,
        {
            if rank == 0 {
                break ;
            }
            let label = match rank {
                1u8 => " 1 ",
                2u8 => " 2 ",
                3u8 => " 3 ",
                4u8 => " 4 ",
                5u8 => " 5 ",
                6u8 => " 6 ",
                7u8 => " 7 ",
                _ => " 8 ",
            };
            out.append(label);
            let mut f: u8 = 0;
            while f < 8
                invariant
                    feedback.wf(),
                    1 <= rank <= 8,
                    f <= 8,
                    out@ == rows_down_to(feedback@, (rank + 1) as u8) + rank_label_spec(rank)
                        + cells_spec(feedback@, rank, f as int),
                decreases 8 - f,
            {
                let idx = (rank - 1) * 8 + f;
                let cell = format_square(feedback.get(Square(idx)));
                out.append(cell);
                proof {
                    assert((rows_down_to(feedback@, (rank + 1) as u8) + rank_label_spec(rank)
                        + cells_spec(feedback@, rank, f as int)) + format_square_spec(
                        feedback@[idx as int],
                    ) =~= rows_down_to(feedback@, (rank + 1) as u8) + rank_label_spec(rank)
                        + cells_spec(feedback@, rank, (f + 1) as int));
                }
                f = f + 1;
            }
            out.append("\n");
            proof {
                assert((rows_down_to(feedback@, (rank + 1) as u8) + rank_label_spec(rank)
                    + cells_spec(feedback@, rank, 8)) + "\n"@ =~= rows_down_to(
                    feedback@,
                    (rank + 1) as u8,
                ) + row_spec(feedback@, rank));
                assert(rows_down_to(feedback@, (rank + 1) as u8) + row_spec(feedback@, rank)
                    =~= rows_down_to(feedback@, rank));
            }
            rank = rank - 1;
        }
        out.append("    a  b  c  d  e  f  g  h\n");
        out
    }
}

} // verus!
