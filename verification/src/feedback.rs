//! The feedback computer: a pure function from a game state to a
//! per-square feedback map that drives the board's lights.

use vstd::prelude::*;
use crate::bitboard::bit_set;
use crate::engine::GameState;
use crate::moves::MoveInfo;
use crate::square::Square;

verus! {

/// Type of visual feedback for an individual square.
#[derive(Debug, Clone, Copy, PartialEq, Eq, Hash, Structural)]
pub enum SquareFeedback {
    /// Place your piece here (legal destination or move completion).
    Destination,
    /// Placing here captures an opponent piece.
    Capture,
    /// Lift this piece to move or capture (origin of move).
    Origin,
    /// This king is in check.
    Check,
    /// This piece gives check.
    Checker,
}

/// The feedback map: one optional tag for each of the 64 squares.
#[derive(Debug, Clone, PartialEq, Eq)]
pub struct BoardFeedback {
    slots: Vec<Option<SquareFeedback>>,
}

impl View for BoardFeedback {
    type V = Seq<Option<SquareFeedback>>;

    closed spec fn view(&self) -> Seq<Option<SquareFeedback>> {
        self.slots@
    }
}

/// The entries of a feedback map below slot `n`, in square order.
pub open spec fn entries_upto(s: Seq<Option<SquareFeedback>>, n: int) -> Seq<
    (Square, SquareFeedback),
>
    decreases n,
{
    if n <= 0 {
        Seq::empty()
    } else {
        match s[n - 1] {
            Some(f) => entries_upto(s, n - 1).push((Square((n - 1) as u8), f)),
            None => entries_upto(s, n - 1),
        }
    }
}

impl BoardFeedback {
    /// A feedback map always holds one slot per square.
    pub open spec fn wf(self) -> bool {
        self@.len() == 64
    }

    /// Whether no square carries feedback.
    pub open spec fn is_empty_spec(self) -> bool {
        forall|k: int| 0 <= k < 64 ==> self@[k] is None
    }

    /// Creates empty feedback (no highlights).
    pub fn new() -> (r: BoardFeedback)
        ensures
            r.wf(),
            forall|k: int| 0 <= k < 64 ==> r@[k] is None,
    {
        let mut slots: Vec<Option<SquareFeedback>> = Vec::new();
        let mut i: u8 = 0;
        while i < 64
            invariant
                i <= 64,
                slots@.len() == i,
                forall|k: int| 0 <= k < i ==> slots@[k] is None,
            decreases 64 - i,
        {
            slots.push(None);
            i = i + 1;
        }
        BoardFeedback { slots }
    }

    /// Marks a square with a feedback tag.
    pub fn set(&mut self, square: Square, feedback: SquareFeedback)
        requires
            old(self).wf(),
            square.wf(),
        ensures
            final(self).wf(),
            final(self)@ == old(self)@.update(square.0 as int, Some(feedback)),
    {
        self.slots.set(square.0 as usize, Some(feedback));
    }

    /// Gets the feedback for a specific square, if any.
    pub fn get(&self, square: Square) -> (r: Option<SquareFeedback>)
        requires
            self.wf(),
            square.wf(),
        ensures
            r == self@[square.0 as int],
    {
        self.slots[square.0 as usize]
    }

    /// Lists all marked squares with their tags, in square order.
    pub fn squares(&self) -> (r: Vec<(Square, SquareFeedback)>)
        requires
            self.wf(),
        ensures
            r@ == entries_upto(self@, 64),
    {
        let mut out: Vec<(Square, SquareFeedback)> = Vec::new();
        let mut i: u8 = 0;
        while i < 64
            invariant
                self.wf(),
                i <= 64,
                out@ == entries_upto(self@, i as int),
            decreases 64 - i,
        {
            match self.slots[i as usize] {
                Some(f) => out.push((Square(i), f)),
                None => {},
            }
            i = i + 1;
        }
        out
    }

    /// Returns true if there are no feedback squares to display.
    pub fn is_empty(&self) -> (r: bool)
        requires
            self.wf(),
        ensures
            r == self.is_empty_spec(),
    {
        let mut i: u8 = 0;
        while i < 64
            invariant
                self.wf(),
                i <= 64,
                forall|k: int| 0 <= k < i ==> self@[k] is None,
            decreases 64 - i,
        {
            if self.slots[i as usize].is_some() {
                return false;
            }
            i = i + 1;
        }
        true
    }
}

/// Whether some legal move takes the piece on `f` to `sq` as a capture.
pub open spec fn some_capture_from(ms: Seq<MoveInfo>, f: Square, sq: Square) -> bool {
    exists|i: int|
        0 <= i < ms.len() && (#[trigger] ms[i]).from_spec() == Some(f) && ms[i].to_spec() == sq
            && ms[i].is_capture_spec()
}

/// Whether some legal move takes the piece on `f` to `sq`.
pub open spec fn some_move_from(ms: Seq<MoveInfo>, f: Square, sq: Square) -> bool {
    exists|i: int|
        0 <= i < ms.len() && (#[trigger] ms[i]).from_spec() == Some(f) && ms[i].to_spec() == sq
}

/// Whether some legal move capturing the piece on `t` lands on `sq`.
pub open spec fn some_capturer_to(ms: Seq<MoveInfo>, t: Square, sq: Square) -> bool {
    exists|i: int|
        0 <= i < ms.len() && (#[trigger] ms[i]).captures_on_spec(t) && ms[i].to_spec() == sq
}

/// Whether some legal move capturing the piece on `t` starts on `sq`.
pub open spec fn some_capturer_from(ms: Seq<MoveInfo>, t: Square, sq: Square) -> bool {
    exists|i: int|
        0 <= i < ms.len() && (#[trigger] ms[i]).captures_on_spec(t) && ms[i].from_spec() == Some(sq)
}

/// Whether some legal move from `f` capturing the piece on `t` lands on `sq`.
pub open spec fn some_completion(ms: Seq<MoveInfo>, f: Square, t: Square, sq: Square) -> bool {
    exists|i: int|
        0 <= i < ms.len() && (#[trigger] ms[i]).from_spec() == Some(f) && ms[i].captures_on_spec(t)
            && ms[i].to_spec() == sq
}

/// The feedback a square receives for a given game state:
/// - nothing lifted or captured: check highlights only, king first;
/// - own piece lifted: its origin plus every legal destination,
///   distinguishing captures;
/// - opponent piece removed: every legal move capturing it, destination
///   marks taking precedence over origin marks;
/// - both: the origin plus each square completing the capture.
pub open spec fn feedback_spec(state: GameState, sq: Square) -> Option<SquareFeedback> {
    let ms = state.moves_spec();
    match (state.captured_spec(), state.lifted_spec()) {
        (None, None) => match state.check_info_spec() {
            None => None,
            Some(ci) => if sq == ci.king_square {
                Some(SquareFeedback::Check)
            } else if bit_set(ci.checkers.0, sq.0) {
                Some(SquareFeedback::Checker)
            } else {
                None
            },
        },
        (None, Some(f)) => if sq == f {
            Some(SquareFeedback::Origin)
        } else if some_capture_from(ms, f, sq) {
            Some(SquareFeedback::Capture)
        } else if some_move_from(ms, f, sq) {
            Some(SquareFeedback::Destination)
        } else {
            None
        },
        (Some(t), None) => if some_capturer_to(ms, t, sq) {
            Some(SquareFeedback::Destination)
        } else if some_capturer_from(ms, t, sq) {
            Some(SquareFeedback::Origin)
        } else {
            None
        },
        (Some(t), Some(f)) => if sq == f {
            Some(SquareFeedback::Origin)
        } else if some_completion(ms, f, t, sq) {
            Some(SquareFeedback::Destination)
        } else {
            None
        },
    }
}

/// Searches the legal moves for a capture from `f` to `sq`.
fn find_capture_from(moves: &Vec<MoveInfo>, f: Square, sq: Square) -> (r: bool)
    ensures
        r == some_capture_from(moves@, f, sq),
{
    let mut i: usize = 0;
    while i < moves.len()
        invariant
            forall|j: int|
                0 <= j < i ==> !((#[trigger] moves@[j]).from_spec() == Some(f) && moves@[j].to_spec()
                    == sq && moves@[j].is_capture_spec()),
        decreases moves.len() - i,
    {
        let m = moves[i];
        let from_matches = match m.from() {
            Some(s) => s.0 == f.0,
            None => false,
        };
        if from_matches && m.to().0 == sq.0 && m.is_capture() {
            return true;
        }
        i = i + 1;
    }
    false
}

/// Searches the legal moves for any move from `f` to `sq`.
fn find_move_from(moves: &Vec<MoveInfo>, f: Square, sq: Square) -> (r: bool)
    ensures
        r == some_move_from(moves@, f, sq),
{
    let mut i: usize = 0;
    while i < moves.len()
        invariant
            forall|j: int|
                0 <= j < i ==> !((#[trigger] moves@[j]).from_spec() == Some(f) && moves@[j].to_spec()
                    == sq),
        decreases moves.len() - i,
    {
        let m = moves[i];
        let from_matches = match m.from() {
            Some(s) => s.0 == f.0,
            None => false,
        };
        if from_matches && m.to().0 == sq.0 {
            return true;
        }
        i = i + 1;
    }
    false
}

/// Searches the legal moves for one capturing on `t` that lands on `sq`.
fn find_capturer_to(moves: &Vec<MoveInfo>, t: Square, sq: Square) -> (r: bool)
    requires
        forall|j: int| 0 <= j < moves@.len() ==> (#[trigger] moves@[j]).wf(),
    ensures
        r == some_capturer_to(moves@, t, sq),
{
    let mut i: usize = 0;
    while i < moves.len()
        invariant
            forall|j: int| 0 <= j < moves@.len() ==> (#[trigger] moves@[j]).wf(),
            forall|j: int|
                0 <= j < i ==> !((#[trigger] moves@[j]).captures_on_spec(t) && moves@[j].to_spec()
                    == sq),
        decreases moves.len() - i,
    {
        let m = moves[i];
        if m.captures_on(t) && m.to().0 == sq.0 {
            return true;
        }
        i = i + 1;
    }
    false
}

/// Searches the legal moves for one capturing on `t` that starts on `sq`.
fn find_capturer_from(moves: &Vec<MoveInfo>, t: Square, sq: Square) -> (r: bool)
    requires
        forall|j: int| 0 <= j < moves@.len() ==> (#[trigger] moves@[j]).wf(),
    ensures
        r == some_capturer_from(moves@, t, sq),
{
    let mut i: usize = 0;
    while i < moves.len()
        invariant
            forall|j: int| 0 <= j < moves@.len() ==> (#[trigger] moves@[j]).wf(),
            forall|j: int|
                0 <= j < i ==> !((#[trigger] moves@[j]).captures_on_spec(t) && moves@[j].from_spec()
                    == Some(sq)),
        decreases moves.len() - i,
    {
        let m = moves[i];
        let from_matches = match m.from() {
            Some(s) => s.0 == sq.0,
            None => false,
        };
        if m.captures_on(t) && from_matches {
            return true;
        }
        i = i + 1;
    }
    false
}

/// Searches the legal moves for one from `f` capturing on `t` landing on `sq`.
fn find_completion(moves: &Vec<MoveInfo>, f: Square, t: Square, sq: Square) -> (r: bool)
    requires
        forall|j: int| 0 <= j < moves@.len() ==> (#[trigger] moves@[j]).wf(),
    ensures
        r == some_completion(moves@, f, t, sq),
{
    let mut i: usize = 0;
    while i < moves.len()
        invariant
            forall|j: int| 0 <= j < moves@.len() ==> (#[trigger] moves@[j]).wf(),
            forall|j: int|
                0 <= j < i ==> !((#[trigger] moves@[j]).from_spec() == Some(f) && moves@[
                j].captures_on_spec(t) && moves@[j].to_spec() == sq),
        decreases moves.len() - i,
    {
        let m = moves[i];
        let from_matches = match m.from() {
            Some(s) => s.0 == f.0,
            None => false,
        };
        if from_matches && m.captures_on(t) && m.to().0 == sq.0 {
            return true;
        }
        i = i + 1;
    }
    false
}

/// Computes the feedback tag of one square for the given state.
fn square_tag(state: &GameState, sq: Square) -> (r: Option<SquareFeedback>)
    requires
        state.wf(),
        sq.wf(),
    ensures
        r == feedback_spec(*state, sq),
{
    match (state.captured_piece(), state.lifted_piece()) {
        (None, None) => match state.check_info() {
            None => None,
            Some(ci) => if sq.0 == ci.king_square.0 {
                Some(SquareFeedback::Check)
            } else if ci.checkers.contains(sq) {
                Some(SquareFeedback::Checker)
            } else {
                None
            },
        },
        (None, Some(f)) => if sq.0 == f.0 {
            Some(SquareFeedback::Origin)
        } else if find_capture_from(state.legal_moves(), f, sq) {
            Some(SquareFeedback::Capture)
        } else if find_move_from(state.legal_moves(), f, sq) {
            Some(SquareFeedback::Destination)
        } else {
            None
        },
        (Some(t), None) => if find_capturer_to(state.legal_moves(), t, sq) {
            Some(SquareFeedback::Destination)
        } else if find_capturer_from(state.legal_moves(), t, sq) {
            Some(SquareFeedback::Origin)
        } else {
            None
        },
        (Some(t), Some(f)) => if sq.0 == f.0 {
            Some(SquareFeedback::Origin)
        } else if find_completion(state.legal_moves(), f, t, sq) {
            Some(SquareFeedback::Destination)
        } else {
            None
        },
    }
}

/// Computes the feedback map of a game state, square by square, exactly as
/// `feedback_spec` describes it.
pub fn compute_feedback(state: &GameState) -> (r: BoardFeedback)
    requires
        state.wf(),
    ensures
        r.wf(),
        forall|k: int| 0 <= k < 64 ==> r@[k] == feedback_spec(*state, Square(k as u8)),
{
    let mut fb = BoardFeedback::new();
    let mut i: u8 = 0;
    while i < 64
        invariant
            state.wf(),
            fb.wf(),
            i <= 64,
            forall|k: int| 0 <= k < i ==> fb@[k] == feedback_spec(*state, Square(k as u8)),
            forall|k: int| i <= k < 64 ==> fb@[k] is None,
        decreases 64 - i,
    {
        match square_tag(state, Square(i)) {
            Some(tag) => fb.set(Square(i), tag),
            None => {},
        }
        i = i + 1;
    }
    fb
}

/// A feedback map computed for a state is empty exactly when the state
/// calls for no mark on any square.
pub proof fn lemma_feedback_empty(state: GameState, fb: BoardFeedback)
    requires
        fb.wf(),
        forall|k: int| 0 <= k < 64 ==> fb@[k] == feedback_spec(state, Square(k as u8)),
    ensures
        fb.is_empty_spec() <==> (forall|k: int|
            0 <= k < 64 ==> (#[trigger] feedback_spec(state, Square(k as u8))) is None),
{
    if fb.is_empty_spec() {
        assert forall|k: int| 0 <= k < 64 implies (#[trigger] feedback_spec(
            state,
            Square(k as u8),
        )) is None by {
            assert(fb@[k] is None);
        }
    }
    if forall|k: int| 0 <= k < 64 ==> (#[trigger] feedback_spec(state, Square(k as u8))) is None {
        assert forall|k: int| 0 <= k < 64 implies fb@[k] is None by {
            assert(feedback_spec(state, Square(k as u8)) is None);
        }
    }
}

} // verus!
