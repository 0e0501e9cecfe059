//! The game engine: reconciles each occupancy snapshot with the legal-move
//! set of the current position and commits at most one move per snapshot.

use vstd::prelude::*;
use crate::bitboard::{Bitboard, ColorOccupancy, pop64};
use crate::moves::{MoveInfo, Piece, PieceRole};
use crate::position::{
    checkers_board, checkers_of, color_boards, king_of, king_square_of, legal_moves_of, legal_of,
    occ_of, occupied, piece_of, piece_on, play_nth, position_after, start_position, them_occupied,
    them_of, us_occupied, us_of,
};
use crate::square::Square;

verus! {

/// The squares newly occupied by either color since the previous
/// snapshot. A square whose piece changed color counts: it was newly
/// occupied by the new color.
pub open spec fn placed_of(pw: u64, pb: u64, cw: u64, cb: u64) -> u64 {
    (cw & !pw) | (cb & !pb)
}

/// The squares vacated by either color since the previous snapshot.
pub open spec fn lifted_of(pw: u64, pb: u64, cw: u64, cb: u64) -> u64 {
    (pw & !cw) | (pb & !cb)
}

/// Whether a snapshot triggers move matching at all: something must have
/// changed, and something must have been placed — except that a
/// disappearance of exactly two squares in one poll is also admitted,
/// because an en passant capture can become visible that way.
pub open spec fn attempts_match(pw: u64, pb: u64, cw: u64, cb: u64) -> bool {
    !(cw == pw && cb == pb) && (placed_of(pw, pb, cw, cb) != 0 || pop64(
        lifted_of(pw, pb, cw, cb),
    ) == 2)
}

/// The candidate filters: only queen promotions are ever committed (the
/// board has no channel to choose a promotion piece), and a capture that is
/// not en passant must land on the single just-placed square when there is
/// one, so that an ordinary move to the same square is preferred.
pub open spec fn admissible_spec(m: MoveInfo, placed: u64) -> bool {
    &&& (m.promotion_spec() is None || m.promotion_spec() == Some(PieceRole::Queen))
    &&& !(m.is_capture_spec() && !m.is_en_passant_spec() && Bitboard(placed).single_spec() is Some
        && Bitboard(placed).single_spec() != Some(m.to_spec()))
}

/// Whether the `i`-th legal move of `p` passes the filters and its
/// post-move occupancy equals the observed combined occupancy.
pub open spec fn commit_at(p: shakmaty::Chess, i: int, placed: u64, curr: u64) -> bool {
    &&& 0 <= i < legal_of(p).len()
    &&& admissible_spec(legal_of(p)[i], placed)
    &&& occ_of(position_after(p, i)) == curr
}

/// Whether some legal move of `p` explains the observed occupancy.
pub open spec fn commits(p: shakmaty::Chess, placed: u64, curr: u64) -> bool {
    exists|i: int| #[trigger] commit_at(p, i, placed, curr)
}

/// How one snapshot moves the committed position: the first matching legal
/// move is committed, and without a matching attempt or a match the
/// position stands. The snapshots are per-color pairs; matching itself
/// compares combined occupancies.
pub open spec fn position_step(
    p: shakmaty::Chess,
    q: shakmaty::Chess,
    pw: u64,
    pb: u64,
    cw: u64,
    cb: u64,
) -> bool {
    let placed = placed_of(pw, pb, cw, cb);
    let curr = cw | cb;
    if attempts_match(pw, pb, cw, cb) && commits(p, placed, curr) {
        exists|i: int|
            {
                &&& #[trigger] commit_at(p, i, placed, curr)
                &&& forall|j: int| 0 <= j < i ==> !(#[trigger] commit_at(p, j, placed, curr))
                &&& q == position_after(p, i)
            }
    } else {
        q == p
    }
}

/// Check information of a position: the king square of the side to move
/// and the squares of the pieces giving check.
#[derive(Debug, Clone, Copy, PartialEq, Eq, Structural)]
pub struct CheckInfo {
    pub king_square: Square,
    pub checkers: Bitboard,
}

/// The per-tick snapshot handed to the feedback computer: the legal moves
/// of the committed position plus the transient lifted, captured and check
/// information.
#[derive(Debug, Clone, PartialEq, Eq)]
pub struct GameState {
    legal_moves: Vec<MoveInfo>,
    lifted_piece: Option<Square>,
    captured_piece: Option<Square>,
    king_square: Square,
    checkers: Bitboard,
}

impl GameState {
    /// The legal moves of the committed position.
    pub closed spec fn moves_spec(self) -> Seq<MoveInfo> {
        self.legal_moves@
    }

    /// The own-color square whose piece is off the board, if exactly one.
    pub closed spec fn lifted_spec(self) -> Option<Square> {
        self.lifted_piece
    }

    /// The opponent square whose piece is off the board, if exactly one.
    pub closed spec fn captured_spec(self) -> Option<Square> {
        self.captured_piece
    }

    /// The king square of the side to move.
    pub closed spec fn king_spec(self) -> Square {
        self.king_square
    }

    /// The bitboard of pieces giving check.
    pub closed spec fn checkers_spec(self) -> u64 {
        self.checkers.0
    }

    /// Every square the state mentions is a real square.
    pub open spec fn wf(self) -> bool {
        &&& forall|i: int| 0 <= i < self.moves_spec().len() ==> (#[trigger] self.moves_spec()[i]).wf()
        &&& self.lifted_spec() matches Some(s) ==> s.wf()
        &&& self.captured_spec() matches Some(s) ==> s.wf()
        &&& self.king_spec().wf()
    }

    /// How a state describes a committed position `p` seen under the
    /// combined occupancy `curr`: the post-commit legal moves, the single
    /// missing square of each color if there is exactly one, and the check
    /// data of the position.
    pub open spec fn describes(self, p: shakmaty::Chess, curr: u64) -> bool {
        &&& self.moves_spec() == legal_of(p)
        &&& self.lifted_spec() == Bitboard(us_of(p) & !curr).single_spec()
        &&& self.captured_spec() == Bitboard(them_of(p) & !curr).single_spec()
        &&& self.king_spec().0 == king_of(p)
        &&& self.checkers_spec() == checkers_of(p)
    }

    /// All legal moves in the committed position.
    pub fn legal_moves(&self) -> (r: &Vec<MoveInfo>)
        ensures
            r@ == self.moves_spec(),
    {
        &self.legal_moves
    }

    /// The square of the currently lifted own piece, if any.
    pub fn lifted_piece(&self) -> (r: Option<Square>)
        ensures
            r == self.lifted_spec(),
    {
        self.lifted_piece
    }

    /// The square of the opponent piece removed for a capture in progress.
    pub fn captured_piece(&self) -> (r: Option<Square>)
        ensures
            r == self.captured_spec(),
    {
        self.captured_piece
    }

    /// The check highlight data, present exactly when the side to move is
    /// in check.
    pub fn check_info(&self) -> (r: Option<CheckInfo>)
        ensures
            r == self.check_info_spec(),
    {
        if self.checkers.0 == 0 {
            None
        } else {
            Some(CheckInfo { king_square: self.king_square, checkers: self.checkers })
        }
    }

    /// `check_info` yields the king and checkers exactly when a checker
    /// exists.
    pub open spec fn check_info_spec(self) -> Option<CheckInfo> {
        if self.checkers_spec() == 0 {
            None
        } else {
            Some(CheckInfo { king_square: self.king_spec(), checkers: Bitboard(self.checkers_spec()) })
        }
    }
}

/// The engine: the committed chess position plus the per-color occupancy
/// the sensors reported on the previous tick.
pub struct GameEngine {
    position: shakmaty::Chess,
    last_occupancy: ColorOccupancy,
    initial: Ghost<shakmaty::Chess>,
    ticks: Ghost<nat>,
}

impl GameEngine {
    /// The committed position.
    pub closed spec fn pos(self) -> shakmaty::Chess {
        self.position
    }

    /// The white occupancy reported on the previous tick.
    pub closed spec fn last_white(self) -> u64 {
        self.last_occupancy.white.0
    }

    /// The black occupancy reported on the previous tick.
    pub closed spec fn last_black(self) -> u64 {
        self.last_occupancy.black.0
    }

    /// The position the engine was constructed from.
    pub closed spec fn initial_pos(self) -> shakmaty::Chess {
        self.initial@
    }

    /// How many snapshots the engine has processed.
    pub closed spec fn tick_count(self) -> nat {
        self.ticks@
    }

    /// The committed position is always reachable from the construction
    /// position by legal moves, at most one per processed snapshot.
    pub open spec fn inv(self) -> bool {
        reachable(self.initial_pos(), self.pos(), self.tick_count())
    }

    /// Creates an engine holding the standard starting position.
    pub fn new() -> (r: GameEngine)
        ensures
            r.last_white() == crate::position::white_of(r.pos()),
            r.last_black() == crate::position::black_of(r.pos()),
            occ_of(r.pos()) == 0xFFFF_0000_0000_FFFFu64,
            us_of(r.pos()) == 0xFFFFu64,
            them_of(r.pos()) == 0xFFFF_0000_0000_0000u64,
            r.last_white() == 0xFFFFu64,
            r.last_black() == 0xFFFF_0000_0000_0000u64,
            r.tick_count() == 0,
            r.inv(),
    {
        GameEngine::from_position(start_position())
    }

    /// Creates an engine from an existing chess position; the last-seen
    /// occupancy starts out as the position's own per-color occupied sets.
    pub fn from_position(position: shakmaty::Chess) -> (r: GameEngine)
        ensures
            r.pos() == position,
            r.last_white() == crate::position::white_of(position),
            r.last_black() == crate::position::black_of(position),
            r.last_white() | r.last_black() == occ_of(position),
            r.last_white() & r.last_black() == 0,
            r.initial_pos() == position,
            r.tick_count() == 0,
            r.inv(),
    {
        let (white, black) = color_boards(&position);
        GameEngine {
            position,
            last_occupancy: ColorOccupancy { white: Bitboard(white), black: Bitboard(black) },
            initial: Ghost(position),
            ticks: Ghost(0nat),
        }
    }

    /// The piece at a given square of the committed position, if any.
    pub fn piece_at(&self, square: Square) -> (r: Option<Piece>)
        requires
            square.wf(),
        ensures
            r == piece_of(self.pos(), square.0),
    {
        piece_on(&self.position, square)
    }

    /// Processes one sensor snapshot: commits the first legal move whose
    /// post-move occupancy equals the observed one (if the snapshot
    /// triggers matching at all), remembers the snapshot, and reports the
    /// resulting game state.
    pub fn tick(&mut self, current: ColorOccupancy) -> (state: GameState)
        requires
            current.wf(),
        ensures
            final(self).last_white() == current.white.0,
            final(self).last_black() == current.black.0,
            position_step(
                old(self).pos(),
                final(self).pos(),
                old(self).last_white(),
                old(self).last_black(),
                current.white.0,
                current.black.0,
            ),
            state.describes(final(self).pos(), current.combined_spec()),
            state.wf(),
            final(self).initial_pos() == old(self).initial_pos(),
            final(self).tick_count() == old(self).tick_count() + 1,
            old(self).inv() ==> final(self).inv(),
    {
        let ghost before = *self;
        let curr = current.combined();
        self.process_moves(current);
        proof {
            self.ticks@ = before.tick_count() + 1;
            if before.inv() {
                lemma_reachable_extend(
                    before.initial_pos(),
                    before.pos(),
                    self.position,
                    before.tick_count(),
                    before.last_white(),
                    before.last_black(),
                    current.white.0,
                    current.black.0,
                );
            }
        }

        let us_bb = us_occupied(&self.position);
        let them_bb = them_occupied(&self.position);
        let lifted = Bitboard(us_bb & !curr.0).single();
        let captured = Bitboard(them_bb & !curr.0).single();
        let king = king_square_of(&self.position);
        let checkers = checkers_board(&self.position);
        GameState {
            legal_moves: legal_moves_of(&self.position),
            lifted_piece: lifted,
            captured_piece: captured,
            king_square: Square(king),
            checkers: Bitboard(checkers),
        }
    }

    /// Commits at most one move for the snapshot and updates the last-seen
    /// occupancy.
    #[verifier::loop_isolation(false)]
    fn process_moves(&mut self, current: ColorOccupancy)
        ensures
            final(self).last_occupancy == current,
            final(self).initial == old(self).initial,
            position_step(
                old(self).position,
                final(self).position,
                old(self).last_occupancy.white.0,
                old(self).last_occupancy.black.0,
                current.white.0,
                current.black.0,
            ),
    {
        if current.white.0 == self.last_occupancy.white.0 && current.black.0
            == self.last_occupancy.black.0 {
            self.last_occupancy = current;
            return ;
        }
        let placed = Bitboard(
            (current.white.0 & !self.last_occupancy.white.0) | (current.black.0
                & !self.last_occupancy.black.0),
        );
        let lifted_count = Bitboard(
            (self.last_occupancy.white.0 & !current.white.0) | (self.last_occupancy.black.0
                & !current.black.0),
        ).count();
        self.last_occupancy = current;

        // Wait until a piece lands before matching, so that a player can
        // lift a piece and put it back; the two-square disappearance of an
        // en passant capture is the one exception.
        if placed.0 == 0 && lifted_count != 2 {
            return ;
        }

        let curr = current.combined();
        let placed_single = Bitboard(placed.0).single();
        let moves = legal_moves_of(&self.position);
        let ghost p0 = self.position;
        let mut i: usize = 0;
        while i < moves.len()
            invariant
                forall|j: int| 0 <= j < i ==> !(#[trigger] commit_at(p0, j, placed.0, curr.0)),
                self.position == p0,
                self.last_occupancy == current,
                self.initial == old(self).initial,
            decreases moves.len() - i,
        {
            let m = moves[i];

            // Promotion policy: queens only.
            let mut admissible = match m.promotion() {
                Some(role) => matches!(role, PieceRole::Queen),
                None => true,
            };

            // Capture pre-filter: an ordinary capture must land on the
            // single just-placed square when there is one.
            if admissible && m.is_capture() && !m.is_en_passant() {
                if let Some(s) = placed_single {
                    if s.0 != m.to().0 {
                        admissible = false;
                    }
                }
            }
            proof {
                assert(admissible == admissible_spec(m, placed.0));
            }

            if admissible {
                let after = play_nth(&self.position, i);
                if occupied(&after) == curr.0 {
                    self.position = after;
                    proof {
                        assert(commit_at(p0, i as int, placed.0, curr.0));
                    }
                    return ;
                }
            }
            proof {
                assert(!commit_at(p0, i as int, placed.0, curr.0));
            }
            i = i + 1;
        }
    }
}

/// Whether `q` is `p` or follows from `p` by one legal move.
pub open spec fn position_stepped(p: shakmaty::Chess, q: shakmaty::Chess) -> bool {
    q == p || exists|i: int| 0 <= i < legal_of(p).len() && q == #[trigger] position_after(p, i)
}

/// Whether `q` is reachable from `p` by at most `n` single steps, each a
/// legal move or a stand-still.
pub open spec fn reachable(p: shakmaty::Chess, q: shakmaty::Chess, n: nat) -> bool
    decreases n,
{
    if n == 0 {
        q == p
    } else {
        exists|r: shakmaty::Chess|
            #[trigger] position_stepped(r, q) && reachable(p, r, (n - 1) as nat)
    }
}

/// Whatever a tick does, the committed position moves by at most one legal
/// move of the old position.
pub proof fn lemma_step_is_legal(
    p: shakmaty::Chess,
    q: shakmaty::Chess,
    pw: u64,
    pb: u64,
    cw: u64,
    cb: u64,
)
    requires
        position_step(p, q, pw, pb, cw, cb),
    ensures
        position_stepped(p, q),
{
    let placed = placed_of(pw, pb, cw, cb);
    let curr = cw | cb;
    if attempts_match(pw, pb, cw, cb) && commits(p, placed, curr) {
        let i = choose|i: int|
            {
                &&& #[trigger] commit_at(p, i, placed, curr)
                &&& forall|j: int| 0 <= j < i ==> !(#[trigger] commit_at(p, j, placed, curr))
                &&& q == position_after(p, i)
            };
        assert(0 <= i < legal_of(p).len() && q == position_after(p, i));
    }
}

/// The committed position stays reachable from the starting position: a
/// position reachable in `n` steps is, after any tick, reachable in
/// `n + 1`.
pub proof fn lemma_reachable_extend(
    p0: shakmaty::Chess,
    p: shakmaty::Chess,
    q: shakmaty::Chess,
    n: nat,
    pw: u64,
    pb: u64,
    cw: u64,
    cb: u64,
)
    requires
        reachable(p0, p, n),
        position_step(p, q, pw, pb, cw, cb),
    ensures
        reachable(p0, q, n + 1),
{
    lemma_step_is_legal(p, q, pw, pb, cw, cb);
    assert(position_stepped(p, q) && reachable(p0, p, n));
}

/// A snapshot identical to the previous one never changes the position.
pub proof fn lemma_snapshot_noop(
    p: shakmaty::Chess,
    q: shakmaty::Chess,
    pw: u64,
    pb: u64,
    cw: u64,
    cb: u64,
)
    requires
        position_step(p, q, pw, pb, cw, cb),
        cw == pw,
        cb == pb,
    ensures
        q == p,
{
}

/// A poll that places nothing and does not lift exactly two squares
/// commits nothing: a player may lift a piece and think.
pub proof fn lemma_lift_only_poll(
    p: shakmaty::Chess,
    q: shakmaty::Chess,
    pw: u64,
    pb: u64,
    cw: u64,
    cb: u64,
)
    requires
        position_step(p, q, pw, pb, cw, cb),
        placed_of(pw, pb, cw, cb) == 0,
        pop64(lifted_of(pw, pb, cw, cb)) != 2,
    ensures
        q == p,
{
}

/// A snapshot that no legal move's post-move occupancy equals commits
/// nothing. In particular a piece lifted and put back on its origin, or
/// two own pieces lifted at once, leave the position standing: no chess
/// move reproduces the original occupancy or vacates two squares without
/// filling one.
pub proof fn lemma_unmatched_snapshot(
    p: shakmaty::Chess,
    q: shakmaty::Chess,
    pw: u64,
    pb: u64,
    cw: u64,
    cb: u64,
)
    requires
        position_step(p, q, pw, pb, cw, cb),
        forall|i: int|
            0 <= i < legal_of(p).len() ==> occ_of(#[trigger] position_after(p, i)) != (cw | cb),
    ensures
        q == p,
{
    let placed = placed_of(pw, pb, cw, cb);
    if attempts_match(pw, pb, cw, cb) && commits(p, placed, cw | cb) {
        let i = choose|i: int| #[trigger] commit_at(p, i, placed, cw | cb);
        assert(occ_of(position_after(p, i)) == (cw | cb));
    }
}

/// What a matching attempt commits depends only on the position, the
/// placed set and the combined snapshot: two ticks from the same position
/// whose snapshots combine to the same occupancy and whose placed sets
/// agree commit the same move, whatever earlier snapshots differed.
pub proof fn lemma_step_depends_on_placed(
    p: shakmaty::Chess,
    q1: shakmaty::Chess,
    q2: shakmaty::Chess,
    pw1: u64,
    pb1: u64,
    pw2: u64,
    pb2: u64,
    cw: u64,
    cb: u64,
)
    requires
        position_step(p, q1, pw1, pb1, cw, cb),
        position_step(p, q2, pw2, pb2, cw, cb),
        attempts_match(pw1, pb1, cw, cb),
        attempts_match(pw2, pb2, cw, cb),
        placed_of(pw1, pb1, cw, cb) == placed_of(pw2, pb2, cw, cb),
    ensures
        q1 == q2,
{
    let placed = placed_of(pw1, pb1, cw, cb);
    let curr = cw | cb;
    if commits(p, placed, curr) {
        let i1 = choose|i: int|
            {
                &&& #[trigger] commit_at(p, i, placed, curr)
                &&& forall|j: int| 0 <= j < i ==> !(#[trigger] commit_at(p, j, placed, curr))
                &&& q1 == position_after(p, i)
            };
        let i2 = choose|i: int|
            {
                &&& #[trigger] commit_at(p, i, placed, curr)
                &&& forall|j: int| 0 <= j < i ==> !(#[trigger] commit_at(p, j, placed, curr))
                &&& q2 == position_after(p, i)
            };
        assert(commit_at(p, i1, placed, curr));
        assert(commit_at(p, i2, placed, curr));
        if i1 < i2 {
            assert(!commit_at(p, i1, placed, curr));
        }
        if i2 < i1 {
            assert(!commit_at(p, i2, placed, curr));
        }
        assert(i1 == i2);
    }
}

/// Staging a move through an extra lift-only poll changes nothing: when
/// the intermediate poll places nothing (and is not the two-lift
/// exception) and both routes end on the same snapshot with the same
/// placed set, they commit the same move.
pub proof fn lemma_staged_poll(
    p: shakmaty::Chess,
    q_direct: shakmaty::Chess,
    mid: shakmaty::Chess,
    q_staged: shakmaty::Chess,
    pw: u64,
    pb: u64,
    mw: u64,
    mb: u64,
    cw: u64,
    cb: u64,
)
    requires
        position_step(p, q_direct, pw, pb, cw, cb),
        position_step(p, mid, pw, pb, mw, mb),
        position_step(mid, q_staged, mw, mb, cw, cb),
        placed_of(pw, pb, mw, mb) == 0,
        pop64(lifted_of(pw, pb, mw, mb)) != 2,
        placed_of(pw, pb, cw, cb) == placed_of(mw, mb, cw, cb),
        attempts_match(pw, pb, cw, cb),
        attempts_match(mw, mb, cw, cb),
    ensures
        q_staged == q_direct,
{
    lemma_lift_only_poll(p, mid, pw, pb, mw, mb);
    lemma_step_depends_on_placed(p, q_direct, q_staged, pw, pb, mw, mb, cw, cb);
}

/// Choreography equivalence for a quiet white move from `from` to `to`:
/// placing in the same poll as the lift, or in the next poll, commits the
/// same move, because the lift-only poll commits nothing and both final
/// polls see the same placed square.
pub proof fn lemma_lift_then_place(
    p: shakmaty::Chess,
    q_direct: shakmaty::Chess,
    mid: shakmaty::Chess,
    q_staged: shakmaty::Chess,
    w: u64,
    b: u64,
    from: u8,
    to: u8,
)
    requires
        from < 64,
        to < 64,
        from != to,
        w & (1u64 << from) != 0,
        (w | b) & (1u64 << to) == 0,
        w & b == 0,
        position_step(p, q_direct, w, b, (w & !(1u64 << from)) | (1u64 << to), b),
        position_step(p, mid, w, b, w & !(1u64 << from), b),
        position_step(mid, q_staged, w & !(1u64 << from), b, (w & !(1u64 << from)) | (1u64 << to), b),
    ensures
        q_staged == q_direct,
{
    let mf = 1u64 << from;
    let mt = 1u64 << to;
    let mw = w & !mf;
    let cw = mw | mt;

    // The lift-only poll: nothing placed, exactly one square lifted.
    assert(placed_of(w, b, mw, b) == 0 && lifted_of(w, b, mw, b) == mf) by (bit_vector)
        requires
            w & mf != 0u64,
            mf == 1u64 << from,
            from < 64u8,
            mw == w & !mf,
    ;
    lemma_pop_single_bit_64(from);

    // Both final polls place exactly the `to` square.
    assert(placed_of(w, b, cw, b) == mt && placed_of(mw, b, cw, b) == mt && mt != 0u64 && cw != w
        && cw != mw) by (bit_vector)
        requires
            (w | b) & mt == 0u64,
            w & mf != 0u64,
            mf == 1u64 << from,
            mt == 1u64 << to,
            from != to,
            from < 64u8,
            to < 64u8,
            mw == w & !mf,
            cw == mw | mt,
    ;
    lemma_staged_poll(p, q_direct, mid, q_staged, w, b, mw, b, cw, b);
}

/// The engine reads the two colors symmetrically: a step holds just as
/// well with the white and black boards of both snapshots exchanged. With
/// it, laws stated for a white move carry over to the black mirror.
pub proof fn lemma_step_color_symmetric(
    p: shakmaty::Chess,
    q: shakmaty::Chess,
    pw: u64,
    pb: u64,
    cw: u64,
    cb: u64,
)
    requires
        position_step(p, q, pw, pb, cw, cb),
    ensures
        position_step(p, q, pb, pw, cb, cw),
{
    assert(((cw & !pw) | (cb & !pb)) == ((cb & !pb) | (cw & !pw)) && ((pw & !cw) | (pb & !cb)) == (
    (pb & !cb) | (pw & !cw)) && (cw | cb) == (cb | cw)) by (bit_vector);
}

/// Choreography equivalence for a white capture of the piece on `to` by
/// the piece on `from`: taking the victim off first and then moving in
/// one, two or three polls commits the same move. The one hypothesis is
/// that no legal move's occupancy matches the intermediate snapshot with
/// both squares empty — true in chess, where no move vacates two squares
/// without filling one.
pub proof fn lemma_capture_choreography(
    p: shakmaty::Chess,
    mid_a: shakmaty::Chess,
    mid_b: shakmaty::Chess,
    q_slow: shakmaty::Chess,
    mid_c: shakmaty::Chess,
    q_take: shakmaty::Chess,
    mid_d: shakmaty::Chess,
    q_move: shakmaty::Chess,
    w: u64,
    b: u64,
    from: u8,
    to: u8,
)
    requires
        from < 64,
        to < 64,
        from != to,
        w & b == 0,
        w & (1u64 << from) != 0,
        b & (1u64 << to) != 0,
        // victim off, capturer off, capturer placed: three polls
        position_step(p, mid_a, w, b, w, b & !(1u64 << to)),
        position_step(
            mid_a,
            mid_b,
            w,
            b & !(1u64 << to),
            w & !(1u64 << from),
            b & !(1u64 << to),
        ),
        position_step(
            mid_b,
            q_slow,
            w & !(1u64 << from),
            b & !(1u64 << to),
            (w & !(1u64 << from)) | (1u64 << to),
            b & !(1u64 << to),
        ),
        // victim and capturer off together, then placed: two polls
        position_step(p, mid_c, w, b, w & !(1u64 << from), b & !(1u64 << to)),
        position_step(
            mid_c,
            q_take,
            w & !(1u64 << from),
            b & !(1u64 << to),
            (w & !(1u64 << from)) | (1u64 << to),
            b & !(1u64 << to),
        ),
        // victim off, then capturer moved in one poll
        position_step(p, mid_d, w, b, w, b & !(1u64 << to)),
        position_step(
            mid_d,
            q_move,
            w,
            b & !(1u64 << to),
            (w & !(1u64 << from)) | (1u64 << to),
            b & !(1u64 << to),
        ),
        // chess fact: no move empties both squares at once
        forall|i: int|
            0 <= i < legal_of(p).len() ==> occ_of(#[trigger] position_after(p, i)) != ((w | b) & !(
            1u64 << from) & !(1u64 << to)),
    ensures
        q_take == q_slow,
        q_move == q_slow,
{
    let mf = 1u64 << from;
    let mt = 1u64 << to;
    let cw = (w & !mf) | mt;
    let cb = b & !mt;

    // The lift-only polls place nothing and lift one square each.
    assert(placed_of(w, b, w, b & !mt) == 0 && lifted_of(w, b, w, b & !mt) == mt && placed_of(
        w,
        b & !mt,
        w & !mf,
        b & !mt,
    ) == 0 && lifted_of(w, b & !mt, w & !mf, b & !mt) == mf) by (bit_vector)
        requires
            w & mf != 0u64,
            b & mt != 0u64,
            mf == 1u64 << from,
            mt == 1u64 << to,
            from < 64u8,
            to < 64u8,
    ;
    lemma_pop_single_bit_64(from);
    lemma_pop_single_bit_64(to);
    lemma_lift_only_poll(p, mid_a, w, b, w, b & !mt);
    lemma_lift_only_poll(mid_a, mid_b, w, b & !mt, w & !mf, b & !mt);
    lemma_lift_only_poll(p, mid_d, w, b, w, b & !mt);

    // The double-lift poll attempts a match but nothing fits.
    assert(((w & !mf) | (b & !mt)) == ((w | b) & !mf & !mt)) by (bit_vector)
        requires
            w & b == 0u64,
            w & mf != 0u64,
            b & mt != 0u64,
            mf == 1u64 << from,
            mt == 1u64 << to,
    ;
    lemma_unmatched_snapshot(p, mid_c, w, b, w & !mf, b & !mt);

    // All final polls place exactly the capturer's landing square.
    assert(placed_of(w & !mf, b & !mt, cw, cb) == mt && placed_of(w, b & !mt, cw, cb) == mt && mt
        != 0u64 && cw != (w & !mf) && cw != w) by (bit_vector)
        requires
            w & b == 0u64,
            w & mf != 0u64,
            b & mt != 0u64,
            mf == 1u64 << from,
            mt == 1u64 << to,
            from != to,
            from < 64u8,
            to < 64u8,
            cw == (w & !mf) | mt,
            cb == b & !mt,
    ;
    lemma_step_depends_on_placed(p, q_slow, q_take, w & !mf, b & !mt, w & !mf, b & !mt, cw, cb);
    lemma_step_depends_on_placed(p, q_slow, q_move, w & !mf, b & !mt, w, b & !mt, cw, cb);
}

/// Helper: a single-bit board counts one piece.
proof fn lemma_pop_single_bit_64(sq: u8)
    requires
        sq < 64,
    ensures
        pop64(1u64 << sq) == 1,
{
    crate::bitboard::lemma_pop_single_bit(sq, 64);
}

/// If exactly one own piece is missing from the snapshot and no opponent
/// piece is, the state reports exactly that square as lifted and nothing
/// as captured.
pub proof fn lemma_single_lift(state: GameState, p: shakmaty::Chess, curr: u64)
    requires
        state.describes(p, curr),
        pop64(us_of(p) & !curr) == 1,
        them_of(p) & !curr == 0,
    ensures
        state.lifted_spec() matches Some(s) && s.wf() && crate::bitboard::bit_set(
            us_of(p) & !curr,
            s.0,
        ),
        state.captured_spec() == None::<Square>,
{
    crate::bitboard::lemma_count_one(us_of(p) & !curr);
    let k = choose|k: u8| k < 64 && (us_of(p) & !curr) == (1u64 << k);
    crate::bitboard::lemma_single_bit(k);
    crate::bitboard::lemma_single_empty();
    assert((1u64 << k) & (1u64 << k) != 0) by (bit_vector)
        requires
            k < 64u8,
    ;
}

} // verus!
