//! 64-bit set-of-squares values and the per-color occupancy pair that the
//! sensors report.

use vstd::prelude::*;
use crate::square::Square;

verus! {

/// A bitboard: bit `i` set means square `i` holds a piece.
#[derive(Debug, Clone, Copy, PartialEq, Eq, Hash, Structural)]
pub struct Bitboard(pub u64);

/// Whether bit `k` of `b` is set.
pub open spec fn bit_set(b: u64, k: u8) -> bool {
    b & (1u64 << k) != 0
}

/// Number of set bits of `b` among the bit positions below `n`.
pub open spec fn pop_below(b: u64, n: nat) -> nat
    decreases n,
{
    if n == 0 {
        0
    } else {
        pop_below(b, (n - 1) as nat) + if bit_set(b, (n - 1) as u8) {
            1nat
        } else {
            0nat
        }
    }
}

/// Number of set bits of `b`.
pub open spec fn pop64(b: u64) -> nat {
    pop_below(b, 64)
}

/// A mask of the `n` lowest bits.
pub open spec fn mask64(n: nat) -> u64 {
    if n >= 64 {
        0xFFFF_FFFF_FFFF_FFFFu64
    } else {
        (((1u64 << (n as u64)) as u64) - 1) as u64
    }
}

/// No bit below `n` is set exactly when the `n`-bit mask of `b` is zero.
pub proof fn lemma_pop_mask(b: u64, n: nat)
    requires
        n <= 64,
    ensures
        pop_below(b, n) == 0 <==> b & mask64(n) == 0,
    decreases n,
{
    if n == 0 {
        assert(b & mask64(0) == 0) by (bit_vector);
    } else {
        let k = (n - 1) as u64;
        lemma_pop_mask(b, (n - 1) as nat);
        if n == 64 {
            assert((b & 0xFFFF_FFFF_FFFF_FFFFu64 == 0) <==> (b & (((1u64 << 63u64) - 1) as u64)
                == 0 && b & (1u64 << 63u64) == 0)) by (bit_vector);
        } else {
            let k1 = (n as u64);
            assert((b & (((1u64 << k1) - 1) as u64) == 0) <==> (b & (((1u64 << k) - 1) as u64)
                == 0 && b & (1u64 << k) == 0)) by (bit_vector)
                requires
                    k < 63u64,
                    k1 == k + 1,
            ;
        }
    }
}

/// A bitboard with no set bit among its 64 positions is zero.
pub proof fn lemma_pop_zero(b: u64)
    ensures
        pop64(b) == 0 <==> b == 0,
{
    lemma_pop_mask(b, 64);
    assert(b & 0xFFFF_FFFF_FFFF_FFFFu64 == b) by (bit_vector);
}

/// Counting set bits below a position never decreases as the position grows.
pub proof fn lemma_pop_monotone(b: u64, m: nat, n: nat)
    requires
        m <= n,
    ensures
        pop_below(b, m) <= pop_below(b, n),
    decreases n,
{
    if m < n {
        lemma_pop_monotone(b, m, (n - 1) as nat);
    }
}

/// A set bit below `n` forces at least one bit to be counted below `n`.
pub proof fn lemma_bit_counts(b: u64, k: u8, n: nat)
    requires
        bit_set(b, k),
        (k as nat) < n,
    ensures
        pop_below(b, n) >= 1,
{
    lemma_pop_monotone(b, (k + 1) as nat, n);
}

/// Two set-bit positions that each have no set bit beneath them coincide.
pub proof fn lemma_lowest_unique(b: u64, k1: u8, k2: u8)
    requires
        bit_set(b, k1),
        bit_set(b, k2),
        pop_below(b, k1 as nat) == 0,
        pop_below(b, k2 as nat) == 0,
    ensures
        k1 == k2,
{
    if k1 < k2 {
        lemma_bit_counts(b, k1, k2 as nat);
    }
    if k2 < k1 {
        lemma_bit_counts(b, k2, k1 as nat);
    }
}

/// A one-bit board counts one piece below `n` exactly when `n` is past it.
pub proof fn lemma_pop_single_bit(sq: u8, n: nat)
    requires
        sq < 64,
        n <= 64,
    ensures
        pop_below(1u64 << sq, n) == if n > sq {
            1nat
        } else {
            0nat
        },
    decreases n,
{
    if n > 0 {
        lemma_pop_single_bit(sq, (n - 1) as nat);
        let k = (n - 1) as u8;
        if k == sq {
            assert((1u64 << sq) & (1u64 << sq) != 0) by (bit_vector)
                requires
                    sq < 64u8,
            ;
        } else {
            assert((1u64 << sq) & (1u64 << k) == 0) by (bit_vector)
                requires
                    sq < 64u8,
                    k < 64u8,
                    k != sq,
            ;
        }
    }
}

/// A board holding exactly one set bit has that bit's square as its single
/// square.
pub proof fn lemma_single_bit(sq: u8)
    requires
        sq < 64,
    ensures
        Bitboard(1u64 << sq).single_spec() == Some(Square(sq)),
{
    let b = 1u64 << sq;
    lemma_pop_single_bit(sq, 64);
    lemma_pop_single_bit(sq, sq as nat);
    assert((1u64 << sq) & (1u64 << sq) != 0) by (bit_vector)
        requires
            sq < 64u8,
    ;
    assert(bit_set(b, sq) && pop_below(b, sq as nat) == 0);
    let k = choose|k: u8| k < 64 && bit_set(b, k) && pop_below(b, k as nat) == 0;
    lemma_lowest_unique(b, sq, k);
}

/// A board counting exactly one piece below `n` holds exactly one set bit
/// there.
pub proof fn lemma_pop_one_bit(b: u64, n: nat)
    requires
        n <= 64,
        pop_below(b, n) == 1,
    ensures
        exists|k: u8| (k as nat) < n && (b & mask64(n)) == (1u64 << k),
    decreases n,
{
    let k = (n - 1) as u8;
    let k1 = (n as u64);
    if bit_set(b, k) {
        lemma_pop_mask(b, (n - 1) as nat);
        if n == 64 {
            assert(b & 0xFFFF_FFFF_FFFF_FFFFu64 == (1u64 << 63u64)) by (bit_vector)
                requires
                    b & (((1u64 << 63u64) - 1) as u64) == 0u64,
                    b & (1u64 << 63u64) != 0u64,
            ;
        } else {
            assert(b & (((1u64 << k1) - 1) as u64) == (1u64 << k)) by (bit_vector)
                requires
                    k < 63u64,
                    k1 == k + 1,
                    b & (((1u64 << k) - 1) as u64) == 0u64,
                    b & (1u64 << k) != 0u64,
            ;
        }
        assert((k as nat) < n && (b & mask64(n)) == (1u64 << k));
    } else {
        lemma_pop_one_bit(b, (n - 1) as nat);
        let w = choose|w: u8| (w as nat) < n - 1 && (b & mask64((n - 1) as nat)) == (1u64 << w);
        if n == 64 {
            assert(b & 0xFFFF_FFFF_FFFF_FFFFu64 == (1u64 << w)) by (bit_vector)
                requires
                    b & (((1u64 << 63u64) - 1) as u64) == (1u64 << w),
                    b & (1u64 << 63u64) == 0u64,
            ;
        } else {
            assert(b & (((1u64 << k1) - 1) as u64) == (1u64 << w)) by (bit_vector)
                requires
                    k < 63u64,
                    k1 == k + 1,
                    b & (((1u64 << k) - 1) as u64) == (1u64 << w),
                    b & (1u64 << k) == 0u64,
            ;
        }
        assert((w as nat) < n && (b & mask64(n)) == (1u64 << w));
    }
}

/// A board counting exactly one piece is a one-bit board.
pub proof fn lemma_count_one(b: u64)
    requires
        pop64(b) == 1,
    ensures
        exists|k: u8| k < 64 && b == (1u64 << k),
{
    lemma_pop_one_bit(b, 64);
    let k = choose|k: u8| (k as nat) < 64 && (b & mask64(64)) == (1u64 << k);
    assert(b & 0xFFFF_FFFF_FFFF_FFFFu64 == b) by (bit_vector);
    assert(k < 64 && b == (1u64 << k));
}

/// An empty board has no single square.
pub proof fn lemma_single_empty()
    ensures
        Bitboard(0u64).single_spec() == None::<Square>,
{
    lemma_pop_zero(0);
}

impl Bitboard {
    /// Whether the square's bit is set.
    pub open spec fn contains_spec(self, sq: Square) -> bool {
        bit_set(self.0, sq.0)
    }

    /// The lowest occupied square, if the board is not empty.
    pub open spec fn first_spec(self) -> Option<Square> {
        if pop64(self.0) == 0 {
            None
        } else {
            Some(
                Square(
                    choose|k: u8| k < 64 && bit_set(self.0, k) && pop_below(self.0, k as nat) == 0,
                ),
            )
        }
    }

    /// The only occupied square, if exactly one bit is set.
    pub open spec fn single_spec(self) -> Option<Square> {
        if pop64(self.0) == 1 {
            self.first_spec()
        } else {
            None
        }
    }

    /// Creates a new bitboard with the given value.
    pub fn new(value: u64) -> (r: Bitboard)
        ensures
            r.0 == value,
    {
        Bitboard(value)
    }

    /// Returns the underlying `u64` value.
    pub fn value(&self) -> (r: u64)
        ensures
            r == self.0,
    {
        self.0
    }

    /// Toggles the bit at the given square.
    pub fn toggle(&mut self, square: Square)
        requires
            square.wf(),
        ensures
            final(self).0 == old(self).0 ^ (1u64 << square.0),
    {
        self.0 = self.0 ^ (1u64 << square.0);
    }

    /// Set union of two bitboards.
    pub fn union(self, other: Bitboard) -> (r: Bitboard)
        ensures
            r.0 == self.0 | other.0,
    {
        Bitboard(self.0 | other.0)
    }

    /// Set intersection of two bitboards.
    pub fn intersect(self, other: Bitboard) -> (r: Bitboard)
        ensures
            r.0 == self.0 & other.0,
    {
        Bitboard(self.0 & other.0)
    }

    /// Set complement of a bitboard.
    pub fn complement(self) -> (r: Bitboard)
        ensures
            r.0 == !self.0,
    {
        Bitboard(!self.0)
    }

    /// Symmetric difference of two bitboards.
    pub fn symmetric_difference(self, other: Bitboard) -> (r: Bitboard)
        ensures
            r.0 == self.0 ^ other.0,
    {
        Bitboard(self.0 ^ other.0)
    }

    /// The squares of `self` that are not in `other`.
    pub fn minus(self, other: Bitboard) -> (r: Bitboard)
        ensures
            r.0 == self.0 & !other.0,
    {
        Bitboard(self.0 & !other.0)
    }

    /// Whether the given square holds a piece.
    pub fn contains(&self, square: Square) -> (r: bool)
        requires
            square.wf(),
        ensures
            r == self.contains_spec(square),
    {
        self.0 & (1u64 << square.0) != 0
    }

    /// Whether no square holds a piece.
    pub fn is_empty(&self) -> (r: bool)
        ensures
            r == (self.0 == 0),
    {
        self.0 == 0
    }

    /// Number of occupied squares.
    pub fn count(&self) -> (r: u32)
        ensures
            r == pop64(self.0),
    {
        let mut c: u32 = 0;
        let mut i: u8 = 0;
        while i < 64
            invariant
                i <= 64,
                c == pop_below(self.0, i as nat),
                c <= i,
            decreases 64 - i,
        {
            if self.0 & (1u64 << i) != 0 {
                c = c + 1;
            }
            i = i + 1;
        }
        c
    }

    /// The lowest occupied square, or `None` when the board is empty.
    pub fn first(&self) -> (r: Option<Square>)
        ensures
            r == self.first_spec(),
            r is Some ==> r->0.wf(),
    {
        let mut i: u8 = 0;
        while i < 64
            invariant
                i <= 64,
                pop_below(self.0, i as nat) == 0,
            decreases 64 - i,
        {
            if self.0 & (1u64 << i) != 0 {
                proof {
                    lemma_bit_counts(self.0, i, 64);
                    let k = choose|k: u8|
                        k < 64 && bit_set(self.0, k) && pop_below(self.0, k as nat) == 0;
                    lemma_lowest_unique(self.0, i, k);
                }
                return Some(Square(i));
            }
            i = i + 1;
        }
        proof {
            lemma_pop_zero(self.0);
        }
        None
    }

    /// The only occupied square, or `None` unless exactly one bit is set.
    pub fn single(&self) -> (r: Option<Square>)
        ensures
            r == self.single_spec(),
            r is Some ==> r->0.wf(),
    {
        if self.count() == 1 {
            self.first()
        } else {
            None
        }
    }
}

/// The disjoint pair of per-color occupancy bitboards a sensor poll reports.
#[derive(Debug, Clone, Copy, PartialEq, Eq, Structural)]
pub struct ColorOccupancy {
    pub white: Bitboard,
    pub black: Bitboard,
}

impl ColorOccupancy {
    /// No square may hold a piece of both colors.
    pub open spec fn wf(self) -> bool {
        self.white.0 & self.black.0 == 0
    }

    /// All occupied squares, of either color.
    pub open spec fn combined_spec(self) -> u64 {
        self.white.0 | self.black.0
    }

    /// Pairs two per-color bitboards, or `None` when they overlap.
    pub fn new(white: Bitboard, black: Bitboard) -> (r: Option<ColorOccupancy>)
        ensures
            r == if white.0 & black.0 == 0 {
                Some(ColorOccupancy { white, black })
            } else {
                None::<ColorOccupancy>
            },
            r is Some ==> r->0.wf(),
    {
        if white.0 & black.0 == 0 {
            Some(ColorOccupancy { white, black })
        } else {
            None
        }
    }

    /// The white-piece bitboard.
    pub fn white_board(&self) -> (r: Bitboard)
        ensures
            r == self.white,
    {
        self.white
    }

    /// The black-piece bitboard.
    pub fn black_board(&self) -> (r: Bitboard)
        ensures
            r == self.black,
    {
        self.black
    }

    /// The combined occupancy of both colors.
    pub fn combined(&self) -> (r: Bitboard)
        ensures
            r.0 == self.combined_spec(),
    {
        Bitboard(self.white.0 | self.black.0)
    }
}

} // verus!
