//! Board squares, numbered 0..64 with a1 = 0, h1 = 7, a8 = 56, h8 = 63.

use vstd::prelude::*;

verus! {

/// A single square of the board, holding its index 0..64.
#[derive(Debug, Clone, Copy, PartialEq, Eq, Hash, Structural)]
pub struct Square(pub u8);

/// Error returned when creating a `Square` from an index outside 0..64.
#[derive(Debug, Clone, Copy, PartialEq, Eq, Structural)]
pub struct SquareIndexError(pub u8);

/// Error returned when parsing algebraic notation such as `"e4"`.
#[derive(Debug, Clone, Copy, PartialEq, Eq, Structural)]
pub enum SquareParseError {
    /// Square notation must be exactly 2 characters.
    WrongLength,
    /// File must be a letter from a-h.
    BadFile,
    /// Rank must be a digit from 1-8.
    BadRank,
}

impl Square {
    /// A square index is meaningful only below 64.
    pub open spec fn wf(self) -> bool {
        self.0 < 64
    }

    /// Creates a `Square` from an index, or `None` when the index is out of range.
    pub fn new(value: u8) -> (r: Option<Square>)
        ensures
            r == if value < 64 { Some(Square(value)) } else { None::<Square> },
            r is Some ==> r->0.wf(),
    {
        if value < 64 {
            Some(Square(value))
        } else {
            None
        }
    }

    /// Returns the index value given to `new`.
    pub fn value(self) -> (r: u8)
        ensures
            r == self.0,
    {
        self.0
    }

    /// Creates a `Square` from an index, reporting the offending index on failure.
    pub fn from_index(idx: u8) -> (r: Result<Square, SquareIndexError>)
        ensures
            r == if idx < 64 {
                Ok::<Square, SquareIndexError>(Square(idx))
            } else {
                Err::<Square, SquareIndexError>(SquareIndexError(idx))
            },
            r is Ok ==> r->Ok_0.wf(),
    {
        if idx < 64 {
            Ok(Square(idx))
        } else {
            Err(SquareIndexError(idx))
        }
    }

    /// Returns the internal index value.
    pub fn index(&self) -> (r: u8)
        ensures
            r == self.0,
    {
        self.0
    }

    /// The file letter of this square, `'a'` through `'h'`.
    pub open spec fn file_spec(self) -> char {
        ((('a' as u8) + (self.0 % 8)) as char)
    }

    /// The rank number of this square, 1 through 8.
    pub open spec fn rank_spec(self) -> u8 {
        ((self.0 / 8) + 1) as u8
    }

    /// Returns the file (`'a'`-`'h'`) of this square.
    pub fn file(&self) -> (r: char)
        ensures
            r == self.file_spec(),
    {
        (('a' as u8) + (self.0 % 8)) as char
    }

    /// Returns the rank (1-8) of this square.
    pub fn rank(&self) -> (r: u8)
        ensures
            r == self.rank_spec(),
    {
        (self.0 / 8) + 1
    }
}

/// Lowercases an ASCII letter; any other character passes through unchanged.
pub open spec fn lower_char(c: char) -> char {
    if 'A' <= c && c <= 'Z' {
        (((c as u8) + 32) as char)
    } else {
        c
    }
}

/// What parsing a piece of algebraic notation yields: the file letter
/// (case-insensitive) then the rank digit, each checked in turn.
pub open spec fn parse_square_spec(s: Seq<char>) -> Result<Square, SquareParseError> {
    if s.len() != 2 {
        Err(SquareParseError::WrongLength)
    } else {
        let f = lower_char(s[0]);
        let d = s[1];
        if !('0' <= d && d <= '9') {
            Err(SquareParseError::BadRank)
        } else if !('a' <= f && f <= 'h') {
            Err(SquareParseError::BadFile)
        } else if !('1' <= d && d <= '8') {
            Err(SquareParseError::BadRank)
        } else {
            Ok(Square((((d as u8) - ('1' as u8)) * 8 + ((f as u8) - ('a' as u8))) as u8))
        }
    }
}

impl Square {
    /// Parses algebraic notation like `"e4"` into a `Square`.
    pub fn parse(s: &str) -> (r: Result<Square, SquareParseError>)
        ensures
            r == parse_square_spec(s@),
            r is Ok ==> r->Ok_0.wf(),
    {
        if s.unicode_len() != 2 {
            return Err(SquareParseError::WrongLength);
        }
        let c0 = s.get_char(0);
        let c1 = s.get_char(1);
        let f = if 'A' <= c0 && c0 <= 'Z' {
            (((c0 as u8) + 32) as char)
        } else {
            c0
        };
        if !('0' <= c1 && c1 <= '9') {
            return Err(SquareParseError::BadRank);
        }
        if !('a' <= f && f <= 'h') {
            return Err(SquareParseError::BadFile);
        }
        if !('1' <= c1 && c1 <= '8') {
            return Err(SquareParseError::BadRank);
        }
        let rank_idx = (c1 as u8) - ('1' as u8);
        let file_idx = (f as u8) - ('a' as u8);
        Ok(Square(rank_idx * 8 + file_idx))
    }
}

impl Square {
    /// The square's algebraic notation: its file letter then its rank digit.
    pub open spec fn to_text_spec(self) -> Seq<char> {
        seq![self.file_spec(), ((('1' as u8) + (self.0 / 8)) as char)]
    }

    /// Writes the square in algebraic notation, e.g. `"e4"`.
    pub fn to_text(&self) -> (r: String)
        requires
            self.wf(),
        ensures
            r@ == self.to_text_spec(),
    {
        let file_text = match self.0 % 8 {
            0 => "a",
            1 => "b",
            2 => "c",
            3 => "d",
            4 => "e",
            5 => "f",
            6 => "g",
            _ => "h",
        };
        let rank_text = match self.0 / 8 {
            0 => "1",
            1 => "2",
            2 => "3",
            3 => "4",
            4 => "5",
            5 => "6",
            6 => "7",
            _ => "8",
        };
        proof {
            reveal_strlit("a");
            reveal_strlit("b");
            reveal_strlit("c");
            reveal_strlit("d");
            reveal_strlit("e");
            reveal_strlit("f");
            reveal_strlit("g");
            reveal_strlit("h");
            reveal_strlit("1");
            reveal_strlit("2");
            reveal_strlit("3");
            reveal_strlit("4");
            reveal_strlit("5");
            reveal_strlit("6");
            reveal_strlit("7");
            reveal_strlit("8");
            assert(file_text@ + rank_text@ =~= self.to_text_spec());
        }
        String::from_str(file_text).concat(rank_text)
    }
}

/// Writing a square in algebraic notation and parsing the text back
/// yields the same square.
pub proof fn lemma_square_text_roundtrip(sq: Square)
    requires
        sq.wf(),
    ensures
        parse_square_spec(sq.to_text_spec()) == Ok::<Square, SquareParseError>(sq),
{
}

impl core::str::FromStr for Square {
    type Err = SquareParseError;

    fn from_str(s: &str) -> Result<Square, SquareParseError> {
        Square::parse(s)
    }
}

} // verus!
