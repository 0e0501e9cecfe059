//! The development-harness script language and the scripted mock sensor.
//!
//! A script is a stream of tokens: a bare square (`e2`) toggles that
//! square, a prefixed square (`We4`, `Be5`) names the color used when the
//! square is empty, whitespace separates tokens, and `.` emits the current
//! occupancy to the engine as one tick.

use vstd::prelude::*;
use crate::bitboard::{Bitboard, ColorOccupancy};
use crate::moves::Color;
use crate::square::{Square, parse_square_spec};

verus! {

/// Error in a board script or in the occupancy handed to the sensor.
#[derive(Debug, Clone, PartialEq, Eq)]
pub enum ParseError {
    /// A token is not a square in algebraic notation.
    InvalidSquare(String),
    /// A placement on an empty square named no color where one was needed.
    MissingColor(String),
    /// The white and black occupancy bitboards overlap.
    OverlappingSquares,
}

/// One parsed script token: the square to toggle and the color to use
/// when placing on an empty square (`None` places white, the legacy form).
#[derive(Debug, Clone, Copy, PartialEq, Eq, Structural)]
pub struct ScriptToken {
    pub color: Option<Color>,
    pub square: Square,
}

/// Whitespace that separates script tokens.
pub open spec fn is_whitespace_char(c: char) -> bool {
    c == ' ' || c == '\t' || c == '\n' || c == '\r'
}

/// The two color prefixes of a three-character token.
pub open spec fn is_prefix_char(c: char) -> bool {
    c == 'W' || c == 'B'
}

/// A token is complete after two characters, or three when it starts with
/// a color prefix.
pub open spec fn token_complete(cur: Seq<char>) -> bool {
    (cur.len() == 2 && !is_prefix_char(cur[0])) || cur.len() == 3
}

/// What a gathered token yields: nothing when empty, a colored square for
/// the three-character form, a bare square otherwise; the token's own text
/// on failure.
pub open spec fn flush_spec(cur: Seq<char>) -> Result<Option<ScriptToken>, Seq<char>> {
    if cur.len() == 0 {
        Ok(None)
    } else if cur.len() == 3 && is_prefix_char(cur[0]) {
        match parse_square_spec(cur.subrange(1, 3)) {
            Ok(sq) => Ok(
                Some(
                    ScriptToken {
                        color: Some(
                            if cur[0] == 'W' {
                                Color::White
                            } else {
                                Color::Black
                            },
                        ),
                        square: sq,
                    },
                ),
            ),
            Err(_) => Err(cur),
        }
    } else {
        match parse_square_spec(cur) {
            Ok(sq) => Ok(Some(ScriptToken { color: None, square: sq })),
            Err(_) => Err(cur),
        }
    }
}

/// Appends a flushed token to a batch, if the flush yielded one.
pub open spec fn push_opt(batch: Seq<ScriptToken>, t: Option<ScriptToken>) -> Seq<ScriptToken> {
    match t {
        Some(x) => batch.push(x),
        None => batch,
    }
}

/// Closes a batch at a tick marker; empty batches emit no tick.
pub open spec fn close_batch(done: Seq<Seq<ScriptToken>>, batch: Seq<ScriptToken>) -> Seq<
    Seq<ScriptToken>,
> {
    if batch.len() > 0 {
        done.push(batch)
    } else {
        done
    }
}

/// The parser, one character at a time: `cur` is the token gathered so
/// far, `batch` the tokens of the batch being filled, `done` the closed
/// batches.
pub open spec fn parse_from(
    s: Seq<char>,
    i: int,
    cur: Seq<char>,
    batch: Seq<ScriptToken>,
    done: Seq<Seq<ScriptToken>>,
) -> Result<Seq<Seq<ScriptToken>>, Seq<char>>
    decreases s.len() - i,
{
    if i < 0 || i >= s.len() {
        match flush_spec(cur) {
            Err(t) => Err(t),
            Ok(opt) => Ok(close_batch(done, push_opt(batch, opt))),
        }
    } else {
        let c = s[i];
        if c == '.' {
            match flush_spec(cur) {
                Err(t) => Err(t),
                Ok(opt) => parse_from(
                    s,
                    i + 1,
                    Seq::empty(),
                    Seq::empty(),
                    close_batch(done, push_opt(batch, opt)),
                ),
            }
        } else if is_whitespace_char(c) {
            match flush_spec(cur) {
                Err(t) => Err(t),
                Ok(opt) => parse_from(s, i + 1, Seq::empty(), push_opt(batch, opt), done),
            }
        } else {
            let cur2 = cur.push(c);
            if token_complete(cur2) {
                match flush_spec(cur2) {
                    Err(t) => Err(t),
                    Ok(opt) => parse_from(s, i + 1, Seq::empty(), push_opt(batch, opt), done),
                }
            } else {
                parse_from(s, i + 1, cur2, batch, done)
            }
        }
    }
}

/// What parsing a whole script yields: its batches of toggles, or the
/// text of the first bad token.
pub open spec fn parse_script_spec(s: Seq<char>) -> Result<Seq<Seq<ScriptToken>>, Seq<char>> {
    parse_from(s, 0, Seq::empty(), Seq::empty(), Seq::empty())
}

/// Every square of a batch is a real square.
pub open spec fn wf_batch(b: Seq<ScriptToken>) -> bool {
    forall|j: int| 0 <= j < b.len() ==> (#[trigger] b[j]).square.wf()
}

/// Every square of every batch is a real square.
pub open spec fn wf_batches(bs: Seq<Seq<ScriptToken>>) -> bool {
    forall|i: int| 0 <= i < bs.len() ==> wf_batch(#[trigger] bs[i])
}

/// The batches a vector of batch vectors holds.
pub open spec fn batches_view(v: Vec<Vec<ScriptToken>>) -> Seq<Seq<ScriptToken>> {
    Seq::new(v@.len(), |i: int| v@[i]@)
}

/// Gathers the token `s[start..end]` into `batch`, or reports it as the
/// bad token. An empty range gathers nothing.
fn flush_token(s: &str, start: usize, end: usize, batch: &mut Vec<ScriptToken>) -> (r: Result<
    (),
    ParseError,
>)
    requires
        start <= end <= s@.len(),
        wf_batch(old(batch)@),
    ensures
        match r {
            Ok(_) => flush_spec(s@.subrange(start as int, end as int)) matches Ok(opt)
                && final(batch)@ == push_opt(old(batch)@, opt),
            Err(e) => flush_spec(s@.subrange(start as int, end as int)) matches Err(t) && e matches
                ParseError::InvalidSquare(txt) && txt@ == t && final(batch)@ == old(batch)@,
        },
        wf_batch(final(batch)@),
{
    let ghost cur = s@.subrange(start as int, end as int);
    if end == start {
        return Ok(());
    }
    let first = s.get_char(start);
    if end - start == 3 && (first == 'W' || first == 'B') {
        let body = s.substring_char(start + 1, end);
        assert(body@ == cur.subrange(1, 3));
        match Square::parse(body) {
            Ok(sq) => {
                let color = if first == 'W' {
                    Color::White
                } else {
                    Color::Black
                };
                batch.push(ScriptToken { color: Some(color), square: sq });
                Ok(())
            },
            Err(_) => Err(ParseError::InvalidSquare(s.substring_char(start, end).to_owned())),
        }
    } else {
        let body = s.substring_char(start, end);
        match Square::parse(body) {
            Ok(sq) => {
                batch.push(ScriptToken { color: None, square: sq });
                Ok(())
            },
            Err(_) => Err(ParseError::InvalidSquare(body.to_owned())),
        }
    }
}

/// Parses a script into batches of toggles, exactly as `parse_script_spec`
/// describes it.
pub fn parse_script(s: &str) -> (r: Result<Vec<Vec<ScriptToken>>, ParseError>)
    ensures
        match r {
            Ok(v) => parse_script_spec(s@) == Ok::<_, Seq<char>>(batches_view(v)) && wf_batches(
                batches_view(v),
            ),
            Err(e) => parse_script_spec(s@) matches Err(t) && e matches ParseError::InvalidSquare(
                txt,
            ) && txt@ == t,
        },
{
    let n = s.unicode_len();
    let mut done: Vec<Vec<ScriptToken>> = Vec::new();
    let mut batch: Vec<ScriptToken> = Vec::new();
    let mut start: usize = 0;
    let mut i: usize = 0;
    proof {
        assert(s@.subrange(0, 0) =~= Seq::<char>::empty());
        assert(batch@ =~= Seq::<ScriptToken>::empty());
        assert(batches_view(done) =~= Seq::<Seq<ScriptToken>>::empty());
    }
    while i < n
        invariant
            s@.len() == n,
            start <= i <= n,
            wf_batch(batch@),
            wf_batches(batches_view(done)),
            parse_from(s@, i as int, s@.subrange(start as int, i as int), batch@, batches_view(done))
                == parse_script_spec(s@),
        decreases n - i,
    {
        let ghost cur = s@.subrange(start as int, i as int);
        let c = s.get_char(i);
        if c == '.' {
            match flush_token(s, start, i, &mut batch) {
                Ok(_) => {},
                Err(e) => {
                    return Err(e);
                },
            }
            if batch.len() > 0 {
                let full = batch;
                let ghost dv = batches_view(done);
                done.push(full);
                proof {
                    assert(batches_view(done) =~= dv.push(full@));
                }
                batch = Vec::new();
            }
            start = i + 1;
            proof {
                assert(s@.subrange(start as int, start as int) =~= Seq::<char>::empty());
                assert(batch@ =~= Seq::<ScriptToken>::empty());
            }
        } else if c == ' ' || c == '\t' || c == '\n' || c == '\r' {
            match flush_token(s, start, i, &mut batch) {
                Ok(_) => {},
                Err(e) => {
                    return Err(e);
                },
            }
            start = i + 1;
            proof {
                assert(s@.subrange(start as int, start as int) =~= Seq::<char>::empty());
            }
        } else {
            let len = i + 1 - start;
            let first = s.get_char(start);
            proof {
                assert(s@.subrange(start as int, i + 1) =~= cur.push(s@[i as int]));
            }
            if (len == 2 && !(first == 'W' || first == 'B')) || len == 3 {
                match flush_token(s, start, i + 1, &mut batch) {
                    Ok(_) => {},
                    Err(e) => {
                        return Err(e);
                    },
                }
                start = i + 1;
                proof {
                    assert(s@.subrange(start as int, start as int) =~= Seq::<char>::empty());
                }
            }
        }
        i = i + 1;
    }
    match flush_token(s, start, n, &mut batch) {
        Ok(_) => {},
        Err(e) => {
            return Err(e);
        },
    }
    if batch.len() > 0 {
        let full = batch;
        let ghost dv = batches_view(done);
        done.push(full);
        proof {
            assert(batches_view(done) =~= dv.push(full@));
        }
    }
    Ok(done)
}

/// The occupancy pair after one toggle: an occupied square is vacated
/// whatever the prefix says; an empty square gains a piece of the named
/// color, or a white one in the bare legacy form.
pub open spec fn apply_token(w: u64, b: u64, t: ScriptToken) -> (u64, u64) {
    let m = 1u64 << t.square.0;
    if w & m != 0 {
        ((w & !m) as u64, b)
    } else if b & m != 0 {
        (w, (b & !m) as u64)
    } else {
        match t.color {
            Some(Color::Black) => (w, (b | m) as u64),
            _ => ((w | m) as u64, b),
        }
    }
}

/// The occupancy pair after the first `n` toggles of a batch.
pub open spec fn apply_batch(w: u64, b: u64, ts: Seq<ScriptToken>, n: int) -> (u64, u64)
    decreases n,
{
    if n <= 0 {
        (w, b)
    } else {
        let p = apply_batch(w, b, ts, n - 1);
        apply_token(p.0, p.1, ts[n - 1])
    }
}

/// The occupancy after each batch of a script, in order.
pub open spec fn occupancies_spec(w: u64, b: u64, bs: Seq<Seq<ScriptToken>>) -> Seq<ColorOccupancy>
    decreases bs.len(),
{
    if bs.len() == 0 {
        Seq::empty()
    } else {
        let p = apply_batch(w, b, bs[0], bs[0].len() as int);
        Seq::empty().push(
            ColorOccupancy { white: Bitboard(p.0), black: Bitboard(p.1) },
        ) + occupancies_spec(p.0, p.1, bs.drop_first())
    }
}

/// A scriptable mock sensor: it holds the per-color occupancy pair and the
/// batches of toggles still to be executed.
#[derive(Debug, Clone)]
pub struct ScriptedSensor {
    white: Bitboard,
    black: Bitboard,
    pending: Vec<Vec<ScriptToken>>,
}

impl ScriptedSensor {
    /// The white-piece occupancy bitboard.
    pub closed spec fn white_spec(self) -> u64 {
        self.white.0
    }

    /// The black-piece occupancy bitboard.
    pub closed spec fn black_spec(self) -> u64 {
        self.black.0
    }

    /// The queued batches, front first.
    pub closed spec fn pending_spec(self) -> Seq<Seq<ScriptToken>> {
        batches_view(self.pending)
    }

    /// The two colors never overlap and every queued square is real.
    pub open spec fn wf(self) -> bool {
        self.white_spec() & self.black_spec() == 0 && wf_batches(self.pending_spec())
    }

    /// Creates a sensor holding the occupancy of the standard starting
    /// position: white on ranks 1 and 2, black on ranks 7 and 8.
    pub fn new() -> (r: ScriptedSensor)
        ensures
            r.wf(),
            r.white_spec() == 0xFFFFu64,
            r.black_spec() == 0xFFFF_0000_0000_0000u64,
            r.pending_spec() == Seq::<Seq<ScriptToken>>::empty(),
    {
        let r = ScriptedSensor {
            white: Bitboard(0xFFFF),
            black: Bitboard(0xFFFF_0000_0000_0000),
            pending: Vec::new(),
        };
        proof {
            assert(r.pending_spec() =~= Seq::<Seq<ScriptToken>>::empty());
            assert(0xFFFFu64 & 0xFFFF_0000_0000_0000u64 == 0) by (bit_vector);
        }
        r
    }

    /// Creates a sensor from a combined occupancy; with no color
    /// information every piece counts as white, which the engine never
    /// reads.
    pub fn from_bitboard(bitboard: Bitboard) -> (r: ScriptedSensor)
        ensures
            r.wf(),
            r.white_spec() == bitboard.0,
            r.black_spec() == 0,
            r.pending_spec() == Seq::<Seq<ScriptToken>>::empty(),
    {
        let r = ScriptedSensor { white: bitboard, black: Bitboard(0), pending: Vec::new() };
        proof {
            assert(r.pending_spec() =~= Seq::<Seq<ScriptToken>>::empty());
            assert(bitboard.0 & 0u64 == 0) by (bit_vector);
        }
        r
    }

    /// Creates a sensor from a per-color occupancy pair, rejecting
    /// overlapping bitboards.
    pub fn from_bitboards(white: Bitboard, black: Bitboard) -> (r: Result<ScriptedSensor, ParseError>)
        ensures
            match r {
                Ok(sensor) => white.0 & black.0 == 0 && sensor.wf() && sensor.white_spec()
                    == white.0 && sensor.black_spec() == black.0 && sensor.pending_spec() == Seq::<
                    Seq<ScriptToken>,
                >::empty(),
                Err(e) => white.0 & black.0 != 0 && e == ParseError::OverlappingSquares,
            },
    {
        if white.0 & black.0 != 0 {
            return Err(ParseError::OverlappingSquares);
        }
        let r = ScriptedSensor { white, black, pending: Vec::new() };
        proof {
            assert(r.pending_spec() =~= Seq::<Seq<ScriptToken>>::empty());
        }
        Ok(r)
    }

    /// The current sensor reading.
    pub fn read_positions(&self) -> (r: ColorOccupancy)
        requires
            self.wf(),
        ensures
            r.white.0 == self.white_spec(),
            r.black.0 == self.black_spec(),
            r.wf(),
    {
        ColorOccupancy { white: self.white, black: self.black }
    }

    /// Loads a combined occupancy directly (for loading a position),
    /// dropping any queued batches.
    pub fn load_bitboard(&mut self, bitboard: Bitboard)
        ensures
            final(self).wf(),
            final(self).white_spec() == bitboard.0,
            final(self).black_spec() == 0,
            final(self).pending_spec() == Seq::<Seq<ScriptToken>>::empty(),
    {
        self.white = bitboard;
        self.black = Bitboard(0);
        self.pending = Vec::new();
        proof {
            assert(final(self).pending_spec() =~= Seq::<Seq<ScriptToken>>::empty());
            assert(bitboard.0 & 0u64 == 0) by (bit_vector);
        }
    }

    /// Parses a script and queues its batches; a parse error leaves the
    /// sensor unchanged.
    pub fn push_script(&mut self, script: &str) -> (r: Result<(), ParseError>)
        requires
            old(self).wf(),
        ensures
            final(self).wf(),
            final(self).white_spec() == old(self).white_spec(),
            final(self).black_spec() == old(self).black_spec(),
            match r {
                Ok(_) => parse_script_spec(script@) matches Ok(bs) && final(self).pending_spec()
                    == old(self).pending_spec() + bs,
                Err(e) => parse_script_spec(script@) matches Err(t) && e matches
                    ParseError::InvalidSquare(txt) && txt@ == t
                    && final(self).pending_spec() == old(self).pending_spec(),
            },
    {
        let batches = match parse_script(script) {
            Ok(batches) => batches,
            Err(e) => {
                return Err(e);
            },
        };
        let ghost parsed = batches_view(batches);
        let mut k: usize = 0;
        while k < batches.len()
            invariant
                k <= batches@.len(),
                batches_view(batches) == parsed,
                wf_batches(parsed),
                self.white == old(self).white,
                self.black == old(self).black,
                self.pending_spec() == old(self).pending_spec() + parsed.take(k as int),
                wf_batches(self.pending_spec()),
            decreases batches@.len() - k,
        {
            let b = batches[k].clone();
            proof {
                assert(b@ == parsed[k as int]);
                assert((old(self).pending_spec() + parsed.take(k as int)).push(b@) =~= (old(
                    self,
                ).pending_spec() + parsed.take((k + 1) as int)));
            }
            let ghost pv = batches_view(self.pending);
            self.pending.push(b);
            proof {
                assert(batches_view(self.pending) =~= pv.push(b@));
            }
            k = k + 1;
        }
        proof {
            assert(parsed.take(parsed.len() as int) =~= parsed);
        }
        Ok(())
    }

    /// Executes the next pending batch and returns the new occupancy, or
    /// `None` when no batch is queued.
    pub fn tick(&mut self) -> (r: Option<ColorOccupancy>)
        requires
            old(self).wf(),
        ensures
            final(self).wf(),
            old(self).pending_spec().len() == 0 ==> {
                &&& r is None
                &&& final(self).white_spec() == old(self).white_spec()
                &&& final(self).black_spec() == old(self).black_spec()
                &&& final(self).pending_spec() == old(self).pending_spec()
            },
            old(self).pending_spec().len() > 0 ==> {
                let p = apply_batch(
                    old(self).white_spec(),
                    old(self).black_spec(),
                    old(self).pending_spec()[0],
                    old(self).pending_spec()[0].len() as int,
                );
                &&& final(self).white_spec() == p.0
                &&& final(self).black_spec() == p.1
                &&& final(self).pending_spec() == old(self).pending_spec().drop_first()
                &&& r == Some(ColorOccupancy { white: Bitboard(p.0), black: Bitboard(p.1) })
                &&& (r matches Some(o) && o.wf())
            },
    {
        if self.pending.len() == 0 {
            return None;
        }
        let batch = self.pending.remove(0);
        proof {
            assert(batches_view(self.pending) =~= old(self).pending_spec().drop_first());
            assert(batch@ == old(self).pending_spec()[0]);
        }
        let ghost w0 = self.white.0;
        let ghost b0 = self.black.0;
        let mut k: usize = 0;
        while k < batch.len()
            invariant
                k <= batch@.len(),
                wf_batch(batch@),
                old(self).pending_spec().len() > 0,
                (self.white.0, self.black.0) == apply_batch(w0, b0, batch@, k as int),
                self.white.0 & self.black.0 == 0,
                batches_view(self.pending) == old(self).pending_spec().drop_first(),
            decreases batch@.len() - k,
        {
            let t = batch[k];
            let m: u64 = 1u64 << t.square.0;
            let ghost (wb, bb) = (self.white.0, self.black.0);
            if self.white.0 & m != 0 {
                self.white = Bitboard(self.white.0 & !m);
                proof {
                    assert((wb & !m) & bb == 0) by (bit_vector)
                        requires
                            wb & bb == 0u64,
                    ;
                }
            } else if self.black.0 & m != 0 {
                self.black = Bitboard(self.black.0 & !m);
                proof {
                    assert(wb & (bb & !m) == 0) by (bit_vector)
                        requires
                            wb & bb == 0u64,
                    ;
                }
            } else {
                let place_black = matches!(t.color, Some(Color::Black));
                if place_black {
                    self.black = Bitboard(self.black.0 | m);
                    proof {
                        assert(wb & (bb | m) == 0) by (bit_vector)
                            requires
                                wb & bb == 0u64,
                                wb & m == 0u64,
                        ;
                    }
                } else {
                    self.white = Bitboard(self.white.0 | m);
                    proof {
                        assert((wb | m) & bb == 0) by (bit_vector)
                            requires
                                wb & bb == 0u64,
                                bb & m == 0u64,
                        ;
                    }
                }
            }
            k = k + 1;
        }
        proof {
            let dropped = old(self).pending_spec().drop_first();
            assert forall|i: int| 0 <= i < dropped.len() implies wf_batch(#[trigger] dropped[i]) by {
                assert(wf_batch(old(self).pending_spec()[i + 1]));
            }
        }
        Some(ColorOccupancy { white: self.white, black: self.black })
    }

    /// Executes every pending batch, returning the occupancy after each
    /// tick in order.
    pub fn drain(&mut self) -> (r: Vec<ColorOccupancy>)
        requires
            old(self).wf(),
        ensures
            final(self).wf(),
            final(self).pending_spec().len() == 0,
            final(self).pending_spec() == Seq::<Seq<ScriptToken>>::empty(),
            r@ == occupancies_spec(
                old(self).white_spec(),
                old(self).black_spec(),
                old(self).pending_spec(),
            ),
    {
        let mut out: Vec<ColorOccupancy> = Vec::new();
        loop
            invariant
                self.wf(),
                occupancies_spec(old(self).white_spec(), old(self).black_spec(), old(self).pending_spec())
                    == out@ + occupancies_spec(
                    self.white_spec(),
                    self.black_spec(),
                    self.pending_spec(),
                ),
            ensures
                self.wf(),
                self.pending_spec().len() == 0,
                out@ == occupancies_spec(
                    old(self).white_spec(),
                    old(self).black_spec(),
                    old(self).pending_spec(),
                ),
            decreases self.pending_spec().len(),
        {
            let ghost before = *self;
            match self.tick() {
                Some(occ) => {
                    proof {
                        assert(occupancies_spec(
                            before.white_spec(),
                            before.black_spec(),
                            before.pending_spec(),
                        ) =~= Seq::empty().push(occ) + occupancies_spec(
                            self.white_spec(),
                            self.black_spec(),
                            self.pending_spec(),
                        ));
                        assert((out@ + (Seq::empty().push(occ) + occupancies_spec(
                            self.white_spec(),
                            self.black_spec(),
                            self.pending_spec(),
                        ))) =~= (out@.push(occ) + occupancies_spec(
                            self.white_spec(),
                            self.black_spec(),
                            self.pending_spec(),
                        )));
                    }
                    out.push(occ);
                },
                None => {
                    proof {
                        assert(out@ + occupancies_spec(
                            self.white_spec(),
                            self.black_spec(),
                            self.pending_spec(),
                        ) =~= out@);
                    }
                    break ;
                },
            }
        }
        out
    }
}

} // verus!
