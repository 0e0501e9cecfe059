//! Control core of a sensor chessboard. Hall-effect sensors under the 64
//! squares report which squares hold a piece of each color; this library
//! reconciles that stream of occupancy snapshots with the legal moves of a
//! chess position, commits at most one move per snapshot, and computes the
//! per-square light feedback that guides the player.
//!
//! - [`square`] and [`bitboard`] hold the plain board values: squares,
//!   64-bit square sets, and the disjoint per-color occupancy pair.
//! - [`moves`] models moves and pieces as plain values.
//! - [`position`] is the boundary to the chess rules library that owns the
//!   position itself.
//! - [`engine`] matches snapshots against legal moves and keeps the
//!   committed position.
//! - [`feedback`] turns a game state into the per-square feedback map.
//! - [`script`] is the development harness: a small script language that
//!   drives a mock sensor.
//! - [`display`] renders feedback as text; [`hardware`] holds the
//!   light-and-sensor interfaces a board implementation provides.

pub mod square;
pub mod bitboard;
pub mod moves;
pub mod position;
pub mod engine;
pub mod feedback;
pub mod script;
pub mod display;
pub mod hardware;
