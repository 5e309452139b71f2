//! Opening-book support for chess programs: a reader for books in the
//! Polyglot binary format, and the position fingerprint by which such books
//! are keyed.
//!
//! * [`book`] loads a book into a table sorted by key and looks positions up.
//! * [`moves`] decodes the packed 16-bit moves that book records hold.
//! * [`zobrist`] computes the fingerprint of a position from a key table.
//! * [`board`] is the view of a position that fingerprinting consumes.
//! * [`cozy`] connects both to the `cozy_chess` board library.

pub mod board;
pub mod book;
pub mod cozy;
pub mod moves;
pub mod zobrist;

pub use board::{BoardView, CastleSide, Color, ColoredPiece, File, PieceKind, SideView};
pub use book::{Entry, LoadError, Polyglot};
pub use moves::{DecodeError, DecodedMove, Promotion};
pub use zobrist::Zobrist;
