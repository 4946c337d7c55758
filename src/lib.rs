//! A verified chess rule engine: move geometry for each kind of piece, threat
//! detection and self-check testing by simulate-probe-restore, the exhaustive
//! search for a legal move that tells checkmate and stalemate apart, and the
//! bookkeeping of an accepted move (captures, castling, castling rights, en
//! passant, deferred promotion).
//!
//! `model` holds the mathematical board (`BoardView`) and the rules as spec
//! functions; the executable code in the other modules is proved against it.

pub mod board;
pub mod chesspiece;
pub mod geometry;
pub mod input;
pub mod laws;
pub mod model;
pub mod oracle;
