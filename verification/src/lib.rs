//! Board-state encoding and position-hashing core of a chess engine:
//! 64-bit piece-occupancy sets, packed move encoding, and Zobrist
//! position fingerprints.

pub mod bitboard;
pub mod gamemove;
pub mod hashkeys;
pub mod pieces;
pub mod squares;
