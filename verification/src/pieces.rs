//! Piece-type codes: the empty code, the twelve real pieces, white
//! before black, pawn to king within each colour.

use vstd::prelude::*;

verus! {

/// The "no piece" code: an empty square.
pub const EMPTY: u8 = 0;

/// White pawn, the lowest real piece code.
pub const WP: u8 = 1;

/// White knight.
pub const WN: u8 = 2;

/// White bishop.
pub const WB: u8 = 3;

/// White rook.
pub const WR: u8 = 4;

/// White queen.
pub const WQ: u8 = 5;

/// White king.
pub const WK: u8 = 6;

/// Black pawn.
pub const BP: u8 = 7;

/// Black knight.
pub const BN: u8 = 8;

/// Black bishop.
pub const BB: u8 = 9;

/// Black rook.
pub const BR: u8 = 10;

/// Black queen.
pub const BQ: u8 = 11;

/// Black king, the highest real piece code.
pub const BK: u8 = 12;

/// True for the code of one of the twelve real pieces.
pub open spec fn is_real_piece(p: u8) -> bool {
    WP <= p <= BK
}

} // verus!
