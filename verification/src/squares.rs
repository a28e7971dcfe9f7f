//! The 120-index square scheme: a 10x12 padded board whose playable
//! squares run from 21 (A1) to 98 (H8), with sentinels for "no square"
//! and for the off-board padding, and the mapping from a playable
//! square to its file and rank.

use vstd::prelude::*;

verus! {

/// The "no square" sentinel of the 120-index scheme.
pub const NO_SQ: u8 = 99;

/// The off-board sentinel: what the file and rank lookups return for a
/// square of the padding.
pub const OFFBOARD: u8 = 100;

/// True when `sq` is one of the 64 playable squares of the 120-index
/// scheme.
pub open spec fn on_board(sq: int) -> bool {
    21 <= sq <= 98 && 1 <= sq % 10 <= 8
}

/// File (0 = A .. 7 = H) of a playable 120-index square.
pub open spec fn file_of(sq: int) -> int {
    sq % 10 - 1
}

/// Rank (0 = rank 1 .. 7 = rank 8) of a playable 120-index square.
pub open spec fn rank_of(sq: int) -> int {
    sq / 10 - 2
}

/// Letter a file is written as: A to H.
pub open spec fn file_char(f: int) -> char {
    if f == 0 {
        'A'
    } else if f == 1 {
        'B'
    } else if f == 2 {
        'C'
    } else if f == 3 {
        'D'
    } else if f == 4 {
        'E'
    } else if f == 5 {
        'F'
    } else if f == 6 {
        'G'
    } else {
        'H'
    }
}

/// Digit a rank is written as: 1 to 8.
pub open spec fn rank_char(r: int) -> char {
    if r == 0 {
        '1'
    } else if r == 1 {
        '2'
    } else if r == 2 {
        '3'
    } else if r == 3 {
        '4'
    } else if r == 4 {
        '5'
    } else if r == 5 {
        '6'
    } else if r == 6 {
        '7'
    } else {
        '8'
    }
}

/// File of a 120-index square, `OFFBOARD` for a square of the padding.
pub fn file_of_square(sq: u8) -> (r: u8)
    requires
        sq < 120,
    ensures
        on_board(sq as int) ==> r as int == file_of(sq as int),
        !on_board(sq as int) ==> r == OFFBOARD,
{
    if 21 <= sq && sq <= 98 && 1 <= sq % 10 && sq % 10 <= 8 {
        sq % 10 - 1
    } else {
        OFFBOARD
    }
}

/// Rank of a 120-index square, `OFFBOARD` for a square of the padding.
pub fn rank_of_square(sq: u8) -> (r: u8)
    requires
        sq < 120,
    ensures
        on_board(sq as int) ==> r as int == rank_of(sq as int),
        !on_board(sq as int) ==> r == OFFBOARD,
{
    if 21 <= sq && sq <= 98 && 1 <= sq % 10 && sq % 10 <= 8 {
        sq / 10 - 2
    } else {
        OFFBOARD
    }
}

/// The one-letter name of file `f`.
pub fn file_str(f: u8) -> (r: &'static str)
    requires
        f < 8,
    ensures
        r@.len() == 1,
        r@[0] == file_char(f as int),
{
    proof {
        reveal_strlit("A");
        reveal_strlit("B");
        reveal_strlit("C");
        reveal_strlit("D");
        reveal_strlit("E");
        reveal_strlit("F");
        reveal_strlit("G");
        reveal_strlit("H");
    }
    if f == 0 {
        "A"
    } else if f == 1 {
        "B"
    } else if f == 2 {
        "C"
    } else if f == 3 {
        "D"
    } else if f == 4 {
        "E"
    } else if f == 5 {
        "F"
    } else if f == 6 {
        "G"
    } else {
        "H"
    }
}

/// The one-digit name of rank `r`.
pub fn rank_str(rk: u8) -> (r: &'static str)
    requires
        rk < 8,
    ensures
        r@.len() == 1,
        r@[0] == rank_char(rk as int),
{
    proof {
        reveal_strlit("1");
        reveal_strlit("2");
        reveal_strlit("3");
        reveal_strlit("4");
        reveal_strlit("5");
        reveal_strlit("6");
        reveal_strlit("7");
        reveal_strlit("8");
    }
    if rk == 0 {
        "1"
    } else if rk == 1 {
        "2"
    } else if rk == 2 {
        "3"
    } else if rk == 3 {
        "4"
    } else if rk == 4 {
        "5"
    } else if rk == 5 {
        "6"
    } else if rk == 6 {
        "7"
    } else {
        "8"
    }
}

} // verus!
