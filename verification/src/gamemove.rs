//! Packed move encoding: origin, destination, captured piece, promotion
//! piece and special-move flags in one 32-bit integer, plus an ordering
//! score that is not part of the encoding.

use vstd::prelude::*;
use vstd::string::StringExecFns;

use crate::pieces::EMPTY;
use crate::squares::{
    file_char, file_of, file_of_square, file_str, on_board, rank_char, rank_of, rank_of_square,
    rank_str,
};

verus! {

/// En-passant flag bit.
pub const MFLAG_EP: u32 = 0x40000;

/// Pawn-start (double-step) flag bit.
pub const MFLAG_PS: u32 = 0x80000;

/// Castle flag bit.
pub const MFLAG_CA: u32 = 0x1000000;

/// Mask of the capture field together with the en-passant flag.
pub const MFLAG_CAP: u32 = 0x7C000;

/// Mask of the promotion field.
pub const MFLAG_PROM: u32 = 0xF00000;

/// The packed integer for the given fields.
pub open spec fn spec_move_int(from: u8, to: u8, cap: u8, prom: u8, flag: u32) -> u32 {
    (from as u32) | (to as u32) << 7 | (cap as u32) << 14 | (prom as u32) << 20 | flag
}

/// Origin square (120-index) encoded in `m`.
pub open spec fn spec_origin(m: u32) -> u32 {
    m & 0x7F
}

/// Destination square (120-index) encoded in `m`.
pub open spec fn spec_destination(m: u32) -> u32 {
    (m >> 7) & 0x7F
}

/// Captured piece code encoded in `m`.
pub open spec fn spec_capture(m: u32) -> u32 {
    (m >> 14) & 0xF
}

/// Promotion piece code encoded in `m`.
pub open spec fn spec_promoted(m: u32) -> u32 {
    (m >> 20) & 0xF
}

/// True when `flag` holds only the three special-move flag bits.
pub open spec fn valid_flags(flag: u32) -> bool {
    flag & !(MFLAG_EP | MFLAG_PS | MFLAG_CA) == 0
}

/// What `==` means for moves: the packed integers agree; the score is
/// not part of the comparison.
pub open spec fn moves_equal(a: GameMove, b: GameMove) -> bool {
    a.move_int == b.move_int
}

/// One encoded move together with its mutable ordering score.
#[derive(Clone, Copy, Debug)]
pub struct GameMove {
    pub move_int: u32,
    pub score: u8,
}

impl GameMove {
    /// Packs the given fields; the fresh move carries score 0. Each
    /// accessor returns exactly the field given here.
    pub fn new(from: u8, to: u8, cap: u8, prom: u8, flag: u32) -> (r: GameMove)
        requires
            from < 120,
            to < 120,
            cap < 16,
            prom < 16,
            valid_flags(flag),
        ensures
            r.move_int == spec_move_int(from, to, cap, prom, flag),
            r.score == 0,
            spec_origin(r.move_int) == from,
            spec_destination(r.move_int) == to,
            spec_capture(r.move_int) == cap,
            spec_promoted(r.move_int) == prom,
            r.move_int & MFLAG_EP == flag & MFLAG_EP,
            r.move_int & MFLAG_PS == flag & MFLAG_PS,
            r.move_int & MFLAG_CA == flag & MFLAG_CA,
    {
        proof {
            lemma_move_encoding_roundtrip(from, to, cap, prom, flag);
        }
        let move_int: u32 = (from as u32) | (to as u32) << 7 | (cap as u32) << 14 | (prom
            as u32) << 20 | flag;
        GameMove { move_int, score: 0 }
    }

    /// The starting square of the move (120-index).
    pub fn origin(self) -> (r: u8)
        ensures
            r as u32 == spec_origin(self.move_int),
    {
        let m = self.move_int;
        proof {
            assert((m & 0x7F) < 0x80) by (bit_vector);
        }
        (m & 0x7F) as u8
    }

    /// The final square of the move (120-index).
    pub fn destination(self) -> (r: u8)
        ensures
            r as u32 == spec_destination(self.move_int),
    {
        let m = self.move_int;
        proof {
            assert((m >> 7 & 0x7F) < 0x80) by (bit_vector);
        }
        (m >> 7 & 0x7F) as u8
    }

    /// The piece-type code of any captured piece, or the empty code.
    pub fn capture(self) -> (r: u8)
        ensures
            r as u32 == spec_capture(self.move_int),
    {
        let m = self.move_int;
        proof {
            assert((m >> 14 & 0xF) < 0x10) by (bit_vector);
        }
        (m >> 14 & 0xF) as u8
    }

    /// The piece-type code a pawn was promoted to, or the empty code.
    pub fn promoted_piece(self) -> (r: u8)
        ensures
            r as u32 == spec_promoted(self.move_int),
    {
        let m = self.move_int;
        proof {
            assert((m >> 20 & 0xF) < 0x10) by (bit_vector);
        }
        (m >> 20 & 0xF) as u8
    }

    /// Whether the move is a pawn's first, double-step move.
    pub fn is_pawn_start(&self) -> (r: bool)
        ensures
            r == (self.move_int & MFLAG_PS != 0),
    {
        (self.move_int & MFLAG_PS) > 0
    }

    /// Whether the move is an en-passant capture.
    pub fn is_en_passant(&self) -> (r: bool)
        ensures
            r == (self.move_int & MFLAG_EP != 0),
    {
        (self.move_int & MFLAG_EP) > 0
    }

    /// Whether the move is a castling move.
    pub fn is_castle_move(&self) -> (r: bool)
        ensures
            r == (self.move_int & MFLAG_CA != 0),
    {
        (self.move_int & MFLAG_CA) > 0
    }

    /// Writes the move out: origin file and rank, an `x` when a piece
    /// is captured and a space otherwise, then destination file and
    /// rank.
    pub fn render(&self) -> (s: String)
        requires
            on_board(spec_origin(self.move_int) as int),
            on_board(spec_destination(self.move_int) as int),
        ensures
            s@.len() == 5,
            s@[0] == file_char(file_of(spec_origin(self.move_int) as int)),
            s@[1] == rank_char(rank_of(spec_origin(self.move_int) as int)),
            s@[2] == (if spec_capture(self.move_int) != 0 {
                'x'
            } else {
                ' '
            }),
            s@[3] == file_char(file_of(spec_destination(self.move_int) as int)),
            s@[4] == rank_char(rank_of(spec_destination(self.move_int) as int)),
    {
        let o = self.origin();
        let d = self.destination();
        let mut s = String::new();
        s.append(file_str(file_of_square(o)));
        s.append(rank_str(rank_of_square(o)));
        if self.capture() != EMPTY {
            proof {
                reveal_strlit("x");
            }
            s.append("x");
        } else {
            proof {
                reveal_strlit(" ");
            }
            s.append(" ");
        }
        s.append(file_str(file_of_square(d)));
        s.append(rank_str(rank_of_square(d)));
        s
    }
}

impl PartialEq for GameMove {
    fn eq(&self, other: &Self) -> (r: bool) {
        self.move_int == other.move_int
    }
}

impl vstd::std_specs::cmp::PartialEqSpecImpl for GameMove {
    open spec fn obeys_eq_spec() -> bool {
        true
    }

    open spec fn eq_spec(&self, other: &GameMove) -> bool {
        moves_equal(*self, *other)
    }
}

/// The facts a caller needs about flag words: the empty word and each
/// single flag are valid, the three flags are distinct bits, an OR of
/// valid words is valid, and an OR sets a flag exactly when one operand
/// does.
pub proof fn lemma_flag_words()
    by (bit_vector)
    ensures
        valid_flags(0),
        valid_flags(MFLAG_EP),
        valid_flags(MFLAG_PS),
        valid_flags(MFLAG_CA),
        0u32 & MFLAG_EP == 0 && 0u32 & MFLAG_PS == 0 && 0u32 & MFLAG_CA == 0,
        MFLAG_EP & MFLAG_EP != 0 && MFLAG_EP & MFLAG_PS == 0 && MFLAG_EP & MFLAG_CA == 0,
        MFLAG_PS & MFLAG_PS != 0 && MFLAG_PS & MFLAG_EP == 0 && MFLAG_PS & MFLAG_CA == 0,
        MFLAG_CA & MFLAG_CA != 0 && MFLAG_CA & MFLAG_EP == 0 && MFLAG_CA & MFLAG_PS == 0,
        forall|f: u32, g: u32|
            valid_flags(f) && valid_flags(g) ==> valid_flags(#[trigger] (f | g)),
        forall|f: u32, g: u32|
            (#[trigger] (f | g)) & MFLAG_EP == 0 <==> f & MFLAG_EP == 0 && g & MFLAG_EP == 0,
        forall|f: u32, g: u32|
            (#[trigger] (f | g)) & MFLAG_PS == 0 <==> f & MFLAG_PS == 0 && g & MFLAG_PS == 0,
        forall|f: u32, g: u32|
            (#[trigger] (f | g)) & MFLAG_CA == 0 <==> f & MFLAG_CA == 0 && g & MFLAG_CA == 0,
{
}

/// Round trip: packing fields within their declared ranges and reading
/// them back returns exactly the fields given, and each flag bit of the
/// packed integer is exactly the corresponding bit of `flag`.
pub proof fn lemma_move_encoding_roundtrip(from: u8, to: u8, cap: u8, prom: u8, flag: u32)
    requires
        from < 120,
        to < 120,
        cap < 16,
        prom < 16,
        valid_flags(flag),
    ensures
        spec_origin(spec_move_int(from, to, cap, prom, flag)) == from,
        spec_destination(spec_move_int(from, to, cap, prom, flag)) == to,
        spec_capture(spec_move_int(from, to, cap, prom, flag)) == cap,
        spec_promoted(spec_move_int(from, to, cap, prom, flag)) == prom,
        spec_move_int(from, to, cap, prom, flag) & MFLAG_EP == flag & MFLAG_EP,
        spec_move_int(from, to, cap, prom, flag) & MFLAG_PS == flag & MFLAG_PS,
        spec_move_int(from, to, cap, prom, flag) & MFLAG_CA == flag & MFLAG_CA,
{
    assert(from < 120 && to < 120 && cap < 16 && prom < 16 && flag & !(0x40000u32 | 0x80000u32
        | 0x1000000u32) == 0 ==> {
        let m = (from as u32) | (to as u32) << 7 | (cap as u32) << 14 | (prom as u32) << 20
            | flag;
        &&& m & 0x7F == from
        &&& (m >> 7) & 0x7F == to
        &&& (m >> 14) & 0xF == cap
        &&& (m >> 20) & 0xF == prom
        &&& m & 0x40000u32 == flag & 0x40000u32
        &&& m & 0x80000u32 == flag & 0x80000u32
        &&& m & 0x1000000u32 == flag & 0x1000000u32
    }) by (bit_vector);
}

/// Flag independence: two packings that differ only in their flag word
/// agree on origin, destination, capture and promotion, and each flag
/// bit depends only on the flag word.
pub proof fn lemma_flag_independence(from: u8, to: u8, cap: u8, prom: u8, f1: u32, f2: u32)
    requires
        from < 120,
        to < 120,
        cap < 16,
        prom < 16,
        valid_flags(f1),
        valid_flags(f2),
    ensures
        spec_origin(spec_move_int(from, to, cap, prom, f1)) == spec_origin(
            spec_move_int(from, to, cap, prom, f2),
        ),
        spec_destination(spec_move_int(from, to, cap, prom, f1)) == spec_destination(
            spec_move_int(from, to, cap, prom, f2),
        ),
        spec_capture(spec_move_int(from, to, cap, prom, f1)) == spec_capture(
            spec_move_int(from, to, cap, prom, f2),
        ),
        spec_promoted(spec_move_int(from, to, cap, prom, f1)) == spec_promoted(
            spec_move_int(from, to, cap, prom, f2),
        ),
{
    lemma_move_encoding_roundtrip(from, to, cap, prom, f1);
    lemma_move_encoding_roundtrip(from, to, cap, prom, f2);
}

/// Field independence, the other direction: two packings that differ
/// only in origin, destination, capture or promotion agree on every
/// flag bit.
pub proof fn lemma_field_independence(
    from1: u8,
    to1: u8,
    cap1: u8,
    prom1: u8,
    from2: u8,
    to2: u8,
    cap2: u8,
    prom2: u8,
    flag: u32,
)
    requires
        from1 < 120,
        to1 < 120,
        cap1 < 16,
        prom1 < 16,
        from2 < 120,
        to2 < 120,
        cap2 < 16,
        prom2 < 16,
        valid_flags(flag),
    ensures
        spec_move_int(from1, to1, cap1, prom1, flag) & MFLAG_EP == spec_move_int(
            from2,
            to2,
            cap2,
            prom2,
            flag,
        ) & MFLAG_EP,
        spec_move_int(from1, to1, cap1, prom1, flag) & MFLAG_PS == spec_move_int(
            from2,
            to2,
            cap2,
            prom2,
            flag,
        ) & MFLAG_PS,
        spec_move_int(from1, to1, cap1, prom1, flag) & MFLAG_CA == spec_move_int(
            from2,
            to2,
            cap2,
            prom2,
            flag,
        ) & MFLAG_CA,
{
    lemma_move_encoding_roundtrip(from1, to1, cap1, prom1, flag);
    lemma_move_encoding_roundtrip(from2, to2, cap2, prom2, flag);
}

/// Equality ignores the score: two moves with the same packed integer
/// compare equal whatever their scores are.
pub proof fn lemma_eq_ignores_score(a: GameMove, b: GameMove)
    requires
        a.move_int == b.move_int,
    ensures
        moves_equal(a, b),
{
}

} // verus!
