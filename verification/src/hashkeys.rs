//! Zobrist position hashing: a 64-bit fingerprint of a position,
//! the XOR of pre-generated random keys for every occupied square, the
//! side to move, the en-passant square and the castling rights.

use vstd::prelude::*;

use crate::pieces::{is_real_piece, EMPTY};
use crate::squares::NO_SQ;

verus! {

/// Relies on rand::thread_rng and rand::Rng::gen: draws one 64-bit
/// value from the thread-local generator; nothing is promised of it.
#[verifier::external_body]
fn random_u64() -> u64 {
    rand::Rng::gen(&mut rand::thread_rng())
}

/// The key of piece row `piece` and 120-index square `sq` in a flat key
/// table of 128 slots per row.
pub open spec fn key_at(keys: Seq<u64>, piece: int, sq: int) -> u64 {
    keys[piece * 128 + sq]
}

/// What square `sq` holding piece code `p` contributes to a
/// fingerprint: the key of (p, sq) for a real piece, nothing for the
/// empty code or a sentinel.
pub open spec fn square_contrib(keys: Seq<u64>, p: u8, sq: int) -> u64 {
    if is_real_piece(p) {
        key_at(keys, p as int, sq)
    } else {
        0
    }
}

/// XOR of the contributions of the first `n` squares of a placement.
pub open spec fn piece_contrib(keys: Seq<u64>, pieces: Seq<u8>, n: int) -> u64
    decreases n,
{
    if n <= 0 {
        0
    } else {
        piece_contrib(keys, pieces, n - 1) ^ square_contrib(keys, pieces[n - 1], n - 1)
    }
}

/// What the side to move contributes: the side key when white (0) is to
/// move, nothing otherwise.
pub open spec fn side_contrib(side_key: u64, side: u8) -> u64 {
    if side == 0 {
        side_key
    } else {
        0
    }
}

/// What the en-passant square contributes: the empty-row key of that
/// square, nothing when no square is set.
pub open spec fn ep_contrib(keys: Seq<u64>, en_passant: u64) -> u64 {
    if en_passant != NO_SQ as u64 {
        key_at(keys, EMPTY as int, en_passant as int)
    } else {
        0
    }
}

/// A placement is valid when every square holds the empty code, the
/// no-square sentinel, or a real piece code.
pub open spec fn valid_placement(pieces: Seq<u8>) -> bool {
    forall|i: int| 0 <= i < pieces.len() ==> pieces[i] == EMPTY || pieces[i] == NO_SQ
        || is_real_piece(pieces[i])
}

/// Derives position fingerprints from tables of random keys generated
/// once at construction: one key per (piece row, square), one for the
/// side to move, one per castling-rights mask.
pub struct BoardHasher {
    pub piece_keys: Vec<u64>,
    pub side_key: u64,
    pub castle_keys: Vec<u64>,
}

/// The fingerprint of a position under hasher `h`: the XOR of the keys
/// of all occupied squares, of the side contribution, of the en-passant
/// contribution, and of the castling key of the rights mask.
pub open spec fn spec_hash(
    h: BoardHasher,
    pieces: Seq<u8>,
    side: u8,
    en_passant: u64,
    castle_perm: u8,
) -> u64 {
    piece_contrib(h.piece_keys@, pieces, 120) ^ side_contrib(h.side_key, side) ^ ep_contrib(
        h.piece_keys@,
        en_passant,
    ) ^ h.castle_keys@[castle_perm as int]
}

impl BoardHasher {
    /// The key tables have their full size: 13 rows of 128 piece keys
    /// and 16 castling keys.
    pub open spec fn wf(&self) -> bool {
        self.piece_keys@.len() == 13 * 128 && self.castle_keys@.len() == 16
    }

    /// Generates all key tables from the random source. Construct one
    /// hasher per process and share it: fingerprints of two hashers are
    /// not comparable.
    pub fn new() -> (r: BoardHasher)
        ensures
            r.wf(),
    {
        let mut piece_keys: Vec<u64> = Vec::new();
        let mut i: usize = 0;
        while i < 1664
            invariant
                i <= 1664,
                piece_keys@.len() == i,
            decreases 1664 - i,
        {
            piece_keys.push(random_u64());
            i = i + 1;
        }
        let side_key: u64 = random_u64();
        let mut castle_keys: Vec<u64> = Vec::new();
        let mut j: usize = 0;
        while j < 16
            invariant
                j <= 16,
                castle_keys@.len() == j,
            decreases 16 - j,
        {
            castle_keys.push(random_u64());
            j = j + 1;
        }
        BoardHasher { piece_keys, side_key, castle_keys }
    }

    /// Builds a hasher from a fixed key table instead of the random
    /// source; every key is placed exactly where `generate_key` reads
    /// it.
    pub fn seed(piece_keys: [[u64; 128]; 13], side_key: u64, castle_keys: [u64; 16]) -> (r:
        BoardHasher)
        ensures
            r.wf(),
            r.side_key == side_key,
            forall|p: int, s: int|
                0 <= p < 13 && 0 <= s < 128 ==> #[trigger] key_at(r.piece_keys@, p, s)
                    == piece_keys@[p]@[s],
            forall|c: int| 0 <= c < 16 ==> r.castle_keys@[c] == castle_keys@[c],
    {
        let mut flat: Vec<u64> = Vec::new();
        let mut p: usize = 0;
        while p < 13
            invariant
                p <= 13,
                flat@.len() == p * 128,
                forall|a: int, b: int|
                    0 <= a < p && 0 <= b < 128 ==> #[trigger] key_at(flat@, a, b)
                        == piece_keys@[a]@[b],
            decreases 13 - p,
        {
            let row: [u64; 128] = piece_keys[p];
            let mut s: usize = 0;
            while s < 128
                invariant
                    p < 13,
                    s <= 128,
                    row == piece_keys@[p as int],
                    flat@.len() == p * 128 + s,
                    forall|a: int, b: int|
                        0 <= a < p && 0 <= b < 128 ==> #[trigger] key_at(flat@, a, b)
                            == piece_keys@[a]@[b],
                    forall|b: int|
                        0 <= b < s ==> #[trigger] key_at(flat@, p as int, b) == row@[b],
                decreases 128 - s,
            {
                let ghost pre = flat@;
                flat.push(row[s]);
                proof {
                    assert forall|a: int, b: int|
                        0 <= a < p && 0 <= b < 128 implies #[trigger] key_at(flat@, a, b)
                        == piece_keys@[a]@[b] by {
                        assert(a * 128 + b < p * 128);
                        assert(flat@[a * 128 + b] == pre[a * 128 + b]);
                        assert(key_at(pre, a, b) == piece_keys@[a]@[b]);
                    }
                    assert forall|b: int|
                        0 <= b < s + 1 implies #[trigger] key_at(flat@, p as int, b)
                        == row@.index(b) by {
                        if b < s {
                            assert(flat@[p * 128 + b] == pre[p * 128 + b]);
                            assert(key_at(pre, p as int, b) == row@[b]);
                        } else {
                            assert(flat@[p * 128 + b] == row@[s as int]);
                        }
                    }
                }
                s = s + 1;
            }
            proof {
                assert forall|a: int, b: int|
                    0 <= a < p + 1 && 0 <= b < 128 implies #[trigger] key_at(flat@, a, b)
                    == piece_keys@[a]@[b] by {
                    if a == p {
                        assert(key_at(flat@, a, b) == row@[b]);
                    }
                }
            }
            p = p + 1;
        }
        let mut ck: Vec<u64> = Vec::new();
        let mut c: usize = 0;
        while c < 16
            invariant
                c <= 16,
                ck@.len() == c,
                forall|i: int| 0 <= i < c ==> ck@[i] == castle_keys@[i],
            decreases 16 - c,
        {
            ck.push(castle_keys[c]);
            c = c + 1;
        }
        BoardHasher { piece_keys: flat, side_key, castle_keys: ck }
    }

    /// Computes the fingerprint of a position: piece placement over the
    /// 120-index board, side to move (0 for white), en-passant square
    /// (`NO_SQ` for none) and the 4-bit castling-rights mask.
    pub fn generate_key(
        &self,
        pieces: [u8; 120],
        side: u8,
        en_passant: u64,
        castle_perm: u8,
    ) -> (r: u64)
        requires
            self.wf(),
            valid_placement(pieces@),
            en_passant == NO_SQ as u64 || en_passant < 120,
            castle_perm <= 15,
        ensures
            r == spec_hash(*self, pieces@, side, en_passant, castle_perm),
    {
        let mut final_key: u64 = 0;
        let mut sq: usize = 0;
        while sq < 120
            invariant
                sq <= 120,
                self.wf(),
                valid_placement(pieces@),
                final_key == piece_contrib(self.piece_keys@, pieces@, sq as int),
            decreases 120 - sq,
        {
            let piece = pieces[sq];
            if piece != NO_SQ && piece != EMPTY {
                let idx: usize = (piece as usize) * 128 + sq;
                final_key = final_key ^ self.piece_keys[idx];
            } else {
                proof {
                    let a = final_key;
                    assert(a == a ^ 0u64) by (bit_vector);
                }
            }
            sq = sq + 1;
        }
        if side == 0 {
            final_key = final_key ^ self.side_key;
        } else {
            proof {
                let a = final_key;
                assert(a == a ^ 0u64) by (bit_vector);
            }
        }
        if en_passant != NO_SQ as u64 {
            let idx: usize = (EMPTY as usize) * 128 + (en_passant as usize);
            final_key = final_key ^ self.piece_keys[idx];
        } else {
            proof {
                let a = final_key;
                assert(a == a ^ 0u64) by (bit_vector);
            }
        }
        final_key = final_key ^ self.castle_keys[castle_perm as usize];
        final_key
    }
}

/// The fingerprint is a function of the hasher and the position alone:
/// any two results that the hashing contract admits for the same hasher
/// and the same arguments are the same.
pub proof fn lemma_hash_deterministic(
    h: BoardHasher,
    pieces: Seq<u8>,
    side: u8,
    en_passant: u64,
    castle_perm: u8,
    r1: u64,
    r2: u64,
)
    requires
        r1 == spec_hash(h, pieces, side, en_passant, castle_perm),
        r2 == spec_hash(h, pieces, side, en_passant, castle_perm),
    ensures
        r1 == r2,
{
}

/// Two placements that agree on every square below `n` have the same
/// contribution over those squares.
proof fn lemma_contrib_equal_prefix(keys: Seq<u64>, p1: Seq<u8>, p2: Seq<u8>, n: int)
    requires
        forall|i: int| 0 <= i < n ==> p1[i] == p2[i],
    ensures
        piece_contrib(keys, p1, n) == piece_contrib(keys, p2, n),
    decreases n,
{
    if n > 0 {
        lemma_contrib_equal_prefix(keys, p1, p2, n - 1);
    }
}

/// Two placements that agree everywhere below `n` but on square `k`
/// have contributions that differ by exactly the XOR of the two
/// contributions of square `k`.
proof fn lemma_contrib_differ_one(keys: Seq<u64>, p1: Seq<u8>, p2: Seq<u8>, k: int, n: int)
    requires
        0 <= k < n,
        forall|i: int| 0 <= i < n && i != k ==> p1[i] == p2[i],
    ensures
        piece_contrib(keys, p1, n) ^ piece_contrib(keys, p2, n) == square_contrib(keys, p1[k], k)
            ^ square_contrib(keys, p2[k], k),
    decreases n,
{
    if n == k + 1 {
        lemma_contrib_equal_prefix(keys, p1, p2, k);
        let x = piece_contrib(keys, p1, k);
        let d1 = square_contrib(keys, p1[k], k);
        let d2 = square_contrib(keys, p2[k], k);
        assert((x ^ d1) ^ (x ^ d2) == d1 ^ d2) by (bit_vector);
    } else {
        lemma_contrib_differ_one(keys, p1, p2, k, n - 1);
        let x1 = piece_contrib(keys, p1, n - 1);
        let x2 = piece_contrib(keys, p2, n - 1);
        let d = square_contrib(keys, p1[n - 1], n - 1);
        assert((x1 ^ d) ^ (x2 ^ d) == x1 ^ x2) by (bit_vector);
    }
}

/// Changing the side to move changes the fingerprint, as long as the
/// two side contributions differ (they do whenever exactly one side is
/// white and the side key is not zero).
pub proof fn lemma_hash_side_sensitive(
    h: BoardHasher,
    pieces: Seq<u8>,
    en_passant: u64,
    castle_perm: u8,
    s1: u8,
    s2: u8,
)
    requires
        side_contrib(h.side_key, s1) != side_contrib(h.side_key, s2),
    ensures
        spec_hash(h, pieces, s1, en_passant, castle_perm) != spec_hash(
            h,
            pieces,
            s2,
            en_passant,
            castle_perm,
        ),
{
    let a = piece_contrib(h.piece_keys@, pieces, 120);
    let e = ep_contrib(h.piece_keys@, en_passant);
    let c = h.castle_keys@[castle_perm as int];
    let x = side_contrib(h.side_key, s1);
    let y = side_contrib(h.side_key, s2);
    assert(x != y ==> a ^ x ^ e ^ c != a ^ y ^ e ^ c) by (bit_vector);
}

/// Changing the en-passant square changes the fingerprint, as long as
/// the two en-passant contributions differ.
pub proof fn lemma_hash_en_passant_sensitive(
    h: BoardHasher,
    pieces: Seq<u8>,
    side: u8,
    castle_perm: u8,
    e1: u64,
    e2: u64,
)
    requires
        ep_contrib(h.piece_keys@, e1) != ep_contrib(h.piece_keys@, e2),
    ensures
        spec_hash(h, pieces, side, e1, castle_perm) != spec_hash(h, pieces, side, e2, castle_perm),
{
    let a = piece_contrib(h.piece_keys@, pieces, 120);
    let s = side_contrib(h.side_key, side);
    let c = h.castle_keys@[castle_perm as int];
    let x = ep_contrib(h.piece_keys@, e1);
    let y = ep_contrib(h.piece_keys@, e2);
    assert(x != y ==> a ^ s ^ x ^ c != a ^ s ^ y ^ c) by (bit_vector);
}

/// Changing the castling-rights mask changes the fingerprint, as long
/// as the two masks' keys differ.
pub proof fn lemma_hash_castle_sensitive(
    h: BoardHasher,
    pieces: Seq<u8>,
    side: u8,
    en_passant: u64,
    c1: u8,
    c2: u8,
)
    requires
        h.castle_keys@[c1 as int] != h.castle_keys@[c2 as int],
    ensures
        spec_hash(h, pieces, side, en_passant, c1) != spec_hash(h, pieces, side, en_passant, c2),
{
    let a = piece_contrib(h.piece_keys@, pieces, 120);
    let s = side_contrib(h.side_key, side);
    let e = ep_contrib(h.piece_keys@, en_passant);
    let x = h.castle_keys@[c1 as int];
    let y = h.castle_keys@[c2 as int];
    assert(x != y ==> a ^ s ^ e ^ x != a ^ s ^ e ^ y) by (bit_vector);
}

/// Changing the piece on one square changes the fingerprint, as long as
/// that square's two contributions differ.
pub proof fn lemma_hash_piece_sensitive(
    h: BoardHasher,
    p1: Seq<u8>,
    p2: Seq<u8>,
    k: int,
    side: u8,
    en_passant: u64,
    castle_perm: u8,
)
    requires
        0 <= k < 120,
        forall|i: int| 0 <= i < 120 && i != k ==> p1[i] == p2[i],
        square_contrib(h.piece_keys@, p1[k], k) != square_contrib(h.piece_keys@, p2[k], k),
    ensures
        spec_hash(h, p1, side, en_passant, castle_perm) != spec_hash(
            h,
            p2,
            side,
            en_passant,
            castle_perm,
        ),
{
    lemma_contrib_differ_one(h.piece_keys@, p1, p2, k, 120);
    let a1 = piece_contrib(h.piece_keys@, p1, 120);
    let a2 = piece_contrib(h.piece_keys@, p2, 120);
    let d1 = square_contrib(h.piece_keys@, p1[k], k);
    let d2 = square_contrib(h.piece_keys@, p2[k], k);
    let s = side_contrib(h.side_key, side);
    let e = ep_contrib(h.piece_keys@, en_passant);
    let c = h.castle_keys@[castle_perm as int];
    assert(d1 != d2 && a1 ^ a2 == d1 ^ d2 ==> a1 ^ s ^ e ^ c != a2 ^ s ^ e ^ c) by (bit_vector);
}

} // verus!
