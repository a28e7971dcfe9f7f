use chess_core::hashkeys::BoardHasher;
use chess_core::pieces;
use chess_core::squares::NO_SQ;

#[test]
fn test_generate_key() {
    let hasher = BoardHasher::new();

    let mut pieces1: [u8; 120] = [0; 120];
    let mut pieces2: [u8; 120] = [0; 120];
    pieces1[45] = 2;
    pieces1[55] = 5;
    pieces2[65] = 4;
    pieces2[34] = 7;
    let side1 = 0;
    let side2 = 1;
    let enpassant1 = 42;
    let enpassant2 = 0;
    let castle1 = 3;
    let castle2 = 5;

    assert_eq!(
        hasher.generate_key(pieces1, side1, enpassant1, castle1),
        hasher.generate_key(pieces1, side1, enpassant1, castle1),
        "Did not produce the same hash for identical board states"
    );

    assert_eq!(
        hasher.generate_key(pieces2, side2, enpassant2, castle2),
        hasher.generate_key(pieces2, side2, enpassant2, castle2),
        "Did not produce the same hash for identical board states"
    );

    assert_ne!(
        hasher.generate_key(pieces1, side1, enpassant1, castle1),
        hasher.generate_key(pieces2, side2, enpassant2, castle2),
        "Did not produce different hashes for different board states"
    );

    assert_ne!(
        hasher.generate_key(pieces1, side1, enpassant1, castle1),
        hasher.generate_key(pieces1, side1, enpassant1, castle2),
        "Did not produce different hashes for different board states"
    );

    assert_ne!(
        hasher.generate_key(pieces1, side1, enpassant1, castle1),
        hasher.generate_key(pieces1, side1, enpassant2, castle1),
        "Did not produce different hashes for different board states"
    );

    assert_ne!(
        hasher.generate_key(pieces1, side1, enpassant1, castle1),
        hasher.generate_key(pieces1, side2, enpassant1, castle1),
        "Did not produce different hashes for different board states"
    );

    assert_ne!(
        hasher.generate_key(pieces1, side1, enpassant1, castle1),
        hasher.generate_key(pieces2, side1, enpassant1, castle1),
        "Did not produce different hashes for different board states"
    );
}

/// A fixed, distinct key for every (piece row, square) slot.
fn fixed_piece_keys() -> [[u64; 128]; 13] {
    let mut keys = [[0u64; 128]; 13];
    for p in 0..13 {
        for s in 0..128 {
            keys[p][s] = ((p * 128 + s) as u64 + 1).wrapping_mul(0x2545F4914F6CDD1D);
        }
    }
    keys
}

fn fixed_castle_keys() -> [u64; 16] {
    let mut keys = [0u64; 16];
    for c in 0..16 {
        keys[c] = ((c + 1) as u64).wrapping_mul(0x9E3779B97F4A7C15);
    }
    keys
}

#[test]
fn seeded_hasher_composes_exactly() {
    // A black knight on 120-index square 45, a black queen on square 55,
    // white to move, en passant on square 42, castling mask 3: the
    // fingerprint is the XOR of exactly those five keys.
    let piece_keys = fixed_piece_keys();
    let side_key: u64 = 0x0123_4567_89AB_CDEF;
    let castle_keys = fixed_castle_keys();
    let hasher = BoardHasher::seed(piece_keys, side_key, castle_keys);

    let mut placement: [u8; 120] = [0; 120];
    placement[45] = pieces::BN;
    placement[55] = pieces::BQ;
    let fingerprint = hasher.generate_key(placement, 0, 42, 3);

    let expected = piece_keys[pieces::BN as usize][45]
        ^ piece_keys[pieces::BQ as usize][55]
        ^ side_key
        ^ piece_keys[pieces::EMPTY as usize][42]
        ^ castle_keys[3];
    assert_eq!(fingerprint, expected);
}

#[test]
fn seeded_hasher_reads_the_right_slots() {
    // A single white pawn on A1 (square 21), black to move, no en
    // passant: only that pawn's key and the castling key remain.
    let piece_keys = fixed_piece_keys();
    let castle_keys = fixed_castle_keys();
    let hasher = BoardHasher::seed(piece_keys, 7, castle_keys);

    let mut placement: [u8; 120] = [0; 120];
    placement[21] = pieces::WP;
    let fingerprint = hasher.generate_key(placement, 1, NO_SQ as u64, 0);
    assert_eq!(
        fingerprint,
        piece_keys[pieces::WP as usize][21] ^ castle_keys[0]
    );
}

#[test]
fn empty_board_hash_is_castle_key_alone() {
    let piece_keys = fixed_piece_keys();
    let castle_keys = fixed_castle_keys();
    let hasher = BoardHasher::seed(piece_keys, 7, castle_keys);

    let placement: [u8; 120] = [0; 120];
    let fingerprint = hasher.generate_key(placement, 1, NO_SQ as u64, 15);
    assert_eq!(fingerprint, castle_keys[15]);
}

#[test]
fn seeded_hash_sensitivity() {
    let piece_keys = fixed_piece_keys();
    let side_key: u64 = 0x0123_4567_89AB_CDEF;
    let castle_keys = fixed_castle_keys();
    let hasher = BoardHasher::seed(piece_keys, side_key, castle_keys);

    let mut placement: [u8; 120] = [0; 120];
    placement[45] = pieces::BN;
    let base = hasher.generate_key(placement, 0, 42, 3);

    // Moving the knight changes the fingerprint.
    let mut moved: [u8; 120] = [0; 120];
    moved[46] = pieces::BN;
    assert_ne!(base, hasher.generate_key(moved, 0, 42, 3));

    // So does the side to move, the en-passant square, or the rights.
    assert_ne!(base, hasher.generate_key(placement, 1, 42, 3));
    assert_ne!(base, hasher.generate_key(placement, 0, 43, 3));
    assert_ne!(base, hasher.generate_key(placement, 0, NO_SQ as u64, 3));
    assert_ne!(base, hasher.generate_key(placement, 0, 42, 4));
}

#[test]
fn no_square_sentinel_pieces_are_skipped() {
    // Squares marked with the no-square sentinel contribute nothing,
    // exactly like empty squares.
    let piece_keys = fixed_piece_keys();
    let castle_keys = fixed_castle_keys();
    let hasher = BoardHasher::seed(piece_keys, 7, castle_keys);

    let mut with_sentinels: [u8; 120] = [NO_SQ; 120];
    with_sentinels[55] = pieces::WQ;
    let mut with_empties: [u8; 120] = [0; 120];
    with_empties[55] = pieces::WQ;
    assert_eq!(
        hasher.generate_key(with_sentinels, 1, NO_SQ as u64, 0),
        hasher.generate_key(with_empties, 1, NO_SQ as u64, 0)
    );
}
