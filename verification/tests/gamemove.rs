use chess_core::gamemove::{GameMove, MFLAG_CA, MFLAG_EP, MFLAG_PS};
use chess_core::pieces;

#[test]
fn create_round_trips_all_fields() {
    // E2 = 35, E4 = 55 in the 120-index scheme.
    let m = GameMove::new(35, 55, pieces::WN, pieces::WQ, MFLAG_EP);
    assert_eq!(m.origin(), 35);
    assert_eq!(m.destination(), 55);
    assert_eq!(m.capture(), pieces::WN);
    assert_eq!(m.promoted_piece(), pieces::WQ);
    assert!(m.is_en_passant());
    assert!(!m.is_pawn_start());
    assert!(!m.is_castle_move());
    assert_eq!(m.score, 0);
}

#[test]
fn create_round_trips_extreme_fields() {
    let m = GameMove::new(0, 119, 15, 15, MFLAG_EP | MFLAG_PS | MFLAG_CA);
    assert_eq!(m.origin(), 0);
    assert_eq!(m.destination(), 119);
    assert_eq!(m.capture(), 15);
    assert_eq!(m.promoted_piece(), 15);
    assert!(m.is_en_passant());
    assert!(m.is_pawn_start());
    assert!(m.is_castle_move());
}

#[test]
fn flags_do_not_perturb_fields() {
    let flags = [0, MFLAG_EP, MFLAG_PS, MFLAG_CA, MFLAG_EP | MFLAG_PS | MFLAG_CA];
    for &flag in flags.iter() {
        let m = GameMove::new(91, 28, pieces::BR, pieces::BQ, flag);
        assert_eq!(m.origin(), 91);
        assert_eq!(m.destination(), 28);
        assert_eq!(m.capture(), pieces::BR);
        assert_eq!(m.promoted_piece(), pieces::BQ);
        assert_eq!(m.is_en_passant(), flag & MFLAG_EP != 0);
        assert_eq!(m.is_pawn_start(), flag & MFLAG_PS != 0);
        assert_eq!(m.is_castle_move(), flag & MFLAG_CA != 0);
    }
}

#[test]
fn equality_ignores_score() {
    let a = GameMove::new(35, 55, pieces::EMPTY, pieces::EMPTY, 0);
    let mut b = GameMove::new(35, 55, pieces::EMPTY, pieces::EMPTY, 0);
    b.score = 200;
    assert_eq!(a, b);
    let c = GameMove::new(35, 56, pieces::EMPTY, pieces::EMPTY, 0);
    assert_ne!(a, c);
}

#[test]
fn render_marks_captures() {
    // E2 = 35, E4 = 55: a capture reads "E2xE4".
    let capture = GameMove::new(35, 55, pieces::BP, pieces::EMPTY, 0);
    assert_eq!(capture.render(), "E2xE4");
    let quiet = GameMove::new(35, 55, pieces::EMPTY, pieces::EMPTY, 0);
    assert_eq!(quiet.render(), "E2 E4");
    // A1 = 21, H8 = 98: the corners of the board.
    let corner = GameMove::new(21, 98, pieces::EMPTY, pieces::EMPTY, 0);
    assert_eq!(corner.render(), "A1 H8");
}
