use chess_core::bitboard::BitBoard;

#[test]
fn test_set_bit() {
    let initial_bits: u64 =
        0b00000000_00000000_00000001_00000000_00000000_00000000_00000000_00000000;
    let expected_board: u64 =
        0b00000000_00000000_00000001_00000000_00000000_00000000_00000000_00000100;
    let mut board: BitBoard = BitBoard::new(initial_bits);
    board.set_bit(2);
    assert_eq!(board.board, expected_board, "Does not correctly set a bit");
}

#[test]
fn test_clear_bit() {
    let initial_bits: u64 =
        0b00000000_00000000_00000001_00000000_00000000_00000000_00000000_00000100;
    let expected_board: u64 =
        0b00000000_00000000_00000001_00000000_00000000_00000000_00000000_00000000;
    let mut board: BitBoard = BitBoard::new(initial_bits);
    board.clear_bit(2);
    assert_eq!(board.board, expected_board, "Does not correctly clear a bit");
}

#[test]
fn test_piece_is_present() {
    let initial_bits: u64 =
        0b00000001_00000001_00000001_00000001_00000001_00000001_00000001_00000001;
    let board: BitBoard = BitBoard::new(initial_bits);
    assert_eq!(
        board.clone().piece_is_present(0),
        true,
        "Does not correctly find piece in occupied square"
    );
    assert_eq!(
        board.piece_is_present(2),
        false,
        "Incorrectly finds piece in empty square"
    );
}

#[test]
fn test_count_bits() {
    let initial_bits: u64 =
        0b00000001_00000001_00000001_00000001_00000001_00000001_00000001_00000001;
    let mut board: BitBoard = BitBoard::new(initial_bits);
    assert_eq!(
        board.count_bits(),
        8,
        "New matrix did not contain correct data"
    );
}

#[test]
fn test_pop_bit() {
    let initial_bits: u64 =
        0b00000001_00000001_00000001_00000001_00000001_00000001_00000001_00000001;
    let mut board: BitBoard = BitBoard::new(initial_bits);
    let _index = board.pop_bit();
    assert_eq!(
        board.count_bits(),
        7,
        "Did not remove correct number of bits"
    );
    assert_eq!(
        board.board,
        0b00000001_00000001_00000001_00000001_00000001_00000001_00000001_00000000,
        "Did not remove correct bit"
    );
}

#[test]
fn set_query_count_clear_round_trip() {
    for s in 0..64u64 {
        let mut board = BitBoard::new(0);
        board.set_bit(s);
        assert!(board.piece_is_present(s));
        assert_eq!(board.count_bits(), 1);
        board.clear_bit(s);
        assert_eq!(board.board, 0);
    }
}

#[test]
fn set_bit_is_idempotent() {
    let mut board = BitBoard::new(0);
    board.set_bit(17);
    board.set_bit(17);
    assert_eq!(board.board, 1u64 << 17);
    assert_eq!(board.count_bits(), 1);
}

#[test]
fn pop_bit_returns_lowest_index() {
    let mut board = BitBoard::new(0b1010_0000_0100);
    let index = board.pop_bit();
    assert_eq!(index, 2);
    assert_eq!(board.board, 0b1010_0000_0000);
    assert_eq!(board.count_bits(), 2);
}

#[test]
fn pop_bit_highest_square() {
    let mut board = BitBoard::new(1u64 << 63);
    let index = board.pop_bit();
    assert_eq!(index, 63);
    assert_eq!(board.board, 0);
}

#[test]
fn count_bits_full_board() {
    let mut board = BitBoard::new(u64::MAX);
    assert_eq!(board.count_bits(), 64);
    let mut empty = BitBoard::new(0);
    assert_eq!(empty.count_bits(), 0);
}

#[test]
fn render_empty_and_single_square() {
    let empty = BitBoard::new(0);
    let grid = empty.render();
    let expected_row = "- - - - - - - - \n";
    let expected: String = expected_row.repeat(8);
    assert_eq!(grid, expected);

    // Square 0 is A1: bottom-left cell, first cell of the last row.
    let mut board = BitBoard::new(0);
    board.set_bit(0);
    let grid = board.render();
    let rows: Vec<&str> = grid.lines().collect();
    assert_eq!(rows.len(), 8);
    assert_eq!(rows[7], "x - - - - - - - ");
    assert_eq!(rows[0], "- - - - - - - - ");

    // Square 63 is H8: top-right cell of the first row.
    let mut board = BitBoard::new(0);
    board.set_bit(63);
    let grid = board.render();
    let rows: Vec<&str> = grid.lines().collect();
    assert_eq!(rows[0], "- - - - - - - x ");
}
