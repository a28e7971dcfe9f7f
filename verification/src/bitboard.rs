//! Piece-occupancy sets: a 64-bit word where bit `i` means that a piece
//! of one category stands on 64-index square `i`.

use vstd::prelude::*;
use vstd::string::StringExecFns;

verus! {

/// True when bit `i` of `b` is set; meaningful for `i < 64`.
pub open spec fn bit_is_set(b: u64, i: u64) -> bool {
    b & (1u64 << i) != 0
}

/// Number of set bits among the low `n` bits of `b`.
pub open spec fn pop_count_rec(b: u64, n: int) -> nat
    decreases n,
{
    if n <= 0 {
        0
    } else {
        pop_count_rec(b, n - 1) + (if bit_is_set(b, (n - 1) as u64) {
            1nat
        } else {
            0nat
        })
    }
}

/// Number of set bits of `b`: the number of occupied squares.
pub open spec fn pop_count(b: u64) -> nat {
    pop_count_rec(b, 64)
}

/// The mark drawn for 64-index square `rank * 8 + file` in the grid
/// rendering: `x` when occupied, `-` when empty.
pub open spec fn cell_char(b: u64, rank: int, file: int) -> char {
    if bit_is_set(b, (rank * 8 + file) as u64) {
        'x'
    } else {
        '-'
    }
}

/// The first `nfiles` cells of the grid row for `rank`, each cell a
/// mark followed by a space.
pub open spec fn row_chars(b: u64, rank: int, nfiles: int) -> Seq<char>
    decreases nfiles,
{
    if nfiles <= 0 {
        Seq::empty()
    } else {
        row_chars(b, rank, nfiles - 1) + seq![cell_char(b, rank, nfiles - 1), ' ']
    }
}

/// The first `nrows` rows of the grid rendering, ranks 8 down to 1,
/// each row ended by a newline.
pub open spec fn grid_rows(b: u64, nrows: int) -> Seq<char>
    decreases nrows,
{
    if nrows <= 0 {
        Seq::empty()
    } else {
        grid_rows(b, nrows - 1) + row_chars(b, 8 - nrows, 8) + seq!['\n']
    }
}

/// The full 8x8 grid rendering of occupancy word `b`.
pub open spec fn grid_chars(b: u64) -> Seq<char> {
    grid_rows(b, 8)
}

/// Tracks occupancy of one category of piece over the 64 squares.
#[derive(Debug, Copy, Clone)]
pub struct BitBoard {
    pub board: u64,
}

impl BitBoard {
    /// Wraps an initial occupancy pattern.
    pub fn new(board: u64) -> (r: BitBoard)
        ensures
            r.board == board,
    {
        BitBoard { board }
    }

    /// Marks 64-index square `sq` occupied; a no-op if it already is.
    pub fn set_bit(&mut self, sq: u64)
        requires
            sq < 64,
        ensures
            final(self).board == old(self).board | (1u64 << sq),
    {
        self.board = self.board | (1u64 << sq);
    }

    /// Marks 64-index square `sq` unoccupied; a no-op if it already is.
    pub fn clear_bit(&mut self, sq: u64)
        requires
            sq < 64,
        ensures
            final(self).board == old(self).board & !(1u64 << sq),
    {
        self.board = self.board & !(1u64 << sq);
    }

    /// Clears the lowest occupied square and returns its index: the
    /// returned square is occupied before the call, no lower square is,
    /// and only that bit is taken out of the word.
    pub fn pop_bit(&mut self) -> (r: u8)
        requires
            old(self).board != 0,
        ensures
            r < 64,
            bit_is_set(old(self).board, r as u64),
            forall|j: u64| j < r as u64 ==> !bit_is_set(old(self).board, j),
            final(self).board == old(self).board & !(1u64 << (r as u64)),
    {
        let b = self.board;
        let index: u32 = b.trailing_zeros();
        proof {
            vstd::std_specs::bits::axiom_u64_trailing_zeros(b);
            let tz = vstd::std_specs::bits::u64_trailing_zeros(b) as u64;
            assert(tz < 64 && (b >> tz) & 1u64 == 1u64 ==> b & (1u64 << tz) != 0) by (bit_vector);
            assert forall|j: u64| j < tz implies !bit_is_set(b, j) by {
                assert((b >> j) & 1u64 == 0u64);
                assert((b >> j) & 1u64 == 0u64 ==> b & (1u64 << j) == 0) by (bit_vector);
            }
            assert(b & (1u64 << tz) != 0 ==> (b ^ (1u64 << tz)) == (b & !(1u64 << tz)))
                by (bit_vector);
        }
        self.board = b ^ (1u64 << (index as u64));
        index as u8
    }

    /// Counts the occupied squares; the set itself is left as it was.
    pub fn count_bits(&mut self) -> (r: u8)
        ensures
            final(self).board == old(self).board,
            r == pop_count(old(self).board),
    {
        let b = self.board;
        let mut count: u8 = 0;
        let mut i: u64 = 0;
        while i < 64
            invariant
                i <= 64,
                count <= i,
                count == pop_count_rec(b, i as int),
            decreases 64 - i,
        {
            if b & (1u64 << i) != 0 {
                count = count + 1;
            }
            i = i + 1;
        }
        count
    }

    /// Whether a piece stands on 64-index square `sq64`.
    pub fn piece_is_present(self, sq64: u64) -> (r: bool)
        requires
            sq64 < 64,
        ensures
            r == bit_is_set(self.board, sq64),
    {
        let b = self.board;
        proof {
            assert((1u64 << sq64) & b == b & (1u64 << sq64)) by (bit_vector);
        }
        (1u64 << sq64) & b > 0
    }

    /// Draws the set as an 8x8 grid, ranks 8 down to 1, files A to H,
    /// `x` for an occupied square and `-` for an empty one.
    pub fn render(&self) -> (s: String)
        ensures
            s@ == grid_chars(self.board),
    {
        let b = self.board;
        let mut s = String::new();
        let mut row: usize = 0;
        while row < 8
            invariant
                row <= 8,
                s@ =~= grid_rows(b, row as int),
            decreases 8 - row,
        {
            let mut col: usize = 0;
            while col < 8
                invariant
                    row < 8,
                    col <= 8,
                    s@ =~= grid_rows(b, row as int) + row_chars(b, 7 - row as int, col as int),
                decreases 8 - col,
            {
                let sq: u64 = ((7 - row) * 8 + col) as u64;
                proof {
                    reveal_strlit("x ");
                    reveal_strlit("- ");
                    assert(sq == ((7 - row as int) * 8 + col as int) as u64);
                }
                if b & (1u64 << sq) != 0 {
                    s.append("x ");
                } else {
                    s.append("- ");
                }
                col = col + 1;
            }
            proof {
                reveal_strlit("\n");
                assert(grid_rows(b, row as int + 1) == grid_rows(b, row as int) + row_chars(
                    b,
                    8 - (row as int + 1),
                    8,
                ) + seq!['\n']);
            }
            s.append("\n");
            row = row + 1;
        }
        proof {
            assert(s@ =~= grid_chars(b));
        }
        s
    }
}

/// Setting a square on the empty set: for every square `s` in [0,64),
/// after `set_bit(s)` on an empty set the square reads occupied and the
/// count is exactly 1, and `clear_bit(s)` then returns the empty set.
pub proof fn lemma_set_query_count_clear(s: u64)
    requires
        s < 64,
    ensures
        bit_is_set(0u64 | (1u64 << s), s),
        pop_count(0u64 | (1u64 << s)) == 1,
        (0u64 | (1u64 << s)) & !(1u64 << s) == 0u64,
{
    assert(s < 64 ==> (0u64 | (1u64 << s)) & (1u64 << s) != 0) by (bit_vector);
    assert(s < 64 ==> (0u64 | (1u64 << s)) & !(1u64 << s) == 0u64) by (bit_vector);
    assert(0u64 | (1u64 << s) == 1u64 << s) by (bit_vector);
    lemma_pop_count_single(s, 64);
}

/// Among the low `n` bits, a word with one bit set at `s` counts 1 when
/// `s` lies below `n` and 0 otherwise.
proof fn lemma_pop_count_single(s: u64, n: int)
    requires
        s < 64,
        0 <= n <= 64,
    ensures
        pop_count_rec(1u64 << s, n) == if (s as int) < n {
            1nat
        } else {
            0nat
        },
    decreases n,
{
    if n > 0 {
        lemma_pop_count_single(s, n - 1);
        let m = (n - 1) as u64;
        assert(s < 64 && m < 64 ==> ((1u64 << s) & (1u64 << m) != 0 <==> s == m)) by (bit_vector);
    }
}

/// Clearing a set bit `s` takes exactly one off the count of the low
/// `n` bits when `s` lies below `n`, and nothing otherwise.
proof fn lemma_pop_count_clear(b: u64, s: u64, n: int)
    requires
        s < 64,
        bit_is_set(b, s),
        0 <= n <= 64,
    ensures
        pop_count_rec(b, n) == pop_count_rec(b & !(1u64 << s), n) + (if (s as int) < n {
            1nat
        } else {
            0nat
        }),
    decreases n,
{
    if n > 0 {
        lemma_pop_count_clear(b, s, n - 1);
        let m = (n - 1) as u64;
        assert(s < 64 && m < 64 && m != s ==> ((b & !(1u64 << s)) & (1u64 << m) != 0 <==> b & (1u64
            << m) != 0)) by (bit_vector);
        assert(s < 64 ==> (b & !(1u64 << s)) & (1u64 << s) == 0) by (bit_vector);
    }
}

/// Popping the lowest occupied square: clearing the lowest set bit of a
/// non-empty word lowers the count by exactly one and leaves that bit
/// clear.
pub proof fn lemma_pop_lowest_square(b: u64, r: u64)
    requires
        b != 0,
        r < 64,
        bit_is_set(b, r),
        forall|j: u64| j < r ==> !bit_is_set(b, j),
    ensures
        pop_count(b & !(1u64 << r)) + 1 == pop_count(b),
        !bit_is_set(b & !(1u64 << r), r),
{
    lemma_pop_count_clear(b, r, 64);
    assert(r < 64 ==> (b & !(1u64 << r)) & (1u64 << r) == 0) by (bit_vector);
}

} // verus!
