//! The 3x3 board and its rules.
//!
//! A board is a sequence of nine `i32` cells in row-major order: a negative
//! value is an empty cell, `0` is the first player's mark and `1` the second's.
use vstd::prelude::*;

verus! {

/// Number of cells on a board.
pub const BOARD_CELLS: usize = 9;

/// Number of winning lines: three rows, three columns, two diagonals.
pub const LINE_COUNT: usize = 8;

/// The value written into an empty cell.
pub const EMPTY_CELL: i32 = -1;

/// The three cell indices of winning line `k`, in scan order: rows, then
/// columns, then the two diagonals.
pub open spec fn line(k: int) -> (int, int, int) {
    if k == 0 {
        (0, 1, 2)
    } else if k == 1 {
        (3, 4, 5)
    } else if k == 2 {
        (6, 7, 8)
    } else if k == 3 {
        (0, 3, 6)
    } else if k == 4 {
        (1, 4, 7)
    } else if k == 5 {
        (2, 5, 8)
    } else if k == 6 {
        (0, 4, 8)
    } else {
        (2, 4, 6)
    }
}

/// A cell holds a mark.
pub open spec fn is_mark(c: i32) -> bool {
    c >= 0
}

/// Line `k` holds three equal marks.
pub open spec fn line_won(b: Seq<i32>, k: int) -> bool {
    let (i, j, l) = line(k);
    is_mark(b[i]) && b[i] == b[j] && b[j] == b[l]
}

/// The mark of the first won line at index `k` or later, in scan order.
pub open spec fn winner_from(b: Seq<i32>, k: int) -> Option<i32>
    decreases LINE_COUNT - k,
{
    if k < 0 || k >= LINE_COUNT {
        None
    } else if line_won(b, k) {
        Some(b[line(k).0])
    } else {
        winner_from(b, k + 1)
    }
}

/// The mark of the first won line in scan order, if any line is won.
pub open spec fn winner_of(b: Seq<i32>) -> Option<i32> {
    winner_from(b, 0)
}

/// No cell of the board is empty.
pub open spec fn board_full(b: Seq<i32>) -> bool {
    forall|i: int| 0 <= i < b.len() ==> is_mark(#[trigger] b[i])
}

/// Every cell of the board is empty.
pub open spec fn board_empty(b: Seq<i32>) -> bool {
    forall|i: int| 0 <= i < b.len() ==> !is_mark(#[trigger] b[i])
}

/// Nine cells, each empty (`-1`) or one of the two marks.
pub open spec fn board_wf(b: Seq<i32>) -> bool {
    &&& b.len() == BOARD_CELLS
    &&& forall|i: int| 0 <= i < b.len() ==> -1 <= #[trigger] b[i] <= 1
}

/// The board with which every match starts.
pub open spec fn empty_board() -> Seq<i32> {
    Seq::new(BOARD_CELLS as nat, |i: int| EMPTY_CELL)
}

proof fn lemma_line_in_range(k: int)
    requires
        0 <= k < LINE_COUNT,
    ensures
        0 <= line(k).0 < 9,
        0 <= line(k).1 < 9,
        0 <= line(k).2 < 9,
{
}

proof fn lemma_winner_from(b: Seq<i32>, k: int)
    requires
        b.len() == BOARD_CELLS,
        0 <= k <= LINE_COUNT,
    ensures
        winner_from(b, k) is Some <==> exists|j: int| k <= j < LINE_COUNT && line_won(b, j),
        winner_from(b, k) matches Some(m) ==> exists|j: int|
            k <= j < LINE_COUNT && line_won(b, j) && #[trigger] b[line(j).0] == m,
    decreases LINE_COUNT - k,
{
    if k < LINE_COUNT {
        lemma_winner_from(b, k + 1);
    }
}

/// A board has a winner exactly when one of its eight lines holds three equal
/// marks, and the winner is then the mark of such a line. An all-empty board
/// has no winner.
pub proof fn lemma_winner_iff_line(b: Seq<i32>)
    requires
        b.len() == BOARD_CELLS,
    ensures
        winner_of(b) is Some <==> exists|k: int| 0 <= k < LINE_COUNT && line_won(b, k),
        winner_of(b) matches Some(m) ==> exists|k: int|
            0 <= k < LINE_COUNT && line_won(b, k) && #[trigger] b[line(k).0] == m,
        board_empty(b) ==> winner_of(b) is None,
{
    lemma_winner_from(b, 0);
    if board_empty(b) && winner_of(b) is Some {
        let k = choose|k: int| 0 <= k < LINE_COUNT && line_won(b, k);
        lemma_line_in_range(k);
        assert(is_mark(b[line(k).0]));
    }
}

/// On a well-formed board the winner, if any, is `0` or `1`.
pub proof fn lemma_winner_is_player(b: Seq<i32>)
    requires
        board_wf(b),
    ensures
        winner_of(b) matches Some(m) ==> m == 0 || m == 1,
{
    lemma_winner_iff_line(b);
    if let Some(m) = winner_of(b) {
        let k = choose|k: int| 0 <= k < LINE_COUNT && line_won(b, k) && #[trigger] b[line(k).0] == m;
        lemma_line_in_range(k);
    }
}

pub(crate) fn line_at(k: usize) -> (r: (usize, usize, usize))
    requires
        k < LINE_COUNT,
    ensures
        (r.0 as int, r.1 as int, r.2 as int) == line(k as int),
        r.0 < 9 && r.1 < 9 && r.2 < 9,
{
    if k == 0 {
        (0, 1, 2)
    } else if k == 1 {
        (3, 4, 5)
    } else if k == 2 {
        (6, 7, 8)
    } else if k == 3 {
        (0, 3, 6)
    } else if k == 4 {
        (1, 4, 7)
    } else if k == 5 {
        (2, 5, 8)
    } else if k == 6 {
        (0, 4, 8)
    } else {
        (2, 4, 6)
    }
}

} // verus!
