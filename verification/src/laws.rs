//! Engine-wide laws, stated over the grid model and proved once and for all.

use vstd::prelude::*;

use crate::board::any_line_won;
use crate::board::board_full;
use crate::board::cell;
use crate::board::col_winner;
use crate::board::diag_falling_winner;
use crate::board::diag_rising_winner;
use crate::board::drop_row;
use crate::board::empty_board;
use crate::board::row_winner;
use crate::board::spec_play;
use crate::board::spec_status;
use crate::board::winning_tile;
use crate::board::GameStatus;
use crate::board::MoveError;
use crate::board::Tile;

verus! {

/// An out-of-range column index is rejected with `InvalidColumn` on every
/// board, whatever its state, and the board does not change.
pub proof fn lemma_invalid_column_rejected(s: Seq<Tile>, team: Tile, col_idx: int)
    requires
        col_idx < 1 || col_idx > 4,
    ensures
        spec_play(s, team, col_idx) == (s, Err::<(), MoveError>(MoveError::InvalidColumn)),
{
}

/// Once a board's status is terminal (won or drawn), every move with an
/// in-range column is rejected with `GameOver` — also when the column still
/// has empty cells — and the board does not change, so the status stays
/// terminal forever.
pub proof fn lemma_terminal_rejects_moves(s: Seq<Tile>, team: Tile, col_idx: int)
    requires
        spec_status(s) != GameStatus::Ongoing,
        1 <= col_idx <= 4,
    ensures
        spec_play(s, team, col_idx) == (s, Err::<(), MoveError>(MoveError::GameOver)),
{
}

/// A board is classified `Won` exactly when some row, column, or diagonal is a
/// line of four equal non-empty tiles, and the reported mark is the mark of
/// such a line.
pub proof fn lemma_won_iff_line(s: Seq<Tile>)
    ensures
        (spec_status(s) matches GameStatus::Won(t)) <==> any_line_won(s),
        (spec_status(s) matches GameStatus::Won(t) ==> t != Tile::Empty && (
        row_winner(s, 0) == t || row_winner(s, 1) == t || row_winner(s, 2) == t || row_winner(
            s,
            3,
        ) == t || col_winner(s, 0) == t || col_winner(s, 1) == t || col_winner(s, 2) == t
            || col_winner(s, 3) == t || diag_rising_winner(s) == t || diag_falling_winner(s)
            == t)),
{
}

/// On a board with no line of four, the status is `Drawn` exactly when the
/// board is full, and `Ongoing` otherwise.
pub proof fn lemma_no_line_status(s: Seq<Tile>)
    requires
        !any_line_won(s),
    ensures
        board_full(s) ==> spec_status(s) == GameStatus::Drawn,
        !board_full(s) ==> spec_status(s) == GameStatus::Ongoing,
{
}

/// On an empty board, the first four drops into one column all succeed and
/// stack the tiles bottom to top; a fifth drop into that column is rejected
/// with `ColumnFull`, whatever tile it carries, and changes nothing.
///
/// The four tiles must be marks (not `Tile::Empty`, which would leave the cell
/// empty), and must not all be equal: four equal marks win the game on the
/// fourth drop, after which the fifth is rejected with `GameOver` instead.
pub proof fn lemma_column_fills_bottom_to_top(
    col_idx: int,
    t0: Tile,
    t1: Tile,
    t2: Tile,
    t3: Tile,
    t4: Tile,
)
    requires
        1 <= col_idx <= 4,
        t0 != Tile::Empty,
        t1 != Tile::Empty,
        t2 != Tile::Empty,
        t3 != Tile::Empty,
        !(t0 == t1 && t1 == t2 && t2 == t3),
    ensures
        ({
            let col = col_idx - 1;
            let (s1, r1) = spec_play(empty_board(), t0, col_idx);
            let (s2, r2) = spec_play(s1, t1, col_idx);
            let (s3, r3) = spec_play(s2, t2, col_idx);
            let (s4, r4) = spec_play(s3, t3, col_idx);
            r1 == Ok::<(), MoveError>(()) && r2 == Ok::<(), MoveError>(()) && r3 == Ok::<
                (),
                MoveError,
            >(()) && r4 == Ok::<(), MoveError>(()) && cell(s4, col, 0) == t0 && cell(s4, col, 1)
                == t1 && cell(s4, col, 2) == t2 && cell(s4, col, 3) == t3 && drop_row(s4, col) == 4
                && spec_play(s4, t4, col_idx) == (s4, Err::<(), MoveError>(MoveError::ColumnFull))
        }),
{
    let col = col_idx - 1;
    let s0 = empty_board();
    let (s1, r1) = spec_play(s0, t0, col_idx);
    let (s2, r2) = spec_play(s1, t1, col_idx);
    let (s3, r3) = spec_play(s2, t2, col_idx);
    let (s4, r4) = spec_play(s3, t3, col_idx);
    assert(spec_status(s0) == GameStatus::Ongoing);
    assert(s1 == s0.update(col * 4 + 0, t0));
    assert(spec_status(s1) == GameStatus::Ongoing);
    assert(s2 == s1.update(col * 4 + 1, t1));
    assert(spec_status(s2) == GameStatus::Ongoing);
    assert(s3 == s2.update(col * 4 + 2, t2));
    assert(spec_status(s3) == GameStatus::Ongoing);
    assert(s4 == s3.update(col * 4 + 3, t3));
    assert(winning_tile(s4) == Tile::Empty);
    assert(!board_full(s4)) by {
        let other = if col == 0 { 1 as int } else { 0 as int };
        assert(cell(s4, other, 0) == Tile::Empty);
    }
    assert(spec_status(s4) == GameStatus::Ongoing);
    assert(drop_row(s4, col) == 4);
}

} // verus!
