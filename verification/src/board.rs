//! The board engine: the tile model, the 4x4 grid, move application with
//! validation, win/draw classification, and textual rendering.
//!
//! The grid is modelled as a flat sequence of 16 tiles, indexed by
//! `column * 4 + row` with `column` and `row` each in `[0, 4)` and row 0 the
//! bottom of a column's stack. Moves take a 1-based column index, as the
//! human-facing callers do.

use vstd::prelude::*;

verus! {

/// The mark occupying a cell: empty, or one of the two player marks.
#[derive(Clone, Copy, PartialEq, Eq, Structural, Debug)]
pub enum Tile {
    Empty,
    Cookie,
    Milk,
}

/// Why a move was rejected. All three are expected, recoverable conditions.
#[derive(Clone, Copy, PartialEq, Eq, Structural, Debug)]
pub enum MoveError {
    /// The 1-based column index lies outside `[1, 4]`.
    InvalidColumn,
    /// The column has no empty cell left.
    ColumnFull,
    /// The game already reached a terminal status (won or drawn).
    GameOver,
}

/// The classification of a board: derived from the grid on demand, never stored.
#[derive(Clone, Copy, PartialEq, Eq, Structural, Debug)]
pub enum GameStatus {
    /// Moves are still accepted.
    Ongoing,
    /// The board is full and no line of four exists.
    Drawn,
    /// Some line of four equal non-empty tiles exists; the tile is its mark.
    Won(Tile),
}

/// The tile at `(col, row)` of a flat 16-cell grid sequence.
pub open spec fn cell(s: Seq<Tile>, col: int, row: int) -> Tile {
    s[col * 4 + row]
}

/// The grid with every cell empty.
pub open spec fn empty_board() -> Seq<Tile> {
    Seq::new(16, |i: int| Tile::Empty)
}

/// The common mark of four cells when all four carry the same non-empty
/// tile; `Tile::Empty` otherwise.
pub open spec fn quad_winner(s: Seq<Tile>, i: int, j: int, k: int, l: int) -> Tile {
    if s[i] != Tile::Empty && s[i] == s[j] && s[i] == s[k] && s[i] == s[l] {
        s[i]
    } else {
        Tile::Empty
    }
}

/// The mark winning row `row`, or `Tile::Empty` if that row is no line of four.
pub open spec fn row_winner(s: Seq<Tile>, row: int) -> Tile {
    quad_winner(s, 0 * 4 + row, 1 * 4 + row, 2 * 4 + row, 3 * 4 + row)
}

/// The mark winning column `col`, or `Tile::Empty` if it is no line of four.
pub open spec fn col_winner(s: Seq<Tile>, col: int) -> Tile {
    quad_winner(s, col * 4 + 0, col * 4 + 1, col * 4 + 2, col * 4 + 3)
}

/// The mark winning the diagonal that rises from the bottom-left cell to the
/// top-right cell, or `Tile::Empty`.
pub open spec fn diag_rising_winner(s: Seq<Tile>) -> Tile {
    quad_winner(s, 0, 5, 10, 15)
}

/// The mark winning the diagonal that falls from the top-left cell to the
/// bottom-right cell, or `Tile::Empty`.
pub open spec fn diag_falling_winner(s: Seq<Tile>) -> Tile {
    quad_winner(s, 3, 6, 9, 12)
}

/// The mark of the first winning line in scan order: rows from the top row
/// down, then columns left to right, then the falling diagonal, then the
/// rising one; or `Tile::Empty` when no line of four exists.
pub open spec fn winning_tile(s: Seq<Tile>) -> Tile {
    if row_winner(s, 3) != Tile::Empty {
        row_winner(s, 3)
    } else if row_winner(s, 2) != Tile::Empty {
        row_winner(s, 2)
    } else if row_winner(s, 1) != Tile::Empty {
        row_winner(s, 1)
    } else if row_winner(s, 0) != Tile::Empty {
        row_winner(s, 0)
    } else if col_winner(s, 0) != Tile::Empty {
        col_winner(s, 0)
    } else if col_winner(s, 1) != Tile::Empty {
        col_winner(s, 1)
    } else if col_winner(s, 2) != Tile::Empty {
        col_winner(s, 2)
    } else if col_winner(s, 3) != Tile::Empty {
        col_winner(s, 3)
    } else if diag_falling_winner(s) != Tile::Empty {
        diag_falling_winner(s)
    } else if diag_rising_winner(s) != Tile::Empty {
        diag_rising_winner(s)
    } else {
        Tile::Empty
    }
}

/// Whether some row, column, or diagonal is a line of four equal non-empty tiles.
pub open spec fn any_line_won(s: Seq<Tile>) -> bool {
    winning_tile(s) != Tile::Empty
}

/// Whether every cell of the grid is occupied.
pub open spec fn board_full(s: Seq<Tile>) -> bool {
    forall|i: int| 0 <= i < 16 ==> s[i] != Tile::Empty
}

/// The classification of a grid: a win takes precedence over a draw, and a
/// draw requires a full board.
pub open spec fn spec_status(s: Seq<Tile>) -> GameStatus {
    if winning_tile(s) != Tile::Empty {
        GameStatus::Won(winning_tile(s))
    } else if board_full(s) {
        GameStatus::Drawn
    } else {
        GameStatus::Ongoing
    }
}

/// The row where a tile dropped into column `col` lands: the lowest empty row
/// of that column, or 4 when the column is full.
pub open spec fn drop_row(s: Seq<Tile>, col: int) -> int {
    if cell(s, col, 0) == Tile::Empty {
        0
    } else if cell(s, col, 1) == Tile::Empty {
        1
    } else if cell(s, col, 2) == Tile::Empty {
        2
    } else if cell(s, col, 3) == Tile::Empty {
        3
    } else {
        4
    }
}

/// One move applied to a grid: the grid afterwards and the outcome.
///
/// An out-of-range column is rejected before anything else; then a board whose
/// status is no longer ongoing rejects every move; then a full column rejects
/// the move. Otherwise the tile lands in the lowest empty row of the column
/// and no other cell changes.
pub open spec fn spec_play(s: Seq<Tile>, team: Tile, col_idx: int) -> (Seq<Tile>, Result<
    (),
    MoveError,
>) {
    if col_idx < 1 || col_idx > 4 {
        (s, Err(MoveError::InvalidColumn))
    } else if spec_status(s) != GameStatus::Ongoing {
        (s, Err(MoveError::GameOver))
    } else {
        let col = col_idx - 1;
        let row = drop_row(s, col);
        if row == 4 {
            (s, Err(MoveError::ColumnFull))
        } else {
            (s.update(col * 4 + row, team), Ok(()))
        }
    }
}

/// The glyph a tile is rendered as.
pub open spec fn glyph(t: Tile) -> Seq<char> {
    match t {
        Tile::Empty => "⬛"@,
        Tile::Cookie => "🍪"@,
        Tile::Milk => "🥛"@,
    }
}

/// One rendered grid line: the four cells of `row`, walled on both sides.
pub open spec fn row_text(s: Seq<Tile>, row: int) -> Seq<char> {
    "⬜"@ + glyph(cell(s, 0, row)) + glyph(cell(s, 1, row)) + glyph(cell(s, 2, row)) + glyph(
        cell(s, 3, row),
    ) + "⬜\n"@
}

/// The trailing announcement line: the winner, no winner on a draw, or
/// nothing while the game is ongoing.
pub open spec fn status_text(s: Seq<Tile>) -> Seq<char> {
    match spec_status(s) {
        GameStatus::Won(t) => glyph(t) + " wins!\n"@,
        GameStatus::Drawn => "No winner.\n"@,
        GameStatus::Ongoing => Seq::empty(),
    }
}

/// The full rendering: the four rows top-first, a border line, and the
/// announcement line when the game is over.
pub open spec fn spec_render(s: Seq<Tile>) -> Seq<char> {
    row_text(s, 3) + row_text(s, 2) + row_text(s, 1) + row_text(s, 0) + "⬜⬜⬜⬜⬜⬜\n"@
        + status_text(s)
}

impl Tile {
    /// The glyph this tile is rendered as.
    pub fn emoji(&self) -> (g: &'static str)
        ensures
            g@ == glyph(*self),
    {
        match self {
            Tile::Empty => "⬛",
            Tile::Cookie => "🍪",
            Tile::Milk => "🥛",
        }
    }
}

/// A 4x4 board. Its view is the flat 16-cell grid sequence.
pub struct Connect4 {
    board: [Tile; 16],
}

impl View for Connect4 {
    type V = Seq<Tile>;

    closed spec fn view(&self) -> Seq<Tile> {
        self.board@
    }
}

impl Connect4 {
    /// A board with every cell empty.
    pub fn empty() -> (board: Connect4)
        ensures
            board@ == empty_board(),
    {
        let board = Connect4 { board: [Tile::Empty; 16] };
        proof {
            assert(board@ =~= empty_board());
        }
        board
    }

    /// The tile at `(col, row)`, 0-based, row 0 at the bottom.
    pub fn cell_at(&self, col: usize, row: usize) -> (t: Tile)
        requires
            col < 4,
            row < 4,
        ensures
            t == cell(self@, col as int, row as int),
    {
        self.board[col * 4 + row]
    }

    /// Writes `tile` at `(col, row)` directly, without gravity or validation.
    /// The random generator and test setups use this; ordinary play goes
    /// through [`Connect4::play`].
    pub fn set_cell(&mut self, col: usize, row: usize, tile: Tile)
        requires
            col < 4,
            row < 4,
        ensures
            final(self)@ == old(self)@.update(col as int * 4 + row as int, tile),
    {
        self.board[col * 4 + row] = tile;
    }

    /// The common mark of four cells when all four carry it, `Tile::Empty`
    /// otherwise.
    fn quad(&self, i: usize, j: usize, k: usize, l: usize) -> (t: Tile)
        requires
            i < 16,
            j < 16,
            k < 16,
            l < 16,
        ensures
            t == quad_winner(self@, i as int, j as int, k as int, l as int),
    {
        let a = self.board[i];
        if a != Tile::Empty && a == self.board[j] && a == self.board[k] && a == self.board[l] {
            a
        } else {
            Tile::Empty
        }
    }

    /// Classifies the current grid. A pure query: it reads the grid from
    /// scratch on every call and changes nothing.
    pub fn status(&self) -> (st: GameStatus)
        ensures
            st == spec_status(self@),
    {
        // Rows, from the top row down.
        let mut above: usize = 4;
        while above > 0
            invariant
                above <= 4,
                self@.len() == 16,
                forall|q: int| above <= q < 4 ==> row_winner(self@, q) == Tile::Empty,
            decreases above,
        {
            let row = above - 1;
            let t = self.quad(row, 4 + row, 8 + row, 12 + row);
            if t != Tile::Empty {
                return GameStatus::Won(t);
            }
            above = above - 1;
        }
        // Columns.
        let mut col: usize = 0;
        while col < 4
            invariant
                col <= 4,
                self@.len() == 16,
                forall|q: int| 0 <= q < 4 ==> row_winner(self@, q) == Tile::Empty,
                forall|q: int| 0 <= q < col ==> col_winner(self@, q) == Tile::Empty,
            decreases 4 - col,
        {
            let t = self.quad(col * 4, col * 4 + 1, col * 4 + 2, col * 4 + 3);
            if t != Tile::Empty {
                return GameStatus::Won(t);
            }
            col = col + 1;
        }
        // Diagonals, the falling one first.
        let t = self.quad(3, 6, 9, 12);
        if t != Tile::Empty {
            return GameStatus::Won(t);
        }
        let t = self.quad(0, 5, 10, 15);
        if t != Tile::Empty {
            return GameStatus::Won(t);
        }
        // A full board with no line is a draw.
        let mut i: usize = 0;
        while i < 16
            invariant
                i <= 16,
                self@.len() == 16,
                winning_tile(self@) == Tile::Empty,
                forall|q: int| 0 <= q < i ==> self@[q] != Tile::Empty,
            decreases 16 - i,
        {
            if self.board[i] == Tile::Empty {
                return GameStatus::Ongoing;
            }
            i = i + 1;
        }
        GameStatus::Drawn
    }

    /// Applies one move: drops `team` into the 1-based column `col_idx`.
    ///
    /// Exactly one cell changes on success; nothing changes on failure. The
    /// column index is checked first, then whether the game is over, then
    /// whether the column has room.
    pub fn play(&mut self, team: Tile, col_idx: usize) -> (result: Result<(), MoveError>)
        ensures
            final(self)@ == spec_play(old(self)@, team, col_idx as int).0,
            result == spec_play(old(self)@, team, col_idx as int).1,
    {
        if col_idx < 1 || col_idx > 4 {
            return Err(MoveError::InvalidColumn);
        }
        match self.status() {
            GameStatus::Ongoing => {},
            _ => {
                return Err(MoveError::GameOver);
            },
        }
        let col = col_idx - 1;
        let mut row: usize = 0;
        while row < 4
            invariant
                row <= 4,
                col == col_idx - 1,
                1 <= col_idx <= 4,
                self@ == old(self)@,
                spec_status(self@) == GameStatus::Ongoing,
                forall|q: int| 0 <= q < row ==> cell(self@, col as int, q) != Tile::Empty,
            decreases 4 - row,
        {
            if self.cell_at(col, row) == Tile::Empty {
                self.set_cell(col, row, team);
                return Ok(());
            }
            row = row + 1;
        }
        Err(MoveError::ColumnFull)
    }

    /// Renders the grid as text: one line per row, top row first, each cell as
    /// its glyph between wall glyphs, then a border line, then the
    /// announcement line when the game is over.
    pub fn render(&self) -> (text: String)
        ensures
            text@ == spec_render(self@),
    {
        let mut out = String::new();
        self.push_row(&mut out, 3);
        self.push_row(&mut out, 2);
        self.push_row(&mut out, 1);
        self.push_row(&mut out, 0);
        out.append("⬜⬜⬜⬜⬜⬜\n");
        match self.status() {
            GameStatus::Won(t) => {
                out.append(t.emoji());
                out.append(" wins!\n");
            },
            GameStatus::Drawn => {
                out.append("No winner.\n");
            },
            GameStatus::Ongoing => {},
        }
        proof {
            assert(out@ =~= spec_render(self@));
        }
        out
    }

    /// Appends one rendered grid line for `row` to `out`.
    fn push_row(&self, out: &mut String, row: usize)
        requires
            row < 4,
        ensures
            final(out)@ == old(out)@ + row_text(self@, row as int),
    {
        out.append("⬜");
        out.append(self.cell_at(0, row).emoji());
        out.append(self.cell_at(1, row).emoji());
        out.append(self.cell_at(2, row).emoji());
        out.append(self.cell_at(3, row).emoji());
        out.append("⬜\n");
        proof {
            assert(out@ =~= old(out)@ + row_text(self@, row as int));
        }
    }
}

} // verus!
