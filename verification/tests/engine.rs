use connect_four::Connect4;
use connect_four::GameStatus;
use connect_four::MoveError;
use connect_four::Tile;

const EMPTY_RENDER: &str = "\
⬜⬛⬛⬛⬛⬜\n\
⬜⬛⬛⬛⬛⬜\n\
⬜⬛⬛⬛⬛⬜\n\
⬜⬛⬛⬛⬛⬜\n\
⬜⬜⬜⬜⬜⬜\n";

/// Fills the board with a pattern that is full but has no line of four:
/// rows, bottom to top, read Cookie Cookie Milk Milk / Milk Milk Cookie
/// Cookie, alternating.
fn fill_no_line(board: &mut Connect4) {
    for col in 0..4 {
        for row in 0..4 {
            let cookie_row = if col < 2 { row % 2 == 0 } else { row % 2 == 1 };
            let tile = if cookie_row { Tile::Cookie } else { Tile::Milk };
            board.set_cell(col, row, tile);
        }
    }
}

#[test]
fn first_four_calls_fill_column_fifth_is_full() {
    for col in 1..=4usize {
        let mut board = Connect4::empty();
        let tiles = [Tile::Cookie, Tile::Milk, Tile::Milk, Tile::Cookie];
        for (row, tile) in tiles.iter().enumerate() {
            assert!(board.play(*tile, col).is_ok());
            assert_eq!(board.cell_at(col - 1, row), *tile);
        }
        assert!(matches!(
            board.play(Tile::Cookie, col),
            Err(MoveError::ColumnFull)
        ));
    }
}

#[test]
fn out_of_range_column_is_invalid_regardless_of_board() {
    let mut board = Connect4::empty();
    assert!(matches!(
        board.play(Tile::Cookie, 0),
        Err(MoveError::InvalidColumn)
    ));
    assert!(matches!(
        board.play(Tile::Milk, 5),
        Err(MoveError::InvalidColumn)
    ));
    // Still invalid-column, not game-over, once the game is won.
    for _ in 0..4 {
        board.play(Tile::Cookie, 1).unwrap();
    }
    assert!(matches!(board.status(), GameStatus::Won(Tile::Cookie)));
    assert!(matches!(
        board.play(Tile::Milk, 0),
        Err(MoveError::InvalidColumn)
    ));
    assert!(matches!(
        board.play(Tile::Milk, 5),
        Err(MoveError::InvalidColumn)
    ));
}

#[test]
fn won_board_rejects_moves_in_open_columns() {
    let mut board = Connect4::empty();
    for _ in 0..4 {
        board.play(Tile::Milk, 2).unwrap();
    }
    assert!(matches!(board.status(), GameStatus::Won(Tile::Milk)));
    // Column 1 is entirely empty, yet the move is rejected.
    assert!(matches!(
        board.play(Tile::Cookie, 1),
        Err(MoveError::GameOver)
    ));
}

#[test]
fn drawn_board_rejects_moves() {
    let mut board = Connect4::empty();
    fill_no_line(&mut board);
    assert!(matches!(board.status(), GameStatus::Drawn));
    assert!(matches!(
        board.play(Tile::Cookie, 1),
        Err(MoveError::GameOver)
    ));
}

#[test]
fn each_row_line_wins() {
    for row in 0..4 {
        let mut board = Connect4::empty();
        for col in 0..4 {
            board.set_cell(col, row, Tile::Cookie);
        }
        assert!(matches!(board.status(), GameStatus::Won(Tile::Cookie)));
    }
}

#[test]
fn each_column_line_wins() {
    for col in 0..4 {
        let mut board = Connect4::empty();
        for row in 0..4 {
            board.set_cell(col, row, Tile::Milk);
        }
        assert!(matches!(board.status(), GameStatus::Won(Tile::Milk)));
    }
}

#[test]
fn each_diagonal_line_wins() {
    let mut board = Connect4::empty();
    for i in 0..4 {
        board.set_cell(i, i, Tile::Cookie);
    }
    assert!(matches!(board.status(), GameStatus::Won(Tile::Cookie)));

    let mut board = Connect4::empty();
    for i in 0..4 {
        board.set_cell(i, 3 - i, Tile::Milk);
    }
    assert!(matches!(board.status(), GameStatus::Won(Tile::Milk)));
}

#[test]
fn scan_order_reports_the_topmost_row_first() {
    // Two winning lines at once (only reachable through direct placement):
    // the scan runs rows from the top down, so the top row's mark is reported.
    let mut board = Connect4::empty();
    for col in 0..4 {
        board.set_cell(col, 3, Tile::Cookie);
        board.set_cell(col, 0, Tile::Milk);
    }
    assert!(matches!(board.status(), GameStatus::Won(Tile::Cookie)));
}

#[test]
fn full_board_without_line_is_drawn() {
    let mut board = Connect4::empty();
    fill_no_line(&mut board);
    assert!(matches!(board.status(), GameStatus::Drawn));
}

#[test]
fn board_with_empty_cell_and_no_line_is_ongoing() {
    let mut board = Connect4::empty();
    assert!(matches!(board.status(), GameStatus::Ongoing));
    fill_no_line(&mut board);
    board.set_cell(3, 3, Tile::Empty);
    assert!(matches!(board.status(), GameStatus::Ongoing));
}

#[test]
fn status_is_idempotent() {
    let mut board = Connect4::empty();
    assert_eq!(board.status(), board.status());
    board.play(Tile::Cookie, 2).unwrap();
    let first = board.status();
    assert_eq!(first, board.status());
    assert_eq!(first, board.status());
    for _ in 0..3 {
        board.play(Tile::Cookie, 2).unwrap();
    }
    assert_eq!(board.status(), board.status());
}

#[test]
fn winning_scenario_in_column_one() {
    let mut board = Connect4::empty();
    for _ in 0..4 {
        assert!(board.play(Tile::Cookie, 1).is_ok());
    }
    assert!(matches!(board.status(), GameStatus::Won(Tile::Cookie)));
    let text = board.render();
    assert!(text.contains("🍪 wins!\n"));
    assert!(matches!(
        board.play(Tile::Cookie, 1),
        Err(MoveError::GameOver)
    ));
}

#[test]
fn alternating_moves_fill_board_to_a_draw() {
    let mut board = Connect4::empty();
    let columns = [1, 3, 2, 4, 3, 1, 4, 2, 1, 3, 2, 4, 3, 1, 4, 2];
    for (i, col) in columns.iter().enumerate() {
        assert!(matches!(board.status(), GameStatus::Ongoing));
        let tile = if i % 2 == 0 { Tile::Cookie } else { Tile::Milk };
        assert!(board.play(tile, *col).is_ok());
    }
    assert!(matches!(board.status(), GameStatus::Drawn));
    assert!(board.render().ends_with("No winner.\n"));
}

#[test]
fn render_of_empty_board_is_exact() {
    let board = Connect4::empty();
    assert_eq!(board.render(), EMPTY_RENDER);
}

#[test]
fn render_of_won_board_is_exact() {
    let mut board = Connect4::empty();
    for _ in 0..4 {
        board.play(Tile::Cookie, 1).unwrap();
    }
    let expected = "\
⬜🍪⬛⬛⬛⬜\n\
⬜🍪⬛⬛⬛⬜\n\
⬜🍪⬛⬛⬛⬜\n\
⬜🍪⬛⬛⬛⬜\n\
⬜⬜⬜⬜⬜⬜\n\
🍪 wins!\n";
    assert_eq!(board.render(), expected);
}

#[test]
fn render_of_drawn_board_announces_no_winner() {
    let mut board = Connect4::empty();
    fill_no_line(&mut board);
    assert!(board.render().ends_with("⬜⬜⬜⬜⬜⬜\nNo winner.\n"));
}

#[test]
fn placing_the_empty_tile_leaves_the_cell_empty() {
    let mut board = Connect4::empty();
    // The engine does not police the tile a caller supplies; an empty tile
    // writes an empty cell, so the column does not rise.
    assert!(board.play(Tile::Empty, 1).is_ok());
    assert_eq!(board.cell_at(0, 0), Tile::Empty);
    assert!(board.play(Tile::Cookie, 1).is_ok());
    assert_eq!(board.cell_at(0, 0), Tile::Cookie);
}
