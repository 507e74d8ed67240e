use milk_cookies::board::Board;
use milk_cookies::grid::BoardValue::{self, Cookie, Empty, Milk};
use milk_cookies::grid::{GameStatus, PlacementError};

fn place_ok(b: &mut Board, team: BoardValue, column: usize) -> String {
    match b.place(team, column) {
        Ok(s) => s,
        Err(e) => panic!("placement unexpectedly failed: {:?}", e),
    }
}

/// Build a full board with no winning line: every column alternates and the
/// two diagonals are mixed, so the game ends in a draw.
fn drawn_board() -> Board {
    let mut b = Board::new();
    for team in [Milk, Cookie, Milk, Cookie] {
        place_ok(&mut b, team, 0);
    }
    for team in [Cookie, Milk, Cookie, Milk] {
        place_ok(&mut b, team, 1);
    }
    for team in [Cookie, Milk, Cookie, Milk] {
        place_ok(&mut b, team, 2);
    }
    for team in [Milk, Cookie, Milk, Cookie] {
        place_ok(&mut b, team, 3);
    }
    b
}

#[test]
fn place_lands_in_bottom_most_cell_of_each_empty_column() {
    for column in 0..4 {
        let mut b = Board::new();
        let r = b.place(BoardValue::Cookie, column);
        assert!(r.is_ok());
        assert_eq!(b.grid[12 + column], BoardValue::Cookie);
        for i in 0..16 {
            if i != 12 + column {
                assert_eq!(b.grid[i], BoardValue::Empty);
            }
        }
    }
}

#[test]
fn gravity_stacks_tokens_upward() {
    let mut b = Board::new();
    place_ok(&mut b, BoardValue::Milk, 1);
    place_ok(&mut b, BoardValue::Cookie, 1);
    place_ok(&mut b, BoardValue::Milk, 1);
    assert_eq!(b.grid[13], BoardValue::Milk); // row 3, bottom
    assert_eq!(b.grid[9], BoardValue::Cookie); // row 2
    assert_eq!(b.grid[5], BoardValue::Milk); // row 1
    assert_eq!(b.grid[1], BoardValue::Empty); // row 0 still open
}

#[test]
fn full_column_yields_column_full_and_leaves_grid_unchanged() {
    let mut b = Board::new();
    // fill column 2 with a mix that wins nothing
    for team in [Milk, Milk, Cookie, Cookie] {
        place_ok(&mut b, team, 2);
    }
    assert_eq!(b.game_status, GameStatus::InPlay);
    let before = b.grid.clone();
    let r = b.place(Milk, 2);
    assert_eq!(r.unwrap_err(), PlacementError::ColumnFull);
    assert_eq!(b.grid, before);
    assert_eq!(b.game_status, GameStatus::InPlay);
}

#[test]
fn out_of_range_column_yields_invalid_column_and_leaves_grid_unchanged() {
    let mut b = Board::new();
    let before = b.grid.clone();
    let r = b.place(BoardValue::Milk, 7);
    assert_eq!(r.unwrap_err(), PlacementError::InvalidColumn);
    assert_eq!(b.grid, before);
}

#[test]
fn empty_team_yields_invalid_team() {
    let mut b = Board::new();
    let r = b.place(BoardValue::Empty, 0);
    assert_eq!(r.unwrap_err(), PlacementError::InvalidTeam);
    assert!(b.grid.iter().all(|&v| v == BoardValue::Empty));
}

#[test]
fn placing_after_a_win_yields_game_already_over_and_grid_is_unchanged() {
    let mut b = Board::new();
    for _ in 0..4 {
        place_ok(&mut b, BoardValue::Milk, 0);
    }
    assert_eq!(b.game_status, GameStatus::Won(BoardValue::Milk));
    let before = b.grid.clone();
    let r = b.place(BoardValue::Cookie, 1);
    assert_eq!(r.unwrap_err(), PlacementError::GameAlreadyOver);
    assert_eq!(b.grid, before);
    assert_eq!(b.game_status, GameStatus::Won(BoardValue::Milk));
}

#[test]
fn placing_after_a_draw_yields_game_already_over() {
    let mut b = drawn_board();
    assert_eq!(b.game_status, GameStatus::Draw);
    let before = b.grid.clone();
    let r = b.place(BoardValue::Cookie, 0);
    assert_eq!(r.unwrap_err(), PlacementError::GameAlreadyOver);
    assert_eq!(b.grid, before);
    assert_eq!(b.game_status, GameStatus::Draw);
}

#[test]
fn full_grid_with_no_line_is_a_draw_with_no_empty_cell() {
    let b = drawn_board();
    assert_eq!(b.game_status, GameStatus::Draw);
    assert!(b.grid.iter().all(|&v| v != BoardValue::Empty));
}

#[test]
fn place_item_in_column_drops_without_validation() {
    let mut b = Board::new();
    b.place_item_in_column(Cookie, 3);
    assert_eq!(b.grid[15], Cookie); // row 3 of column 3
    assert_eq!(b.game_status, GameStatus::InPlay); // status untouched
    b.place_item_in_column(Milk, 3);
    assert_eq!(b.grid[11], Milk); // row 2 of column 3
}

#[test]
fn place_item_in_column_on_a_full_column_changes_nothing() {
    let mut b = Board::new();
    for team in [Milk, Milk, Cookie, Cookie] {
        place_ok(&mut b, team, 0);
    }
    let before = b.grid.clone();
    b.place_item_in_column(Milk, 0);
    assert_eq!(b.grid, before);
}

#[test]
fn default_board_matches_a_fresh_board() {
    let d = Board::default();
    let n = Board::new();
    assert_eq!(d.grid, n.grid);
    assert_eq!(d.game_status, n.game_status);
    assert_eq!(d.game_status, GameStatus::InPlay);
}

#[test]
fn reset_returns_to_in_play_with_all_cells_empty() {
    let mut b = Board::new();
    for _ in 0..4 {
        place_ok(&mut b, BoardValue::Milk, 0);
    }
    assert_eq!(b.game_status, GameStatus::Won(BoardValue::Milk));
    b.reset();
    assert_eq!(b.game_status, GameStatus::InPlay);
    assert!(b.grid.iter().all(|&v| v == BoardValue::Empty));
    assert_eq!(b.grid.len(), 16);

    // reset also recovers from a drawn board
    let mut d = drawn_board();
    d.reset();
    assert_eq!(d.game_status, GameStatus::InPlay);
    assert!(d.grid.iter().all(|&v| v == BoardValue::Empty));
}
