use milk_cookies::board::{Board, RANDOM_FILL_SEED};
use milk_cookies::grid::{BoardValue, GameStatus};

use rand::rngs::StdRng;
use rand::{Rng, SeedableRng};

#[test]
fn random_fill_leaves_no_empty_cell_and_a_terminal_status() {
    let mut b = Board::new();
    b.random_fill();
    assert!(b.grid.iter().all(|&v| v != BoardValue::Empty));
    assert!(matches!(
        b.game_status,
        GameStatus::Won(_) | GameStatus::Draw
    ));
    assert_ne!(b.game_status, GameStatus::InPlay);
}

#[test]
fn random_fill_after_reset_is_reproducible_across_instances() {
    let mut b1 = Board::new();
    b1.reset();
    let s1 = b1.random_fill();

    let mut b2 = Board::new();
    b2.reset();
    let s2 = b2.random_fill();

    assert_eq!(b1.grid, b2.grid);
    assert_eq!(b1.game_status, b2.game_status);
    assert_eq!(s1, s2);
}

#[test]
fn random_fill_overwrites_any_prior_state() {
    let mut b = Board::new();
    for _ in 0..4 {
        b.place(BoardValue::Milk, 0).unwrap();
    }
    assert_eq!(b.game_status, GameStatus::Won(BoardValue::Milk));
    b.random_fill();
    assert!(b.grid.iter().all(|&v| v != BoardValue::Empty));

    let mut fresh = Board::new();
    fresh.random_fill();
    assert_eq!(b.grid, fresh.grid);
}

#[test]
fn random_fill_uses_the_seeded_generator_draws() {
    let mut b = Board::new();
    b.random_fill();
    let mut rng = StdRng::seed_from_u64(RANDOM_FILL_SEED);
    let expected: Vec<BoardValue> = (0..16)
        .map(|_| {
            if rng.gen::<bool>() {
                BoardValue::Cookie
            } else {
                BoardValue::Milk
            }
        })
        .collect();
    assert_eq!(b.grid, expected);
}

#[test]
fn fill_grid_from_draws_maps_true_to_cookie_and_false_to_milk() {
    let mut b = Board::new();
    let mut draws = vec![false; 16];
    draws[0] = true;
    draws[5] = true;
    b.fill_grid_from_draws(&draws);
    for i in 0..16 {
        let expected = if draws[i] {
            BoardValue::Cookie
        } else {
            BoardValue::Milk
        };
        assert_eq!(b.grid[i], expected);
    }
}
