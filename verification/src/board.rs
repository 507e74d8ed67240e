//! The board itself and the engine's operations: construction and reset,
//! gravity-drop placement with full validation, winner detection, and the
//! seeded full-board generator.

use vstd::prelude::*;

use crate::grid::{
    cell, column_has_space, empty_grid, first_win_from, grid_of_draws, grid_wf, has_winner,
    is_full, lemma_empty_grid_in_play, lemma_first_win_from, lemma_line_cell_bounds,
    lemma_lowest_empty, lemma_verdict, lemma_win_matches_placed_team, line_cell, line_wins,
    lowest_empty, verdict, BoardValue, GameStatus, PlacementError,
};
use crate::render::render_state;
use crate::rng::{fill_draws, seeded_fill_draws};

verus! {

/// The fixed constant the full-board generator is seeded with, so that a
/// reset followed by a random fill is reproducible.
pub const RANDOM_FILL_SEED: u64 = 2024;

/// The 4x4 board: the grid, row-major with row 0 the top row as rendered,
/// and the current game status. The status is set by the engine exactly once
/// per terminal detection; once it is `Won` or `Draw` no placement mutates
/// the grid, so the status always agrees with the verdict over the grid.
pub struct Board {
    pub grid: Vec<BoardValue>,
    pub game_status: GameStatus,
}

impl Board {
    /// The grid holds exactly its 16 cells.
    pub open spec fn grid_ok(self) -> bool {
        grid_wf(self.grid@)
    }

    /// Well-formedness: a well-shaped grid whose recorded status agrees with
    /// the verdict over it. Constructors establish this and every operation
    /// preserves it.
    pub open spec fn wf(self) -> bool {
        &&& self.grid_ok()
        &&& self.game_status == verdict(self.grid@)
    }

    /// A fresh board: all cells `Empty`, status `InPlay`.
    pub fn new() -> (b: Board)
        ensures
            b.wf(),
            b.grid@ == empty_grid(),
            b.game_status == GameStatus::InPlay,
    {
        let grid: Vec<BoardValue> = vec![BoardValue::Empty; 16];
        proof {
            assert(grid@ =~= empty_grid());
            lemma_empty_grid_in_play();
        }
        Board { grid, game_status: GameStatus::InPlay }
    }

    /// Whether the game is still in play in the sense of the draw rule: true
    /// exactly when some cell of the grid is still `Empty`.
    pub fn check_if_grid_is_still_in_play(&self) -> (r: bool)
        requires
            self.grid_ok(),
        ensures
            r <==> !is_full(self.grid@),
    {
        let mut i: usize = 0;
        while i < 16
            invariant
                self.grid_ok(),
                i <= 16,
                forall|j: int| 0 <= j < i ==> #[trigger] self.grid@[j] != BoardValue::Empty,
            decreases 16 - i,
        {
            if self.grid[i] == BoardValue::Empty {
                return true;
            }
            i += 1;
        }
        false
    }

    /// The top-to-bottom sequence of the four cells of column `idx`.
    pub fn get_column(&self, idx: usize) -> (r: Vec<BoardValue>)
        requires
            self.grid_ok(),
            idx < 4,
        ensures
            r@.len() == 4,
            forall|j: int| 0 <= j < 4 ==> #[trigger] r@[j] == cell(self.grid@, j, idx as int),
    {
        let mut r: Vec<BoardValue> = Vec::new();
        r.push(self.grid[idx]);
        r.push(self.grid[4 + idx]);
        r.push(self.grid[8 + idx]);
        r.push(self.grid[12 + idx]);
        r
    }

    /// The row the gravity-drop rule fills in `column`: the bottom-most row
    /// whose cell is `Empty`, scanning from the last row upward, or `None` if
    /// the column is full.
    pub fn lowest_empty_row(&self, column: usize) -> (r: Option<usize>)
        requires
            self.grid_ok(),
            column < 4,
        ensures
            r matches Some(row) ==> row == lowest_empty(self.grid@, column as int) && row < 4,
            r is None <==> !column_has_space(self.grid@, column as int),
    {
        proof {
            lemma_lowest_empty(self.grid@, column as int);
        }
        let ghost g = self.grid@;
        let ghost c = column as int;
        let mut row: usize = 4;
        while row > 0
            invariant
                self.grid_ok(),
                self.grid@ == g,
                column < 4,
                c == column as int,
                row <= 4,
                lowest_empty(g, c) == crate::grid::lowest_empty_from(g, c, row as int - 1),
            decreases row,
        {
            row -= 1;
            if self.grid[row * 4 + column] == BoardValue::Empty {
                assert(cell(g, row as int, c) == BoardValue::Empty);
                return Some(row);
            }
            assert(cell(g, row as int, c) != BoardValue::Empty);
        }
        assert(lowest_empty(g, c) == -1);
        None
    }

    /// Gravity-drop a value into `column` with no validation: the bottom-most
    /// `Empty` cell of the column, if any, takes `item`; a full column leaves
    /// the grid unchanged. Exactly one cell is written and the status is not
    /// touched.
    pub fn place_item_in_column(&mut self, item: BoardValue, column: usize)
        requires
            old(self).grid_ok(),
            column < 4,
        ensures
            final(self).grid_ok(),
            final(self).game_status == old(self).game_status,
            column_has_space(old(self).grid@, column as int) ==> final(self).grid@
                == old(self).grid@.update(lowest_empty(old(self).grid@, column as int) * 4 + column, item),
            !column_has_space(old(self).grid@, column as int) ==> final(self).grid@ == old(self).grid@,
    {
        proof {
            lemma_lowest_empty(old(self).grid@, column as int);
        }
        match self.lowest_empty_row(column) {
            Some(row) => {
                self.grid.set(row * 4 + column, item);
            },
            None => {},
        }
    }
}

impl Board {
    /// Reinitialize the board: all cells `Empty`, status `InPlay`, whatever
    /// the prior state was. Returns the rendered state; never fails.
    pub fn reset(&mut self) -> (r: String)
        ensures
            final(self).wf(),
            final(self).grid@ == empty_grid(),
            final(self).game_status == GameStatus::InPlay,
            r@ == render_state(empty_grid(), GameStatus::InPlay),
    {
        *self = Board::new();
        self.get_current_state()
    }

    /// Overwrite every cell of the grid from sixteen boolean draws, one draw
    /// per cell: `Cookie` on true, `Milk` on false. The status is not touched.
    pub fn fill_grid_from_draws(&mut self, draws: &Vec<bool>)
        requires
            old(self).grid_ok(),
            draws@.len() == 16,
        ensures
            final(self).grid_ok(),
            final(self).grid@ == grid_of_draws(draws@),
            final(self).game_status == old(self).game_status,
    {
        let ghost st0 = self.game_status;
        let mut i: usize = 0;
        while i < 16
            invariant
                self.grid_ok(),
                draws@.len() == 16,
                i <= 16,
                self.game_status == st0,
                forall|j: int| 0 <= j < i ==> #[trigger] self.grid@[j] == grid_of_draws(draws@)[j],
            decreases 16 - i,
        {
            let v = if draws[i] {
                BoardValue::Cookie
            } else {
                BoardValue::Milk
            };
            self.grid.set(i, v);
            i += 1;
        }
        proof {
            assert(self.grid@ =~= grid_of_draws(draws@));
        }
    }

    /// Replace the whole state: fill all sixteen cells from a generator
    /// seeded with the fixed constant, discard any prior status, and run the
    /// winner detection once. The grid is left with no `Empty` cell, so the
    /// status is `Won` or `Draw`, never `InPlay`; the resulting grid is a
    /// function of the seed alone, so two boards filled after a reset come
    /// out identical. Returns the rendered state; never fails.
    pub fn random_fill(&mut self) -> (r: String)
        requires
            old(self).grid_ok(),
        ensures
            final(self).wf(),
            final(self).grid@ == grid_of_draws(fill_draws(RANDOM_FILL_SEED)),
            is_full(final(self).grid@),
            final(self).game_status == verdict(final(self).grid@),
            !(final(self).game_status is InPlay),
            r@ == render_state(final(self).grid@, final(self).game_status),
    {
        let draws = seeded_fill_draws(RANDOM_FILL_SEED);
        self.fill_grid_from_draws(&draws);
        let status = self.detect_winner();
        self.game_status = status;
        proof {
            assert(is_full(self.grid@)) by {
                assert forall|i: int| 0 <= i < 16 implies #[trigger] self.grid@[i]
                    != BoardValue::Empty by {
                    assert(self.grid@[i] == grid_of_draws(draws@)[i]);
                }
            }
            lemma_verdict(self.grid@);
        }
        self.get_current_state()
    }

    /// Validate and apply one gravity-drop move. The failure modes, checked
    /// in this order: `InvalidTeam` if `team` is the sentinel `Empty`;
    /// `InvalidColumn` if `column` is outside `0..4`; `GameAlreadyOver` if
    /// the status is not `InPlay`; `ColumnFull` if the column has no empty
    /// cell. Every failure leaves the board unchanged. On success the token
    /// lands in the bottom-most empty cell of the column — exactly one cell
    /// is written — the winner detection runs over the whole grid, the status
    /// is updated, and the new rendered state is returned; in particular, if
    /// the move completes any line, the status becomes `Won` of the placing
    /// team.
    pub fn place(&mut self, team: BoardValue, column: usize) -> (r: Result<
        String,
        PlacementError,
    >)
        requires
            old(self).wf(),
        ensures
            final(self).wf(),
            r is Err ==> final(self).grid@ == old(self).grid@ && final(self).game_status == old(
                self,
            ).game_status,
            (r matches Err(e) && e == PlacementError::InvalidTeam) <==> team == BoardValue::Empty,
            (r matches Err(e) && e == PlacementError::InvalidColumn) <==> (team
                != BoardValue::Empty && column >= 4),
            (r matches Err(e) && e == PlacementError::GameAlreadyOver) <==> (team
                != BoardValue::Empty && column < 4 && !(old(self).game_status is InPlay)),
            (r matches Err(e) && e == PlacementError::ColumnFull) <==> (team != BoardValue::Empty
                && column < 4 && old(self).game_status is InPlay && !column_has_space(
                old(self).grid@,
                column as int,
            )),
            r is Ok <==> (team != BoardValue::Empty && column < 4 && old(
                self,
            ).game_status is InPlay && column_has_space(old(self).grid@, column as int)),
            r is Ok ==> {
                let row = lowest_empty(old(self).grid@, column as int);
                &&& final(self).grid@ == old(self).grid@.update(row * 4 + column, team)
                &&& cell(final(self).grid@, row, column as int) == team
                &&& final(self).game_status == verdict(final(self).grid@)
                &&& (has_winner(final(self).grid@) ==> final(self).game_status == GameStatus::Won(
                    team,
                ))
            },
            r matches Ok(s) ==> s@ == render_state(final(self).grid@, final(self).game_status),
            // tokens are never removed or overwritten: only an empty cell can change
            forall|i: int| 0 <= i < 16 && #[trigger] old(self).grid@[i] != BoardValue::Empty
                ==> final(self).grid@[i] == old(self).grid@[i],
    {
        let ghost g0 = self.grid@;
        if team == BoardValue::Empty {
            return Err(PlacementError::InvalidTeam);
        }
        if column >= 4 {
            return Err(PlacementError::InvalidColumn);
        }
        match self.game_status {
            GameStatus::InPlay => {},
            _ => {
                return Err(PlacementError::GameAlreadyOver);
            },
        }
        match self.lowest_empty_row(column) {
            None => Err(PlacementError::ColumnFull),
            Some(row) => {
                proof {
                    lemma_lowest_empty(g0, column as int);
                }
                self.grid.set(row * 4 + column, team);
                let status = self.detect_winner();
                self.game_status = status;
                proof {
                    lemma_verdict(g0);
                    if has_winner(self.grid@) {
                        lemma_win_matches_placed_team(
                            g0,
                            team,
                            row as int * 4 + column as int,
                        );
                    }
                }
                Ok(self.get_current_state())
            },
        }
    }

    /// The four cells of scan line `k`, in line order.
    fn line_values(&self, k: usize) -> (r: Vec<BoardValue>)
        requires
            self.grid_ok(),
            k < 10,
        ensures
            r@.len() == 4,
            forall|j: int| 0 <= j < 4 ==> #[trigger] r@[j] == self.grid@[line_cell(k as int, j)],
    {
        let mut r: Vec<BoardValue> = Vec::new();
        r.push(self.grid[line_index(k, 0)]);
        r.push(self.grid[line_index(k, 1)]);
        r.push(self.grid[line_index(k, 2)]);
        r.push(self.grid[line_index(k, 3)]);
        r
    }

    /// The verdict over the current grid: `Won(team)` of the first uniformly
    /// non-empty line in the fixed scan order (rows, columns, main diagonal,
    /// anti-diagonal), else `Draw` on a full grid, else `InPlay`. Pure: the
    /// board is not mutated.
    pub fn detect_winner(&self) -> (r: GameStatus)
        requires
            self.grid_ok(),
        ensures
            r == verdict(self.grid@),
    {
        let ghost g = self.grid@;
        let mut k: usize = 0;
        while k < 10
            invariant
                self.grid_ok(),
                self.grid@ == g,
                k <= 10,
                forall|i: int| 0 <= i < k ==> !#[trigger] line_wins(g, i),
            decreases 10 - k,
        {
            let vals = self.line_values(k);
            let res = check_if_all_lines_are_the_same(vals.as_slice());
            if res.0 {
                proof {
                    assert(line_wins(g, k as int)) by {
                        assert(vals@[0] == g[line_cell(k as int, 0)]);
                        assert forall|j: int| 0 <= j < 4 implies g[#[trigger] line_cell(
                            k as int,
                            j,
                        )] == g[line_cell(k as int, 0)] by {
                            assert(vals@[j] == g[line_cell(k as int, j)]);
                            assert(vals@[j] == vals@[0]);
                        }
                    }
                    lemma_first_win_from(g, 0);
                    assert(first_win_from(g, 0) == k as int);
                }
                return GameStatus::Won(res.1);
            }
            proof {
                assert(!line_wins(g, k as int)) by {
                    if line_wins(g, k as int) {
                        assert(vals@[0] == g[line_cell(k as int, 0)]);
                        assert forall|i: int| 0 <= i < 4 implies #[trigger] vals@[i]
                            == vals@[0] by {
                            assert(vals@[i] == g[line_cell(k as int, i)]);
                            assert(g[line_cell(k as int, i)] == g[line_cell(k as int, 0)]);
                        }
                    }
                }
            }
            k += 1;
        }
        proof {
            lemma_first_win_from(g, 0);
        }
        if self.check_if_grid_is_still_in_play() {
            GameStatus::InPlay
        } else {
            GameStatus::Draw
        }
    }
}

impl Default for Board {
    /// A fresh board, as `Board::new` builds it.
    fn default() -> (b: Board)
        ensures
            b.wf(),
            b.grid@ == empty_grid(),
            b.game_status == GameStatus::InPlay,
    {
        Board::new()
    }
}

/// The grid index of the `j`-th cell of scan line `k`.
fn line_index(k: usize, j: usize) -> (i: usize)
    requires
        k < 10,
        j < 4,
    ensures
        i as int == line_cell(k as int, j as int),
        i < 16,
{
    proof {
        lemma_line_cell_bounds(k as int, j as int);
    }
    if k < 4 {
        k * 4 + j
    } else if k < 8 {
        j * 4 + (k - 4)
    } else if k == 8 {
        j * 4 + j
    } else {
        (3 - j) * 4 + j
    }
}

/// Whether every cell of a line holds the same non-empty token, paired with
/// the line's first cell. The boolean is true exactly when the first cell is
/// a token and every cell equals it.
pub fn check_if_all_lines_are_the_same(line: &[BoardValue]) -> (r: (bool, BoardValue))
    requires
        line@.len() > 0,
    ensures
        r.1 == line@[0],
        r.0 <==> (line@[0] != BoardValue::Empty
            && forall|i: int| 0 <= i < line@.len() ==> #[trigger] line@[i] == line@[0]),
{
    let val = line[0];
    if val == BoardValue::Empty {
        return (false, val);
    }
    let mut i: usize = 0;
    while i < line.len()
        invariant
            i <= line@.len(),
            val == line@[0],
            forall|j: int| 0 <= j < i ==> #[trigger] line@[j] == line@[0],
        decreases line@.len() - i,
    {
        if line[i] != val {
            return (false, val);
        }
        i += 1;
    }
    (true, val)
}

} // verus!
