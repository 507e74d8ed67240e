//! The mathematical model of the 4x4 grid: cell values, line geometry, the
//! winner verdict, and the gravity-drop rule, together with the lemmas that
//! the engine's contracts rest on.
//!
//! A grid is modelled as a row-major `Seq<BoardValue>` of length 16; row 0 is
//! the top row as rendered, row 3 the bottom row. Ten lines are checked for a
//! win, in this fixed order: the 4 rows, the 4 columns, the main diagonal
//! (top-left to bottom-right), and the anti-diagonal (bottom-left to
//! top-right).

use vstd::prelude::*;

verus! {

/// The value held by one cell of the grid: one of the two placeable tokens,
/// or `Empty` for an unoccupied cell. `Empty` is never a placeable team.
#[derive(Clone, Copy, Debug, Default, PartialEq, Eq, Structural)]
pub enum BoardValue {
    Cookie,
    Milk,
    #[default]
    Empty,
}

/// The game status: an explicit three-way tag, set by the engine exactly once
/// per terminal detection and frozen thereafter.
#[derive(Clone, Copy, Debug, PartialEq, Eq, Structural)]
pub enum GameStatus {
    InPlay,
    Won(BoardValue),
    Draw,
}

/// Why a placement was rejected; every error leaves the board untouched.
#[derive(Clone, Copy, Debug, PartialEq, Eq, Structural)]
pub enum PlacementError {
    /// The team argument is the sentinel "no token" value.
    InvalidTeam,
    /// The column index is outside the valid range `0..4`.
    InvalidColumn,
    /// The chosen column has no empty cell.
    ColumnFull,
    /// Placement was attempted when the status is `Won` or `Draw`.
    GameAlreadyOver,
}

/// A well-shaped grid holds exactly 16 cells (4 rows of 4).
pub open spec fn grid_wf(g: Seq<BoardValue>) -> bool {
    g.len() == 16
}

/// The cell of row `r`, column `c` (row-major layout).
pub open spec fn cell(g: Seq<BoardValue>, r: int, c: int) -> BoardValue {
    g[r * 4 + c]
}

/// The grid index of the `j`-th cell of line `k`, where lines are numbered in
/// the fixed scan order: `0..4` the rows, `4..8` the columns, `8` the main
/// diagonal, `9` the anti-diagonal.
pub open spec fn line_cell(k: int, j: int) -> int {
    if k < 4 {
        k * 4 + j
    } else if k < 8 {
        j * 4 + (k - 4)
    } else if k == 8 {
        j * 4 + j
    } else {
        (3 - j) * 4 + j
    }
}

/// Line `k` wins: all four of its cells hold the same value and that value is
/// not `Empty`.
pub open spec fn line_wins(g: Seq<BoardValue>, k: int) -> bool {
    &&& g[line_cell(k, 0)] != BoardValue::Empty
    &&& forall|j: int| 0 <= j < 4 ==> g[#[trigger] line_cell(k, j)] == g[line_cell(k, 0)]
}

/// The team a winning line belongs to (its first cell).
pub open spec fn line_team(g: Seq<BoardValue>, k: int) -> BoardValue {
    g[line_cell(k, 0)]
}

/// Some line of four is uniformly one non-empty token.
pub open spec fn has_winner(g: Seq<BoardValue>) -> bool {
    exists|k: int| 0 <= k < 10 && #[trigger] line_wins(g, k)
}

/// The first winning line at or after `k` in the fixed scan order, or `-1` if
/// none of the lines `k..10` wins.
pub open spec fn first_win_from(g: Seq<BoardValue>, k: int) -> int
    decreases 10 - k,
{
    if k >= 10 {
        -1
    } else if line_wins(g, k) {
        k
    } else {
        first_win_from(g, k + 1)
    }
}

/// The grid has no `Empty` cell remaining.
pub open spec fn is_full(g: Seq<BoardValue>) -> bool {
    forall|i: int| 0 <= i < 16 ==> #[trigger] g[i] != BoardValue::Empty
}

/// The verdict over a grid: `Won(team)` of the first winning line if any line
/// wins, else `Draw` if the grid is full, else `InPlay`.
pub open spec fn verdict(g: Seq<BoardValue>) -> GameStatus {
    let k = first_win_from(g, 0);
    if k >= 0 {
        GameStatus::Won(line_team(g, k))
    } else if is_full(g) {
        GameStatus::Draw
    } else {
        GameStatus::InPlay
    }
}

/// The bottom-most empty row of column `c`, scanning from row `r` upward
/// toward row 0; `-1` if rows `0..=r` of the column are all occupied.
pub open spec fn lowest_empty_from(g: Seq<BoardValue>, c: int, r: int) -> int
    decreases r + 1,
{
    if r < 0 {
        -1
    } else if cell(g, r, c) == BoardValue::Empty {
        r
    } else {
        lowest_empty_from(g, c, r - 1)
    }
}

/// The row the gravity-drop rule fills in column `c`: the bottom-most empty
/// row, or `-1` if the column is full.
pub open spec fn lowest_empty(g: Seq<BoardValue>, c: int) -> int {
    lowest_empty_from(g, c, 3)
}

/// Column `c` has at least one empty cell.
pub open spec fn column_has_space(g: Seq<BoardValue>, c: int) -> bool {
    exists|r: int| 0 <= r < 4 && #[trigger] cell(g, r, c) == BoardValue::Empty
}

/// The grid the random full-board generator produces from a sequence of
/// boolean draws: cell `i` holds `Cookie` on a true draw and `Milk` on a
/// false one — never `Empty`.
pub open spec fn grid_of_draws(d: Seq<bool>) -> Seq<BoardValue> {
    Seq::new(16, |i: int| if d[i] { BoardValue::Cookie } else { BoardValue::Milk })
}

/// The grid a board starts from: all 16 cells unoccupied.
pub open spec fn empty_grid() -> Seq<BoardValue> {
    Seq::new(16, |i: int| BoardValue::Empty)
}

/// An all-empty grid has no winner and is not full, so its verdict is
/// `InPlay`.
pub proof fn lemma_empty_grid_in_play()
    ensures
        grid_wf(empty_grid()),
        verdict(empty_grid()) == GameStatus::InPlay,
{
    assert forall|k: int| 0 <= k < 10 implies !#[trigger] line_wins(empty_grid(), k) by {
        lemma_line_cell_bounds(k, 0);
        assert(empty_grid()[line_cell(k, 0)] == BoardValue::Empty);
    }
    assert(empty_grid()[0] == BoardValue::Empty);
    lemma_verdict(empty_grid());
}

/// Every line's cells lie inside the 16-cell grid.
pub proof fn lemma_line_cell_bounds(k: int, j: int)
    requires
        0 <= k < 10,
        0 <= j < 4,
    ensures
        0 <= line_cell(k, j) < 16,
{
}

/// What `first_win_from` returns: `-1` exactly when no line in `k..10` wins,
/// and otherwise the first winning line at or after `k`.
pub proof fn lemma_first_win_from(g: Seq<BoardValue>, k: int)
    requires
        0 <= k <= 10,
    ensures
        first_win_from(g, k) == -1 <==> (forall|i: int| k <= i < 10 ==> !#[trigger] line_wins(g, i)),
        first_win_from(g, k) != -1 ==> k <= first_win_from(g, k) < 10
            && line_wins(g, first_win_from(g, k))
            && (forall|i: int| k <= i < first_win_from(g, k) ==> !#[trigger] line_wins(g, i)),
    decreases 10 - k,
{
    if k < 10 && !line_wins(g, k) {
        lemma_first_win_from(g, k + 1);
    }
}

/// The verdict's three outcomes, characterised by `has_winner` and `is_full`:
/// a win verdict names the team of the first winning line; `Draw` means a
/// full grid with no winner; `InPlay` means a non-full grid with no winner.
pub proof fn lemma_verdict(g: Seq<BoardValue>)
    ensures
        verdict(g) is Won <==> has_winner(g),
        verdict(g) matches GameStatus::Won(t) ==> t != BoardValue::Empty
            && line_wins(g, first_win_from(g, 0)) && t == line_team(g, first_win_from(g, 0)),
        verdict(g) == GameStatus::Draw <==> !has_winner(g) && is_full(g),
        verdict(g) == GameStatus::InPlay <==> !has_winner(g) && !is_full(g),
{
    lemma_first_win_from(g, 0);
}

/// What the gravity-drop scan returns: `-1` exactly when rows `0..=r` of the
/// column hold no empty cell, and otherwise the bottom-most empty row, below
/// which every cell is occupied.
pub proof fn lemma_lowest_empty_from(g: Seq<BoardValue>, c: int, r: int)
    requires
        r <= 3,
    ensures
        lowest_empty_from(g, c, r) == -1 <==> (forall|i: int| 0 <= i <= r ==> #[trigger] cell(g, i, c) != BoardValue::Empty),
        lowest_empty_from(g, c, r) != -1 ==> 0 <= lowest_empty_from(g, c, r) <= r
            && cell(g, lowest_empty_from(g, c, r), c) == BoardValue::Empty
            && (forall|i: int| lowest_empty_from(g, c, r) < i <= r ==> #[trigger] cell(g, i, c) != BoardValue::Empty),
    decreases r + 1,
{
    if r >= 0 && cell(g, r, c) != BoardValue::Empty {
        lemma_lowest_empty_from(g, c, r - 1);
    }
}

/// The gravity-drop row exists exactly when the column has an empty cell.
pub proof fn lemma_lowest_empty(g: Seq<BoardValue>, c: int)
    ensures
        lowest_empty(g, c) == -1 <==> !column_has_space(g, c),
        lowest_empty(g, c) != -1 ==> 0 <= lowest_empty(g, c) < 4
            && cell(g, lowest_empty(g, c), c) == BoardValue::Empty
            && (forall|i: int| lowest_empty(g, c) < i < 4 ==> #[trigger] cell(g, i, c) != BoardValue::Empty),
{
    lemma_lowest_empty_from(g, c, 3);
}

/// Law: a placement that produces a uniform row, column or diagonal yields a
/// win for the placing team. From a grid with no winning line, writing a
/// token into one empty cell can only create lines of that token, so whenever
/// the new grid has a winner at all, its verdict is `Won` of the placed team.
pub proof fn lemma_win_matches_placed_team(g0: Seq<BoardValue>, t: BoardValue, idx: int)
    requires
        grid_wf(g0),
        t == BoardValue::Cookie || t == BoardValue::Milk,
        0 <= idx < 16,
        g0[idx] == BoardValue::Empty,
        !has_winner(g0),
        has_winner(g0.update(idx, t)),
    ensures
        verdict(g0.update(idx, t)) == GameStatus::Won(t),
{
    let g1 = g0.update(idx, t);
    lemma_first_win_from(g1, 0);
    let k0 = first_win_from(g1, 0);
    assert(k0 != -1) by {
        if k0 == -1 {
            let k = choose|k: int| 0 <= k < 10 && #[trigger] line_wins(g1, k);
            assert(!line_wins(g1, k));
        }
    }
    assert forall|k: int| 0 <= k < 10 && #[trigger] line_wins(g1, k) implies line_team(g1, k) == t by {
        if exists|j: int| 0 <= j < 4 && #[trigger] line_cell(k, j) == idx {
            let j = choose|j: int| 0 <= j < 4 && #[trigger] line_cell(k, j) == idx;
            assert(g1[line_cell(k, j)] == t);
            assert(g1[line_cell(k, j)] == g1[line_cell(k, 0)]);
        } else {
            // no cell of line k was touched, so the line already won in g0
            assert forall|j: int| 0 <= j < 4 implies g0[#[trigger] line_cell(k, j)] == g1[line_cell(k, j)] by {
                lemma_line_cell_bounds(k, j);
                assert(line_cell(k, j) != idx);
            }
            assert(line_wins(g0, k)) by {
                assert(g0[line_cell(k, 0)] == g1[line_cell(k, 0)]);
                assert forall|j: int| 0 <= j < 4 implies g0[#[trigger] line_cell(k, j)] == g0[line_cell(k, 0)] by {
                    assert(g1[line_cell(k, j)] == g1[line_cell(k, 0)]);
                }
            }
            assert(false);
        }
    }
    assert(line_wins(g1, k0) && line_team(g1, k0) == t);
}

} // verus!
