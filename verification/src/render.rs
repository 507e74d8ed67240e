//! The fixed-format text view of a board: a bordered 5-row, 6-column block of
//! glyphs followed by a status line.
//!
//! Each of the first 4 rows renders one grid row between two wall glyphs; the
//! 5th row is entirely wall glyphs, the bottom border (there is no top
//! border). Rows are newline-terminated and concatenated top-to-bottom. The
//! status line reads `"<token-glyph> wins!"` when the status is `Won`, and a
//! fixed no-winner message otherwise.

use vstd::prelude::*;
use vstd::string::StringExecFns;

use crate::board::Board;
use crate::grid::{BoardValue, GameStatus};

verus! {

/// The glyph a cell value is rendered as; the wall glyph is distinct from all
/// three.
pub open spec fn glyph(v: BoardValue) -> Seq<char> {
    match v {
        BoardValue::Cookie => "🍪"@,
        BoardValue::Milk => "🥛"@,
        BoardValue::Empty => "⬛"@,
    }
}

/// One rendered grid row: wall, the row's four cell glyphs, wall, newline.
pub open spec fn render_row(g: Seq<BoardValue>, r: int) -> Seq<char> {
    "⬜"@ + glyph(g[r * 4 + 0]) + glyph(g[r * 4 + 1]) + glyph(g[r * 4 + 2]) + glyph(g[r * 4 + 3])
        + "⬜\n"@
}

/// The first `n` rendered grid rows, concatenated top-to-bottom.
pub open spec fn render_rows_upto(g: Seq<BoardValue>, n: int) -> Seq<char>
    decreases n,
{
    if n <= 0 {
        Seq::empty()
    } else {
        render_rows_upto(g, n - 1) + render_row(g, n - 1)
    }
}

/// The full rendered block: the four grid rows and the bottom border row.
pub open spec fn render_grid(g: Seq<BoardValue>) -> Seq<char> {
    render_rows_upto(g, 4) + "⬜⬜⬜⬜⬜⬜\n"@
}

/// The trailing status line.
pub open spec fn render_status(st: GameStatus) -> Seq<char> {
    match st {
        GameStatus::Won(t) => glyph(t) + " wins!"@,
        _ => "No winner."@,
    }
}

/// The rendered state a caller receives: the grid block plus the status line.
pub open spec fn render_state(g: Seq<BoardValue>, st: GameStatus) -> Seq<char> {
    render_grid(g) + render_status(st)
}

impl BoardValue {
    /// The glyph of this cell value, as a string of one character.
    pub fn to_string(self) -> (r: &'static str)
        ensures
            r@ == glyph(self),
    {
        match self {
            BoardValue::Cookie => "🍪",
            BoardValue::Milk => "🥛",
            BoardValue::Empty => "⬛",
        }
    }
}

impl Board {
    /// The bordered glyph block of the grid, without the status line.
    pub fn build_state_from_grid(&self) -> (r: String)
        requires
            self.grid_ok(),
        ensures
            r@ == render_grid(self.grid@),
    {
        let ghost g = self.grid@;
        let mut s = String::new();
        let mut row: usize = 0;
        while row < 4
            invariant
                self.grid_ok(),
                self.grid@ == g,
                row <= 4,
                s@ == render_rows_upto(g, row as int),
            decreases 4 - row,
        {
            s.append("⬜");
            s.append(self.grid[row * 4].to_string());
            s.append(self.grid[row * 4 + 1].to_string());
            s.append(self.grid[row * 4 + 2].to_string());
            s.append(self.grid[row * 4 + 3].to_string());
            s.append("⬜\n");
            proof {
                assert(s@ =~= render_rows_upto(g, row as int + 1));
            }
            row += 1;
        }
        s.append("⬜⬜⬜⬜⬜⬜\n");
        proof {
            assert(s@ =~= render_grid(g));
        }
        s
    }

    /// The rendered snapshot of the board: the glyph block plus the status
    /// line. Read-only; no mutation.
    pub fn get_current_state(&self) -> (r: String)
        requires
            self.grid_ok(),
        ensures
            r@ == render_state(self.grid@, self.game_status),
    {
        let mut state = self.build_state_from_grid();
        match self.game_status {
            GameStatus::Won(t) => {
                state.append(t.to_string());
                state.append(" wins!");
            },
            _ => {
                state.append("No winner.");
            },
        }
        proof {
            assert(state@ =~= render_state(self.grid@, self.game_status));
        }
        state
    }
}

} // verus!
