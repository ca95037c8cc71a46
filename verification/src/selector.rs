//! The tile-selector view's selection grid: the palette's tiles are laid out
//! in rows of a fixed column count, and a selector cube snaps to one cell.
//! Only the layout and index arithmetic lives here; world positions and the
//! cursor ray are the camera collaborator's.

use vstd::prelude::*;

verus! {

/// How many tiles stand in one row of the selector view.
pub const TILE_SELECTOR_VIEW_TILE_COLUMN_NUMBER: usize = 4;

/// The selection grid of the tile-selector view: the laid-out shape of the
/// palette and the index of the cell the selector cube stands on.
pub struct TilesSelectionGrid {
    pub current_idx: usize,
    pub col_number: usize,
    pub row_number: usize,
    pub col_number_on_last_row: usize,
}

impl TilesSelectionGrid {
    /// The shape is a real layout: at least one row, full rows of
    /// `col_number` tiles and a last row of `col_number_on_last_row`, and
    /// the whole grid's tile count fits the machine.
    pub open spec fn wf(self) -> bool {
        &&& self.row_number >= 1
        &&& self.col_number >= 1
        &&& 1 <= self.col_number_on_last_row <= self.col_number
        &&& (self.row_number - 1) * self.col_number + self.col_number_on_last_row <= usize::MAX
    }

    /// How many tiles the laid-out shape holds.
    pub open spec fn spec_tile_count(self) -> int {
        (self.row_number - 1) * self.col_number + self.col_number_on_last_row
    }
}

/// Lays the palette out on the selector view: full rows of `col_number`
/// tiles, and a shorter last row where the division leaves a remainder. The
/// selection starts on the first tile.
pub fn layout_selection_grid(tile_number: usize, col_number: usize) -> (g: TilesSelectionGrid)
    requires
        tile_number >= 1,
        col_number >= 1,
    ensures
        g.wf(),
        g.current_idx == 0,
        g.col_number == col_number,
        tile_number % col_number == 0 ==> g.row_number == tile_number / col_number
            && g.col_number_on_last_row == col_number,
        tile_number % col_number != 0 ==> g.row_number == tile_number / col_number + 1
            && g.col_number_on_last_row == tile_number % col_number,
        g.spec_tile_count() == tile_number,
{
    let remainer = tile_number % col_number;
    let divider = tile_number / col_number;
    proof {
        vstd::arithmetic::div_mod::lemma_fundamental_div_mod(
            tile_number as int,
            col_number as int,
        );
        assert(tile_number as int == (col_number as int) * (divider as int) + remainer as int);
    }
    if remainer == 0 {
        proof {
            let n = tile_number as int;
            let c = col_number as int;
            let d = divider as int;
            assert(d >= 1) by (nonlinear_arith)
                requires
                    n == c * d,
                    n >= 1,
                    c >= 1,
                    d >= 0,
            ;
            assert((d - 1) * c + c == c * d) by (nonlinear_arith);
        }
        TilesSelectionGrid {
            current_idx: 0,
            col_number,
            row_number: divider,
            col_number_on_last_row: col_number,
        }
    } else {
        proof {
            let n = tile_number as int;
            let c = col_number as int;
            let d = divider as int;
            let r = remainer as int;
            assert(d <= c * d) by (nonlinear_arith)
                requires
                    c >= 1,
                    d >= 0,
            ;
            assert(((d + 1) - 1) * c + r == c * d + r) by (nonlinear_arith);
        }
        TilesSelectionGrid {
            current_idx: 0,
            col_number,
            row_number: divider + 1,
            col_number_on_last_row: remainer,
        }
    }
}

/// The row the selector cube snaps to: the raw row, clamped to the layout.
pub open spec fn spec_snapped_row(g: TilesSelectionGrid, raw_row: int) -> int {
    if raw_row > g.row_number - 1 {
        g.row_number - 1
    } else {
        raw_row
    }
}

/// The column the selector cube snaps to: the raw column, clamped to the
/// snapped row's length (the last row may be shorter).
pub open spec fn spec_snapped_col(g: TilesSelectionGrid, row: int, raw_col: int) -> int {
    let limit = if row == g.row_number - 1 {
        g.col_number_on_last_row - 1
    } else {
        g.col_number - 1
    };
    if raw_col > limit {
        limit
    } else {
        raw_col
    }
}

/// Snaps the selector cube to the cell nearest the cursor: the raw cell the
/// camera collaborator derived from the cursor ray is clamped to the laid-out
/// shape, and the selection index becomes that cell's palette index, always
/// inside the palette.
pub fn snap_selection_to_cell(g: &mut TilesSelectionGrid, raw_row: usize, raw_col: usize)
    requires
        old(g).wf(),
    ensures
        final(g).wf(),
        final(g).col_number == old(g).col_number,
        final(g).row_number == old(g).row_number,
        final(g).col_number_on_last_row == old(g).col_number_on_last_row,
        final(g).current_idx == old(g).col_number * spec_snapped_row(*old(g), raw_row as int)
            + spec_snapped_col(*old(g), spec_snapped_row(*old(g), raw_row as int),
            raw_col as int),
        final(g).current_idx < old(g).spec_tile_count(),
{
    let row = if raw_row > g.row_number - 1 {
        g.row_number - 1
    } else {
        raw_row
    };
    let limit = if row == g.row_number - 1 {
        g.col_number_on_last_row - 1
    } else {
        g.col_number - 1
    };
    let col = if raw_col > limit {
        limit
    } else {
        raw_col
    };
    proof {
        let rows = g.row_number as int;
        let c = g.col_number as int;
        let last = g.col_number_on_last_row as int;
        assert(c * (row as int) + (col as int) < (rows - 1) * c + last) by (nonlinear_arith)
            requires
                rows >= 1,
                c >= 1,
                1 <= last <= c,
                row as int <= rows - 1,
                (row as int == rows - 1) ==> (col as int) < last,
                (row as int) < rows - 1 ==> (col as int) < c,
        ;
        assert(c * (row as int) >= 0) by (nonlinear_arith)
            requires
                c >= 1,
                row as int >= 0,
        ;
    }
    g.current_idx = g.col_number * row + col;
}

} // verus!
