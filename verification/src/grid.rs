//! The character grid of the display and the linear cursor offset that
//! addresses a cell of it.

use vstd::prelude::*;

verus! {

/// Characters in one row of the display.
pub const COLUMNS: u8 = 20;

/// Rows of the display.
pub const ROWS: u8 = 2;

/// The column that a requested column stands for: itself while it lies on the
/// grid, the last column otherwise.
pub open spec fn clamp_column(x: u8) -> int {
    if x < COLUMNS {
        x as int
    } else {
        COLUMNS - 1
    }
}

/// The row that a requested row stands for: itself while it lies on the grid,
/// the last row otherwise.
pub open spec fn clamp_row(y: u8) -> int {
    if y < ROWS {
        y as int
    } else {
        ROWS - 1
    }
}

/// The offset of the cell that `(x, y)` stands for, counted row by row from
/// the top left cell.
pub open spec fn grid_offset(x: u8, y: u8) -> int {
    clamp_row(y) * COLUMNS + clamp_column(x)
}

/// Computes the cursor offset of column `x` in row `y`. Coordinates beyond the
/// grid are clamped to its last column and last row.
pub fn cursor_offset(x: u8, y: u8) -> (pos: u8)
    ensures
        pos == grid_offset(x, y),
        pos < ROWS * COLUMNS,
{
    let column: u8 = if x > COLUMNS - 1 {
        COLUMNS - 1
    } else {
        x
    };
    let row: u8 = if y > ROWS - 1 {
        ROWS - 1
    } else {
        y
    };
    row * COLUMNS + column
}

/// Every coordinate pair addresses a cell of the grid: the offset lies in
/// `0..=39`, and it names exactly the clamped row and the clamped column.
pub proof fn offset_addresses_clamped_cell(x: u8, y: u8)
    ensures
        0 <= grid_offset(x, y) <= 39,
        0 <= clamp_column(x) <= 19,
        0 <= clamp_row(y) <= 1,
        grid_offset(x, y) / 20 == clamp_row(y),
        grid_offset(x, y) % 20 == clamp_column(x),
{
}

/// Coordinates on the grid are not altered by clamping, and everything beyond
/// the grid shares the offset of the nearest cell on it.
pub proof fn clamping_is_idempotent(x: u8, y: u8)
    ensures
        x <= 19 && y <= 1 ==> grid_offset(x, y) == y * 20 + x,
        grid_offset(x, y) == grid_offset(clamp_column(x) as u8, clamp_row(y) as u8),
{
}

} // verus!
