//! The terminal stand-in for the button board: a grid of cells, one per
//! light, drawn white when the light is on.
use vstd::prelude::*;

verus! {

/// The number of buttons of the terminal board.
pub const BUTTON_COUNT: usize = 8;

/// The number of cells in a row of the grid.
pub const COLUMNS: usize = 4;

/// A cell of the grid and whether its light is on.
#[derive(Debug, Clone, Copy, PartialEq, Eq, Structural)]
pub struct PanelCell {
    pub row: usize,
    pub column: usize,
    pub lit: bool,
}

/// The number of rows of the grid.
pub open spec fn spec_rows() -> nat {
    (BUTTON_COUNT / COLUMNS) as nat
}

/// The cells among the first `k` of the grid, in row-major order, whose
/// light `row * column` exists; each shows that light.
pub open spec fn spec_cells(lights: Seq<bool>, k: nat) -> Seq<PanelCell>
    decreases k,
{
    if k == 0 {
        Seq::empty()
    } else {
        let j = (k - 1) as nat;
        let row = j / (COLUMNS as nat);
        let column = j % (COLUMNS as nat);
        let light = row * column;
        let before = spec_cells(lights, j);
        if light < lights.len() {
            before.push(PanelCell { row: row as usize, column: column as usize, lit: lights[light as int] })
        } else {
            before
        }
    }
}

/// The cells to draw for the lights `lights`: every cell of the
/// `BUTTON_COUNT / COLUMNS` by `COLUMNS` grid, row by row, that has a light,
/// cell `(row, column)` showing light `row * column`.
pub fn panel_cells(lights: &Vec<bool>) -> (cells: Vec<PanelCell>)
    ensures
        cells@ == spec_cells(lights@, spec_rows() * (COLUMNS as nat)),
{
    let row_count = BUTTON_COUNT / COLUMNS;
    let mut cells: Vec<PanelCell> = Vec::new();
    let mut row: usize = 0;
    while row < row_count
        invariant
            row_count == spec_rows(),
            row <= row_count,
            cells@ == spec_cells(lights@, (row * COLUMNS) as nat),
        decreases row_count - row,
    {
        let mut column: usize = 0;
        while column < COLUMNS
            invariant
                row_count == spec_rows(),
                row < row_count,
                column <= COLUMNS,
                cells@ == spec_cells(lights@, (row * COLUMNS + column) as nat),
            decreases COLUMNS - column,
        {
            let index = row * column;
            let k = row * COLUMNS + column;
            assert((k as nat) / (COLUMNS as nat) == row && (k as nat) % (COLUMNS as nat) == column) by (nonlinear_arith)
                requires
                    k == row * 4 + column,
                    column < 4,
            ;
            if index < lights.len() {
                cells.push(PanelCell { row, column, lit: lights[index] });
            }
            column = column + 1;
        }
        row = row + 1;
    }
    cells
}

} // verus!
