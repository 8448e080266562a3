use vstd::prelude::*;

verus! {

/// Side of one checkerboard cell, in pixels.
pub const CELL_SIZE: u32 = 20;

/// An opaque color given as red, green, blue and alpha bytes.
#[derive(Clone, Copy, Debug, PartialEq, Eq, Structural)]
pub struct Rgba {
    pub r: u8,
    pub g: u8,
    pub b: u8,
    pub a: u8,
}

/// The two alternating cell colors.
#[derive(Clone, Copy, Debug, PartialEq, Eq, Structural)]
pub enum Shade {
    Dark,
    Light,
}

/// The shade of cell `(i, j)`: dark where `i + j` is even, light where odd.
pub open spec fn shade_of(i: int, j: int) -> Shade {
    if (i + j) % 2 == 0 {
        Shade::Dark
    } else {
        Shade::Light
    }
}

/// One cell of the checkerboard: a square of side `size` with its top-left
/// corner at `(x, y)`.
#[derive(Clone, Copy, Debug, PartialEq, Eq, Structural)]
pub struct Cell {
    pub x: i64,
    pub y: i64,
    pub size: u32,
    pub shade: Shade,
}

/// `c` is cell `(i, j)`: shifted half a cell up and left from `(i, j)` times
/// the cell size.
pub open spec fn is_cell(c: Cell, i: int, j: int) -> bool {
    &&& c.x == i * CELL_SIZE - CELL_SIZE / 2
    &&& c.y == j * CELL_SIZE - CELL_SIZE / 2
    &&& c.size == CELL_SIZE
    &&& c.shade == shade_of(i, j)
}

/// The shade of cell `(i, j)`.
pub fn cell_shade(i: u32, j: u32) -> (s: Shade)
    ensures
        s == shade_of(i as int, j as int),
{
    if (i % 2 + j % 2) % 2 == 0 {
        Shade::Dark
    } else {
        Shade::Light
    }
}

/// The color a shade is drawn with.
pub fn shade_color(s: Shade) -> (c: Rgba)
    ensures
        s == Shade::Dark ==> c == (Rgba { r: 43, g: 46, b: 51, a: 255 }),
        s == Shade::Light ==> c == (Rgba { r: 59, g: 62, b: 67, a: 255 }),
{
    match s {
        Shade::Dark => Rgba { r: 43, g: 46, b: 51, a: 255 },
        Shade::Light => Rgba { r: 59, g: 62, b: 67, a: 255 },
    }
}

/// Cell `(i, j)` of the checkerboard.
pub fn cell_at(i: u32, j: u32) -> (c: Cell)
    ensures
        is_cell(c, i as int, j as int),
{
    let half: i64 = (CELL_SIZE / 2) as i64;
    Cell {
        x: i as i64 * CELL_SIZE as i64 - half,
        y: j as i64 * CELL_SIZE as i64 - half,
        size: CELL_SIZE,
        shade: cell_shade(i, j),
    }
}

/// The number of cells needed along a side `len` pixels long, the first cell
/// starting half a cell before the edge.
pub open spec fn cells_across(len: int) -> int {
    (len + CELL_SIZE / 2 - 1) / (CELL_SIZE as int) + 1
}

/// The pixel `(px, py)` lies in cell `c`.
pub open spec fn in_cell(c: Cell, px: int, py: int) -> bool {
    &&& c.x <= px < c.x + c.size
    &&& c.y <= py < c.y + c.size
}

/// The pixel `(px, py)` lies in some cell of `cols`.
pub open spec fn covered(cols: Seq<Vec<Cell>>, px: int, py: int) -> bool {
    exists|i: int, j: int|
        0 <= i < cols.len() && 0 <= j < cols[i]@.len() && in_cell(cols[i]@[j], px, py)
}

/// The index of the cell, along one side, that holds pixel `p`.
spec fn cell_index(p: int) -> int {
    (p + CELL_SIZE / 2) / (CELL_SIZE as int)
}

proof fn lemma_cell_index(p: int, len: int)
    requires
        0 <= p < len,
    ensures
        0 <= cell_index(p) < cells_across(len),
        cell_index(p) * CELL_SIZE - CELL_SIZE / 2 <= p,
        p < cell_index(p) * CELL_SIZE - CELL_SIZE / 2 + CELL_SIZE,
{
    let i = cell_index(p);
    assert(20 * i <= p + 10 < 20 * i + 20) by (nonlinear_arith)
        requires
            i == (p + 10) / 20,
            0 <= p,
    ;
    assert(i <= (len + 9) / 20) by (nonlinear_arith)
        requires
            i == (p + 10) / 20,
            0 <= p < len,
    ;
}

/// The checkerboard that covers a window `width` by `height` pixels, as
/// columns of cells: column `i` holds cells `(i, 0)` to `(i, m - 1)` for `i`
/// from 0 to `n - 1`, where `n` and `m` are the fewest cells that reach the
/// right and bottom edges. Every pixel of the window lies in some cell.
pub fn checkerboard(width: u32, height: u32) -> (cols: Vec<Vec<Cell>>)
    ensures
        cols@.len() == cells_across(width as int),
        forall|i: int|
            0 <= i < cols@.len() ==> #[trigger] cols@[i]@.len() == cells_across(height as int),
        forall|i: int, j: int|
            0 <= i < cols@.len() && 0 <= j < cols@[i]@.len() ==> is_cell(
                #[trigger] cols@[i]@[j],
                i,
                j,
            ),
        forall|px: int, py: int|
            0 <= px < width && 0 <= py < height ==> #[trigger] covered(cols@, px, py),
{
    let n_cols: u64 = (width as u64 + (CELL_SIZE / 2 - 1) as u64) / CELL_SIZE as u64 + 1;
    let n_rows: u64 = (height as u64 + (CELL_SIZE / 2 - 1) as u64) / CELL_SIZE as u64 + 1;
    let mut cols: Vec<Vec<Cell>> = Vec::new();
    let mut i: u64 = 0;
    while i < n_cols
        invariant
            n_cols == cells_across(width as int),
            n_rows == cells_across(height as int),
            i <= n_cols,
            cols@.len() == i,
            forall|k: int| 0 <= k < cols@.len() ==> #[trigger] cols@[k]@.len() == n_rows,
            forall|k: int, j: int|
                0 <= k < cols@.len() && 0 <= j < cols@[k]@.len() ==> is_cell(
                    #[trigger] cols@[k]@[j],
                    k,
                    j,
                ),
        decreases n_cols - i,
    {
        let mut col: Vec<Cell> = Vec::new();
        let mut j: u64 = 0;
        while j < n_rows
            invariant
                n_rows == cells_across(height as int),
                i < n_cols,
                n_cols == cells_across(width as int),
                j <= n_rows,
                col@.len() == j,
                forall|m: int| 0 <= m < col@.len() ==> is_cell(#[trigger] col@[m], i as int, m),
            decreases n_rows - j,
        {
            col.push(cell_at(i as u32, j as u32));
            j = j + 1;
        }
        cols.push(col);
        i = i + 1;
    }
    assert forall|px: int, py: int| 0 <= px < width && 0 <= py < height implies #[trigger] covered(
        cols@,
        px,
        py,
    ) by {
        lemma_cell_index(px, width as int);
        lemma_cell_index(py, height as int);
        let i = cell_index(px);
        let j = cell_index(py);
        assert(is_cell(cols@[i]@[j], i, j));
        assert(in_cell(cols@[i]@[j], px, py));
    }
    cols
}

/// Cell shades alternate along rows and columns: neighbours in a row or a
/// column differ, and diagonal neighbours agree.
pub proof fn lemma_shades_alternate(i: int, j: int)
    requires
        0 <= i,
        0 <= j,
    ensures
        shade_of(i, j) != shade_of(i + 1, j),
        shade_of(i, j) != shade_of(i, j + 1),
        shade_of(i, j) == shade_of(i + 1, j + 1),
{
}

} // verus!
