use vstd::prelude::*;

verus! {

/// A column (or row) index after an optional flip across a span of `n`
/// indices: `n - c - 1` when flipped, `c` itself otherwise.
pub open spec fn flipped(n: int, c: int, flip: bool) -> int {
    if flip {
        n - c - 1
    } else {
        c
    }
}

/// The sample-space indices of grid cell `(col, row)`: the two indices are
/// swapped first when `rotate` holds, then the column is flipped across
/// `width` and the row across `height`. The flips use `width` and `height`
/// whether or not the indices were swapped, so on a rotated grid that is not
/// square a flipped index may fall outside `[0, width)` or `[0, height)`.
pub open spec fn cell_sample(
    width: int,
    height: int,
    col: int,
    row: int,
    flip_x: bool,
    flip_y: bool,
    rotate: bool,
) -> (int, int) {
    let c = if rotate { row } else { col };
    let r = if rotate { col } else { row };
    (flipped(width, c, flip_x), flipped(height, r, flip_y))
}

/// The position of cell `(col, row)` in a row-major grid `width` cells wide.
pub open spec fn grid_pos(width: int, row: int, col: int) -> int {
    row * width + col
}

proof fn lemma_grid_pos_bound(width: int, row: int, col: int, rows: int)
    requires
        0 <= row < rows,
        0 <= col < width,
    ensures
        0 <= grid_pos(width, row, col) < rows * width,
        grid_pos(width, row, col) < grid_pos(width, row + 1, 0),
        grid_pos(width, row + 1, 0) <= rows * width,
{
    assert(row * width + col < (row + 1) * width) by (nonlinear_arith)
        requires
            0 <= col < width,
    ;
    assert((row + 1) * width <= rows * width) by (nonlinear_arith)
        requires
            row + 1 <= rows,
            0 <= width,
    ;
    assert(0 <= row * width) by (nonlinear_arith)
        requires
            0 <= row,
            0 <= width,
    ;
}

/// `cells` lists, in row-major order, the sample-space indices of every cell
/// of a `width` by `height` grid.
pub open spec fn is_sample_grid(
    cells: Seq<(i64, i64)>,
    width: int,
    height: int,
    flip_x: bool,
    flip_y: bool,
    rotate: bool,
) -> bool {
    &&& cells.len() == width * height
    &&& forall|row: int, col: int|
        0 <= row < height && 0 <= col < width ==> {
            let s = #[trigger] cells[grid_pos(width, row, col)];
            (s.0 as int, s.1 as int) == cell_sample(width, height, col, row, flip_x, flip_y, rotate)
        }
}

/// The sample-space indices of one grid cell, as `cell_sample` gives them.
pub fn sample_index(
    width: usize,
    height: usize,
    col: usize,
    row: usize,
    flip_x: bool,
    flip_y: bool,
    rotate: bool,
) -> (r: (i64, i64))
    requires
        width <= i64::MAX,
        height <= i64::MAX,
        col < width,
        row < height,
    ensures
        (r.0 as int, r.1 as int) == cell_sample(
            width as int,
            height as int,
            col as int,
            row as int,
            flip_x,
            flip_y,
            rotate,
        ),
{
    let (c, r) = if rotate {
        (row as i64, col as i64)
    } else {
        (col as i64, row as i64)
    };
    let fx = if flip_x {
        width as i64 - c - 1
    } else {
        c
    };
    let fy = if flip_y {
        height as i64 - r - 1
    } else {
        r
    };
    (fx, fy)
}

/// The sample-space indices of every cell of a `width` by `height` grid, in
/// row-major order: the cell in row `row` and column `col` stands at
/// `row * width + col`.
pub fn terrain_sample_indices(
    width: usize,
    height: usize,
    flip_x: bool,
    flip_y: bool,
    rotate: bool,
) -> (r: Vec<(i64, i64)>)
    requires
        width * height <= usize::MAX,
        width <= i64::MAX,
        height <= i64::MAX,
    ensures
        is_sample_grid(r@, width as int, height as int, flip_x, flip_y, rotate),
{
    let mut cells: Vec<(i64, i64)> = Vec::new();
    let mut y: usize = 0;
    while y < height
        invariant
            y <= height,
            width * height <= usize::MAX,
            width <= i64::MAX,
            height <= i64::MAX,
            cells@.len() == y * width,
            forall|row: int, col: int|
                0 <= row < y && 0 <= col < width ==> {
                    let s = #[trigger] cells@[grid_pos(width as int, row, col)];
                    (s.0 as int, s.1 as int) == cell_sample(
                        width as int,
                        height as int,
                        col,
                        row,
                        flip_x,
                        flip_y,
                        rotate,
                    )
                },
        decreases height - y,
    {
        let mut x: usize = 0;
        while x < width
            invariant
                y < height,
                x <= width,
                width * height <= usize::MAX,
                width <= i64::MAX,
                height <= i64::MAX,
                cells@.len() == y * width + x,
                forall|row: int, col: int|
                    (0 <= row < y && 0 <= col < width) || (row == y && 0 <= col < x) ==> {
                        let s = #[trigger] cells@[grid_pos(width as int, row, col)];
                        (s.0 as int, s.1 as int) == cell_sample(
                            width as int,
                            height as int,
                            col,
                            row,
                            flip_x,
                            flip_y,
                            rotate,
                        )
                    },
            decreases width - x,
        {
            let s = sample_index(width, height, x, y, flip_x, flip_y, rotate);
            let ghost before = cells@;
            cells.push(s);
            proof {
                assert forall|row: int, col: int|
                    (0 <= row < y && 0 <= col < width) || (row == y && 0 <= col < x + 1) implies {
                        let s = #[trigger] cells@[grid_pos(width as int, row, col)];
                        (s.0 as int, s.1 as int) == cell_sample(
                            width as int,
                            height as int,
                            col,
                            row,
                            flip_x,
                            flip_y,
                            rotate,
                        )
                    } by {
                    if row < y {
                        lemma_grid_pos_bound(width as int, row, col, y as int);
                        assert(cells@[grid_pos(width as int, row, col)] == before[grid_pos(
                            width as int,
                            row,
                            col,
                        )]);
                    } else if col < x {
                        assert(cells@[grid_pos(width as int, row, col)] == before[grid_pos(
                            width as int,
                            row,
                            col,
                        )]);
                    }
                }
            }
            x = x + 1;
        }
        proof {
            assert((y + 1) * width == y * width + width) by (nonlinear_arith);
            assert((y + 1) * width <= height * width) by (nonlinear_arith)
                requires
                    y + 1 <= height,
            ;
        }
        y = y + 1;
    }
    proof {
        assert(height * width == width * height) by (nonlinear_arith);
    }
    cells
}

} // verus!
