//! Index lists for meshes that are laid out as grids.

use vstd::prelude::*;

verus! {

/// The six indices of the two triangles that cover the cell at row `z` and column `x` of a
/// grid with `side` vertices in a row: top left, bottom left, top right; top right, bottom
/// left, bottom right.
pub open spec fn cell_indices(side: int, z: int, x: int) -> Seq<int> {
    let top_left = z * side + x;
    let bottom_left = (z + 1) * side + x;
    seq![top_left, bottom_left, top_left + 1, top_left + 1, bottom_left, bottom_left + 1]
}

/// Whether `indices` cover every cell of a grid of `side` by `side` vertices, row by row,
/// with two triangles each.
pub open spec fn covers_grid(indices: Seq<u32>, side: int) -> bool {
    &&& indices.len() == 6 * (side - 1) * (side - 1)
    &&& forall|z: int, x: int, k: int|
        0 <= z < side - 1 && 0 <= x < side - 1 && 0 <= k < 6 ==> #[trigger] indices[6 * (z * (side
            - 1) + x) + k] == cell_indices(side, z, x)[k]
}

/// The indices of the triangles of a grid of `side` by `side` vertices, which are numbered
/// row by row. A grid of fewer than two vertices a side has no triangle.
pub fn grid_indices(side: u32) -> (indices: Vec<u32>)
    requires
        side * side <= u32::MAX,
    ensures
        side >= 1 ==> covers_grid(indices@, side as int),
        side == 0 ==> indices@.len() == 0,
{
    let mut indices: Vec<u32> = Vec::new();
    if side == 0 {
        return indices;
    }
    let cells: u32 = side - 1;
    let mut z: u32 = 0;
    while z < cells
        invariant
            z <= cells,
            cells == side - 1,
            side * side <= u32::MAX,
            indices@.len() == 6 * (z * cells),
            forall|r: int, c: int, k: int|
                0 <= r < z && 0 <= c < cells && 0 <= k < 6 ==> #[trigger] indices@[6 * (r * cells
                    + c) + k] == cell_indices(side as int, r, c)[k],
        decreases cells - z,
    {
        let mut x: u32 = 0;
        while x < cells
            invariant
                x <= cells,
                z < cells,
                cells == side - 1,
                side * side <= u32::MAX,
                indices@.len() == 6 * (z * cells + x),
                forall|r: int, c: int, k: int|
                    0 <= r < z && 0 <= c < cells && 0 <= k < 6 ==> #[trigger] indices@[6 * (r
                        * cells + c) + k] == cell_indices(side as int, r, c)[k],
                forall|c: int, k: int|
                    0 <= c < x && 0 <= k < 6 ==> #[trigger] indices@[6 * (z * cells + c) + k]
                        == cell_indices(side as int, z as int, c)[k],
            decreases cells - x,
        {
            assert((z + 1) * side + x + 1 <= side * side) by (nonlinear_arith)
                requires
                    z + 1 < side,
                    x + 1 < side,
            ;
            assert(z * side <= (z + 1) * side) by (nonlinear_arith);
            let top_left: u32 = z * side + x;
            let top_right: u32 = top_left + 1;
            let bottom_left: u32 = (z + 1) * side + x;
            let bottom_right: u32 = bottom_left + 1;
            let ghost before = indices@;
            let ghost base = 6 * (z * cells + x);
            indices.push(top_left);
            indices.push(bottom_left);
            indices.push(top_right);
            indices.push(top_right);
            indices.push(bottom_left);
            indices.push(bottom_right);
            proof {
                assert forall|r: int, c: int, k: int|
                    0 <= r < z && 0 <= c < cells && 0 <= k < 6 implies #[trigger] indices@[6 * (r
                    * cells + c) + k] == cell_indices(side as int, r, c)[k] by {
                    assert(6 * (r * cells + c) + k < base) by (nonlinear_arith)
                        requires
                            0 <= r < z,
                            0 <= c < cells,
                            0 <= k < 6,
                            0 <= x,
                            base == 6 * (z * cells + x),
                    ;
                    assert(indices@[6 * (r * cells + c) + k] == before[6 * (r * cells + c) + k]);
                }
                assert forall|c: int, k: int|
                    0 <= c < x + 1 && 0 <= k < 6 implies #[trigger] indices@[6 * (z * cells + c)
                    + k] == cell_indices(side as int, z as int, c)[k] by {
                    if c < x {
                        assert(6 * (z * cells + c) + k < base);
                        assert(indices@[6 * (z * cells + c) + k] == before[6 * (z * cells + c)
                            + k]);
                    } else {
                        assert(6 * (z * cells + c) + k == base + k);
                    }
                }
            }
            x = x + 1;
        }
        proof {
            assert(z * cells + cells == (z + 1) * cells) by (nonlinear_arith);
        }
        z = z + 1;
    }
    proof {
        assert(6 * (cells * cells) == 6 * (side - 1) * (side - 1)) by (nonlinear_arith)
            requires
                cells == side - 1,
        ;
    }
    indices
}

} // verus!
