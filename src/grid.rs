use vstd::prelude::*;

verus! {

/// The world coordinate of local cell `local` along one axis of chunk `chunk`
/// whose edge has `size` cells. Neighbouring chunks overlap by one cell: the
/// stride between chunk origins is `size - 1`.
pub open spec fn world_of(chunk: int, size: int, local: int) -> int {
    chunk * (size - 1) + local
}

/// The world coordinates `(x, z)` of cell `i` of chunk `(cx, cz)`, cells being
/// numbered row by row (`i = row * size + column`).
pub open spec fn cell_world(cx: int, cz: int, size: int, i: int) -> (int, int) {
    (world_of(cx, size, i % size), world_of(cz, size, i / size))
}

/// The index of the cell at `row` and `col` in a row-major buffer of rows of
/// `width` cells.
pub open spec fn index_of(row: int, col: int, width: int) -> int {
    row * width + col
}

/// Bounds of the world coordinate: it fits an `i64` for every chunk
/// coordinate of an `i32` and every size and local index of a `u32`.
proof fn lemma_world_bounds(chunk: i32, size: u32, local: u32)
    requires
        size >= 1,
    ensures
        i64::MIN <= chunk as int * (size as int - 1) <= i64::MAX,
        i64::MIN <= world_of(chunk as int, size as int, local as int) <= i64::MAX,
{
    let e = size as int - 1;
    assert(0 <= e < 0x1_0000_0000);
    assert(-0x8000_0000 <= chunk as int <= 0x7fff_ffff);
    assert(-0x8000_0000 * 0x1_0000_0000 <= chunk as int * e <= 0x7fff_ffff * 0x1_0000_0000)
        by (nonlinear_arith)
        requires
            0 <= e < 0x1_0000_0000,
            -0x8000_0000 <= chunk as int <= 0x7fff_ffff,
    ;
}

/// The world coordinate of a local cell of a chunk, along one axis.
pub fn world_coord(chunk: i32, size: u32, local: u32) -> (r: i64)
    requires
        size >= 1,
    ensures
        r == world_of(chunk as int, size as int, local as int),
{
    proof {
        lemma_world_bounds(chunk, size, local);
    }
    (chunk as i64) * ((size - 1) as i64) + (local as i64)
}

/// The index of the cell at `row` and `col` of a row-major buffer of rows of
/// `width` cells and `height` rows.
pub fn cell_index(row: usize, col: usize, width: usize, height: usize) -> (r: usize)
    requires
        row < height,
        col < width,
        width * height <= usize::MAX,
    ensures
        r == index_of(row as int, col as int, width as int),
        r < width * height,
{
    proof {
        assert(row * width + col < width * height) by (nonlinear_arith)
            requires
                row < height,
                col < width,
        ;
    }
    row * width + col
}

/// The world coordinates of every cell of chunk `(cx, cz)` whose edge has
/// `size` cells, in buffer order: entry `row * size + col` holds the world
/// coordinates of column `col` and row `row`. Empty when `size` is 0.
pub fn chunk_world_coords(cx: i32, cz: i32, size: u32) -> (r: Vec<(i64, i64)>)
    requires
        size * size <= usize::MAX,
    ensures
        r.len() == size * size,
        forall|i: int|
            0 <= i < r.len() ==> (r[i].0 as int, r[i].1 as int) == #[trigger] cell_world(
                cx as int,
                cz as int,
                size as int,
                i,
            ),
{
    let mut r: Vec<(i64, i64)> = Vec::new();
    if size == 0 {
        return r;
    }
    let n: usize = size as usize;
    let mut row: u32 = 0;
    while row < size
        invariant
            1 <= size,
            n == size,
            n * n <= usize::MAX,
            row <= size,
            r.len() == row * n,
            forall|i: int|
                0 <= i < r.len() ==> (r[i].0 as int, r[i].1 as int) == #[trigger] cell_world(
                    cx as int,
                    cz as int,
                    size as int,
                    i,
                ),
        decreases size - row,
    {
        let wz = world_coord(cz, size, row);
        let mut col: u32 = 0;
        while col < size
            invariant
                1 <= size,
                n == size,
                n * n <= usize::MAX,
                row < size,
                col <= size,
                r.len() == row * n + col,
                wz == world_of(cz as int, size as int, row as int),
                forall|i: int|
                    0 <= i < r.len() ==> (r[i].0 as int, r[i].1 as int) == #[trigger] cell_world(
                        cx as int,
                        cz as int,
                        size as int,
                        i,
                    ),
            decreases size - col,
        {
            let wx = world_coord(cx, size, col);
            proof {
                let i = row * n + col;
                assert(i / (n as int) == row as int && i % (n as int) == col as int) by {
                    vstd::arithmetic::div_mod::lemma_fundamental_div_mod_converse(
                        i as int,
                        n as int,
                        row as int,
                        col as int,
                    );
                }
                assert((row + 1) * n <= n * n) by (nonlinear_arith)
                    requires
                        row < n,
                ;
                assert((row + 1) * n == row * n + n) by (nonlinear_arith);
            }
            r.push((wx, wz));
            col = col + 1;
        }
        proof {
            assert((row + 1) * n == row * n + n) by (nonlinear_arith);
        }
        row = row + 1;
    }
    r
}

/// Seam continuity along x: the last column of chunk `(cx, cz)` and the first
/// column of chunk `(cx + 1, cz)` stand at the same world coordinates, row by
/// row, so any pure field sampled there agrees on the shared edge.
pub proof fn lemma_seam_x(cx: int, cz: int, size: int, row: int)
    requires
        size >= 1,
        0 <= row < size,
    ensures
        cell_world(cx, cz, size, index_of(row, size - 1, size))
            == cell_world(cx + 1, cz, size, index_of(row, 0, size)),
{
    vstd::arithmetic::div_mod::lemma_fundamental_div_mod_converse(row * size + size - 1, size, row, size - 1);
    vstd::arithmetic::div_mod::lemma_fundamental_div_mod_converse(row * size, size, row, 0);
    assert(world_of(cx, size, size - 1) == world_of(cx + 1, size, 0)) by (nonlinear_arith);
}

/// Seam continuity along z: the last row of chunk `(cx, cz)` and the first row
/// of chunk `(cx, cz + 1)` stand at the same world coordinates, column by column.
pub proof fn lemma_seam_z(cx: int, cz: int, size: int, col: int)
    requires
        size >= 1,
        0 <= col < size,
    ensures
        cell_world(cx, cz, size, index_of(size - 1, col, size))
            == cell_world(cx, cz + 1, size, index_of(0, col, size)),
{
    vstd::arithmetic::div_mod::lemma_fundamental_div_mod_converse((size - 1) * size + col, size, size - 1, col);
    vstd::arithmetic::div_mod::lemma_fundamental_div_mod_converse(col, size, 0, col);
    assert(world_of(cz, size, size - 1) == world_of(cz + 1, size, 0)) by (nonlinear_arith);
}

} // verus!
