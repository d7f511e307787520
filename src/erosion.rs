use vstd::prelude::*;
use crate::grid::index_of;

verus! {

/// The most steps a droplet takes.
pub const MAX_LIFETIME: u32 = 30;

/// The radius, in cells, of the area that one erosion event lowers.
pub const EROSION_RADIUS: usize = 3;

/// The least number of cells along each axis for erosion to do anything.
pub const MIN_ERODIBLE_EDGE: u32 = 3;

/// Whether an erosion pass of `iterations` droplets over a `width` by
/// `height` buffer does anything: it has droplets, and the buffer has an
/// interior (at least 3 cells along each axis). Otherwise the pass leaves
/// the buffer as it is.
pub fn erosion_runs(width: u32, height: u32, iterations: u32) -> (r: bool)
    ensures
        r == (width >= MIN_ERODIBLE_EDGE && height >= MIN_ERODIBLE_EDGE && iterations > 0),
        iterations == 0 ==> !r,
{
    width >= MIN_ERODIBLE_EDGE && height >= MIN_ERODIBLE_EDGE && iterations > 0
}

/// Whether cell `(ix, iz)` lies in the interior of a `w` by `h` buffer: one
/// cell away from every edge.
pub open spec fn interior(ix: int, iz: int, w: int, h: int) -> bool {
    1 <= ix < w - 1 && 1 <= iz < h - 1
}

/// Whether a droplet in cell `(ix, iz)` may stay in the buffer.
pub fn in_interior(ix: usize, iz: usize, w: usize, h: usize) -> (r: bool)
    ensures
        r == interior(ix as int, iz as int, w as int, h as int),
{
    ix >= 1 && iz >= 1 && ix < w && iz < h && ix < w - 1 && iz < h - 1
}

/// The four cells around the fractional position in interior cell
/// `(ix, iz)`: the cell itself, its right neighbour, the one below, and the
/// one below right, as indices of the row-major buffer.
pub fn cell_corners(ix: usize, iz: usize, w: usize, h: usize) -> (r: (usize, usize, usize, usize))
    requires
        interior(ix as int, iz as int, w as int, h as int),
        w * h <= usize::MAX,
    ensures
        r.0 == index_of(iz as int, ix as int, w as int),
        r.1 == index_of(iz as int, ix + 1, w as int),
        r.2 == index_of(iz + 1, ix as int, w as int),
        r.3 == index_of(iz + 1, ix + 1, w as int),
        r.0 < w * h && r.1 < w * h && r.2 < w * h && r.3 < w * h,
{
    proof {
        assert((iz + 1) * w + ix + 1 < w * h) by (nonlinear_arith)
            requires
                iz + 1 < h,
                ix + 1 < w,
        ;
        assert((iz + 1) * w == iz * w + w) by (nonlinear_arith);
    }
    let i = iz * w + ix;
    (i, i + 1, i + w, i + w + 1)
}

/// The square of the distance between `(px, pz)` and `(cx, cz)`.
pub open spec fn dist_sq(px: int, pz: int, cx: int, cz: int) -> int {
    (px - cx) * (px - cx) + (pz - cz) * (pz - cz)
}

/// Whether cell `(px, pz)` belongs to the erosion kernel around `(cx, cz)` in a
/// `w` by `h` buffer: it lies in the buffer, within `EROSION_RADIUS` of the centre.
pub open spec fn in_kernel(cx: int, cz: int, w: int, h: int, px: int, pz: int) -> bool {
    0 <= px < w && 0 <= pz < h && dist_sq(px, pz, cx, cz) <= EROSION_RADIUS * EROSION_RADIUS
}

/// One cell of an erosion kernel.
#[derive(Debug, Clone, Copy, PartialEq, Eq, Structural)]
pub struct KernelCell {
    /// Column.
    pub col: usize,
    /// Row.
    pub row: usize,
    /// Index in the row-major buffer.
    pub index: usize,
    /// Square of the distance to the kernel's centre.
    pub dist_sq: usize,
}

/// Whether `c` describes cell `(c.col, c.row)` of the erosion kernel around
/// `(cx, cz)` in a `w` by `h` buffer, with its index and squared distance.
pub open spec fn kernel_entry(cx: int, cz: int, w: int, h: int, c: KernelCell) -> bool {
    &&& c.index == index_of(c.row as int, c.col as int, w)
    &&& in_kernel(cx, cz, w, h, c.col as int, c.row as int)
    &&& c.dist_sq == dist_sq(c.col as int, c.row as int, cx, cz)
}

/// Whether cell `a` comes before cell `b` in row-major order.
pub open spec fn before(a: KernelCell, b: KernelCell) -> bool {
    a.row < b.row || (a.row == b.row && a.col < b.col)
}

proof fn lemma_square_bound(d: int)
    requires
        d * d <= 9,
    ensures
        -3 <= d <= 3,
{
    if d > 3 {
        assert(d * d > 9) by (nonlinear_arith)
            requires
                d > 3,
        ;
    }
    if d < -3 {
        assert(d * d > 9) by (nonlinear_arith)
            requires
                d < -3,
        ;
    }
}

proof fn lemma_kernel_near(cx: int, cz: int, w: int, h: int, px: int, pz: int)
    requires
        in_kernel(cx, cz, w, h, px, pz),
    ensures
        -3 <= px - cx <= 3,
        -3 <= pz - cz <= 3,
{
    assert((px - cx) * (px - cx) >= 0 && (pz - cz) * (pz - cz) >= 0) by (nonlinear_arith);
    lemma_square_bound(px - cx);
    lemma_square_bound(pz - cz);
}

/// The cells that an erosion event at `(cx, cz)` lowers, in row-major order:
/// each cell of the buffer within distance `EROSION_RADIUS` of the centre,
/// exactly once, with its index and its squared distance. The weights that
/// share the eroded amount out fall off linearly with the distance.
pub fn erosion_kernel(cx: usize, cz: usize, w: usize, h: usize) -> (r: Vec<KernelCell>)
    requires
        cx < w,
        cz < h,
        w * h <= usize::MAX,
    ensures
        forall|k: int| 0 <= k < r.len() ==> kernel_entry(cx as int, cz as int, w as int, h as int, #[trigger] r[k]),
        forall|i: int, j: int| 0 <= i < j < r.len() ==> before(#[trigger] r[i], #[trigger] r[j]),
        forall|px: int, pz: int|
            #[trigger] in_kernel(cx as int, cz as int, w as int, h as int, px, pz) ==> exists|k: int|
                0 <= k < r.len() && r[k].col == px && r[k].row == pz,
{
    let z0: usize = if cz >= EROSION_RADIUS { cz - EROSION_RADIUS } else { 0 };
    let z1: usize = if h - cz > EROSION_RADIUS + 1 { cz + EROSION_RADIUS + 1 } else { h };
    let x0: usize = if cx >= EROSION_RADIUS { cx - EROSION_RADIUS } else { 0 };
    let x1: usize = if w - cx > EROSION_RADIUS + 1 { cx + EROSION_RADIUS + 1 } else { w };
    let mut r: Vec<KernelCell> = Vec::new();
    let mut pz: usize = z0;
    proof {
        assert forall|qx: int, qz: int|
            #[trigger] in_kernel(cx as int, cz as int, w as int, h as int, qx, qz) implies qz >= z0 by {
            lemma_kernel_near(cx as int, cz as int, w as int, h as int, qx, qz);
        }
    }
    while pz < z1
        invariant
            cx < w,
            cz < h,
            w * h <= usize::MAX,
            z0 <= pz <= z1 <= h,
            x0 <= cx < x1 <= w,
            z0 == (if cz >= 3 { cz - 3 } else { 0 }),
            z1 == (if h - cz > 4 { cz + 4 } else { h as int }),
            x0 == (if cx >= 3 { cx - 3 } else { 0 }),
            x1 == (if w - cx > 4 { cx + 4 } else { w as int }),
            forall|k: int|
                0 <= k < r.len() ==> {
                    &&& kernel_entry(cx as int, cz as int, w as int, h as int, #[trigger] r[k])
                    &&& r[k].row < pz
                },
            forall|i: int, j: int| 0 <= i < j < r.len() ==> before(#[trigger] r[i], #[trigger] r[j]),
            forall|px: int, qz: int|
                #[trigger] in_kernel(cx as int, cz as int, w as int, h as int, px, qz) && qz < pz
                    ==> exists|k: int| 0 <= k < r.len() && r[k].col == px && r[k].row == qz,
        decreases z1 - pz,
    {
        let dz: usize = if pz >= cz { pz - cz } else { cz - pz };
        let mut px: usize = x0;
        proof {
            assert(dz * dz == (pz - cz) * (pz - cz)) by (nonlinear_arith)
                requires
                    dz == (if pz >= cz { pz - cz } else { cz - pz }),
            ;
            assert forall|qx: int, qz: int|
                #[trigger] in_kernel(cx as int, cz as int, w as int, h as int, qx, qz) implies qx >= x0 by {
                lemma_kernel_near(cx as int, cz as int, w as int, h as int, qx, qz);
            }
        }
        while px < x1
            invariant
                cx < w,
                cz < h,
                w * h <= usize::MAX,
                z0 <= pz < z1 <= h,
                x0 <= px <= x1 <= w,
                x0 <= cx < x1,
                x0 == (if cx >= 3 { cx - 3 } else { 0 }),
                x1 == (if w - cx > 4 { cx + 4 } else { w as int }),
                z0 == (if cz >= 3 { cz - 3 } else { 0 }),
                z1 == (if h - cz > 4 { cz + 4 } else { h as int }),
                dz * dz == (pz - cz) * (pz - cz),
                dz <= 3,
                forall|k: int|
                    0 <= k < r.len() ==> {
                        &&& kernel_entry(cx as int, cz as int, w as int, h as int, #[trigger] r[k])
                        &&& (r[k].row < pz || (r[k].row == pz && r[k].col < px))
                    },
                forall|i: int, j: int| 0 <= i < j < r.len() ==> before(#[trigger] r[i], #[trigger] r[j]),
                forall|qx: int, qz: int|
                    #[trigger] in_kernel(cx as int, cz as int, w as int, h as int, qx, qz) && (qz < pz || (qz
                        == pz && qx < px)) ==> exists|k: int|
                        0 <= k < r.len() && r[k].col == qx && r[k].row == qz,
            decreases x1 - px,
        {
            let dx: usize = if px >= cx { px - cx } else { cx - px };
            proof {
                assert(dx * dx == (px - cx) * (px - cx) && dx * dx <= 9 && dz * dz <= 9) by (nonlinear_arith)
                    requires
                        dx == (if px >= cx { px - cx } else { cx - px }),
                        dx <= 3,
                        dz <= 3,
                ;
            }
            let d2: usize = dx * dx + dz * dz;
            if d2 <= EROSION_RADIUS * EROSION_RADIUS {
                let index = crate::grid::cell_index(pz, px, w, h);
                let cell = KernelCell { col: px, row: pz, index, dist_sq: d2 };
                let ghost old_r = r@;
                r.push(cell);
                proof {
                    assert(forall|k: int| 0 <= k < old_r.len() ==> r[k] == old_r[k]);
                    assert(r[r.len() - 1] == cell);
                    assert(kernel_entry(cx as int, cz as int, w as int, h as int, cell));
                    assert forall|i: int, j: int| 0 <= i < j < r.len() implies before(#[trigger] r[i], #[trigger] r[j]) by {
                        if j == r.len() - 1 {
                            assert(kernel_entry(cx as int, cz as int, w as int, h as int, old_r[i]));
                        }
                    }
                    assert forall|qx: int, qz: int|
                        #[trigger] in_kernel(cx as int, cz as int, w as int, h as int, qx, qz) && (qz < pz
                            || (qz == pz && qx < px + 1)) implies exists|k: int|
                        0 <= k < r.len() && r[k].col == qx && r[k].row == qz by {
                        if qz == pz && qx == px {
                            assert(r[r.len() - 1].col == qx && r[r.len() - 1].row == qz);
                        } else {
                            let k = choose|k: int| 0 <= k < old_r.len() && old_r[k].col == qx && old_r[k].row == qz;
                            assert(r[k].col == qx && r[k].row == qz);
                        }
                    }
                }
            }
            px = px + 1;
        }
        proof {
            assert forall|qx: int, qz: int|
                #[trigger] in_kernel(cx as int, cz as int, w as int, h as int, qx, qz) && qz < pz + 1
                    implies exists|k: int| 0 <= k < r.len() && r[k].col == qx && r[k].row == qz by {
                if qz == pz {
                    lemma_kernel_near(cx as int, cz as int, w as int, h as int, qx, qz);
                    assert(qx < px);
                }
            }
        }
        pz = pz + 1;
    }
    proof {
        assert forall|qx: int, qz: int|
            #[trigger] in_kernel(cx as int, cz as int, w as int, h as int, qx, qz) implies exists|k: int|
                0 <= k < r.len() && r[k].col == qx && r[k].row == qz by {
            lemma_kernel_near(cx as int, cz as int, w as int, h as int, qx, qz);
            assert(qz < pz);
        }
    }
    r
}

} // verus!
