use vstd::prelude::*;

verus! {

/// Width of the kernel's workgroup, in cells.
pub const TILE_W: u32 = 8;

/// Height of the kernel's workgroup, in cells.
pub const TILE_H: u32 = 8;

/// The number of tiles of size `d` needed to cover `n` cells: `ceil(n / d)`.
pub open spec fn ceil_div(n: int, d: int) -> int {
    (n + d - 1) / d
}

/// The workgroup counts of one compute dispatch.
#[derive(Debug, Clone, Copy, PartialEq, Eq, Structural)]
pub struct DispatchGroups {
    pub x: u32,
    pub y: u32,
    pub z: u32,
}

/// The dispatch that covers a `width` by `height` grid with 8x8 tiles.
pub open spec fn groups_for(width: int, height: int) -> (int, int, int) {
    (ceil_div(width, TILE_W as int), ceil_div(height, TILE_H as int), 1)
}

impl DispatchGroups {
    /// The counts as a triple of integers, in the order `(x, y, z)`.
    pub open spec fn spec_triple(self) -> (int, int, int) {
        (self.x as int, self.y as int, self.z as int)
    }
}

/// Number of tiles of size `tile` along an axis of `extent` cells, rounding
/// up so that a partial tile at the edge is counted.
pub fn workgroup_count(extent: u32, tile: u32) -> (r: u32)
    requires
        tile > 0,
    ensures
        r == ceil_div(extent as int, tile as int),
{
    let q: u32 = extent / tile;
    let m: u32 = extent % tile;
    proof {
        let n = extent as int;
        let d = tile as int;
        vstd::arithmetic::div_mod::lemma_fundamental_div_mod(n, d);
        assert(((n + d - 1) / d == q as int) == (m == 0)
            && (m != 0 ==> (n + d - 1) / d == q as int + 1)
            && (m != 0 ==> q < 0xFFFF_FFFF)) by (nonlinear_arith)
            requires
                n <= 0xFFFF_FFFF,
                d > 0,
                n == d * (q as int) + (m as int),
                0 <= m < d,
                q >= 0,
        ;
    }
    if m == 0 {
        q
    } else {
        q + 1
    }
}

/// The workgroup counts for one generation of a `width` by `height` grid.
pub fn dispatch_groups(width: u32, height: u32) -> (g: DispatchGroups)
    ensures
        g.spec_triple() == groups_for(width as int, height as int),
{
    DispatchGroups { x: workgroup_count(width, TILE_W), y: workgroup_count(height, TILE_H), z: 1 }
}

/// Every cell `(x, y)` of a `width` by `height` grid lies in the range of a
/// dispatched workgroup: the one at `(x / 8, y / 8)`, which is within the
/// dispatch counts and whose 8x8 range holds the cell. Partial tiles at the
/// edges are therefore never left out.
pub proof fn lemma_dispatch_covers(width: int, height: int, x: int, y: int)
    requires
        0 <= x < width,
        0 <= y < height,
    ensures
        ({
            let (gx, gy, gz) = groups_for(width, height);
            let (tx, ty) = (x / TILE_W as int, y / TILE_H as int);
            &&& 0 <= tx < gx
            &&& 0 <= ty < gy
            &&& gz == 1
            &&& tx * TILE_W as int <= x < tx * TILE_W as int + TILE_W as int
            &&& ty * TILE_H as int <= y < ty * TILE_H as int + TILE_H as int
        }),
{
    lemma_tile_in_range(width, x);
    lemma_tile_in_range(height, y);
}

proof fn lemma_tile_in_range(n: int, x: int)
    requires
        0 <= x < n,
    ensures
        0 <= x / 8 < ceil_div(n, 8),
        (x / 8) * 8 <= x < (x / 8) * 8 + 8,
{
    assert(0 <= x / 8 < (n + 7) / 8 && (x / 8) * 8 <= x < (x / 8) * 8 + 8) by (nonlinear_arith)
        requires
            0 <= x < n,
    ;
}

/// No workgroup of the dispatch lies wholly outside the grid: the counts are
/// the least that cover it.
pub proof fn lemma_dispatch_is_tight(n: int)
    requires
        n >= 0,
    ensures
        (ceil_div(n, 8) - 1) * 8 < n || ceil_div(n, 8) == 0,
        ceil_div(n, 8) * 8 >= n,
{
    assert(((n + 7) / 8 - 1) * 8 < n || (n + 7) / 8 == 0) by (nonlinear_arith)
        requires
            n >= 0,
    ;
    assert((n + 7) / 8 * 8 >= n) by (nonlinear_arith)
        requires
            n >= 0,
    ;
}

} // verus!
