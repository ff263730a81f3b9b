//! The regular lattice on which particles are spawned.
use vstd::prelude::*;
use vstd::arithmetic::div_mod::lemma_fundamental_div_mod_converse;

verus! {

/// Grid spacing, in world units, between neighbouring spawn points.
pub const SPATIAL_INTERVAL: u32 = 5;

/// A spawn point in world units.
#[derive(Clone, Copy, Debug, PartialEq, Eq, Structural)]
pub struct LatticePoint {
    pub x: u32,
    pub y: u32,
}

/// Number of lattice lines that fit along an extent: `floor(extent / interval)`.
pub open spec fn lines_along(extent: nat, interval: nat) -> nat
    recommends
        interval > 0,
{
    extent / interval
}

/// Number of spawn points for a viewport.
pub open spec fn lattice_len(width: nat, height: nat, interval: nat) -> nat {
    lines_along(width, interval) * lines_along(height, interval)
}

/// The spawn point with index `i`, counting row-major with `x` outer and `y`
/// inner, where a column holds `rows` points.
pub open spec fn lattice_point(i: int, rows: int, interval: int) -> (int, int) {
    ((i / rows) * interval, (i % rows) * interval)
}

/// One point per grid cell of a `width` by `height` viewport: `x` in
/// `0..floor(width / interval)`, `y` in `0..floor(height / interval)`, each at
/// `(x * interval, y * interval)`, `x` outer and `y` inner. A zero extent
/// gives no point.
pub fn lattice_points(width: u32, height: u32, interval: u32) -> (r: Vec<LatticePoint>)
    requires
        interval > 0,
        lattice_len(width as nat, height as nat, interval as nat) <= usize::MAX,
    ensures
        r@.len() == lattice_len(width as nat, height as nat, interval as nat),
        forall|i: int|
            0 <= i < r@.len() ==> (r@[i].x as int, r@[i].y as int) == lattice_point(
                i,
                lines_along(height as nat, interval as nat) as int,
                interval as int,
            ),
{
    let cols: u32 = width / interval;
    let rows: u32 = height / interval;
    let ghost rows_i = rows as int;
    let ghost step = interval as int;
    let mut r: Vec<LatticePoint> = Vec::new();
    let mut x: u32 = 0;
    while x < cols
        invariant
            interval > 0,
            cols == width / interval,
            rows == height / interval,
            rows_i == rows as int,
            step == interval as int,
            cols as int * rows as int <= usize::MAX,
            x <= cols,
            r@.len() == x as int * rows as int,
            forall|i: int| 0 <= i < r@.len() ==> (r@[i].x as int, r@[i].y as int) == lattice_point(i, rows_i, step),
        decreases cols - x,
    {
        assert(x as int * interval as int <= width) by (nonlinear_arith)
            requires
                x < cols,
                cols == width / interval,
                interval > 0,
        {
            assert(cols as int * interval as int <= width);
        }
        let px: u32 = x * interval;
        let mut y: u32 = 0;
        while y < rows
            invariant
                interval > 0,
                cols == width / interval,
                rows == height / interval,
                rows_i == rows as int,
                step == interval as int,
                cols as int * rows as int <= usize::MAX,
                x < cols,
                y <= rows,
                px as int == x as int * interval as int,
                r@.len() == x as int * rows as int + y as int,
                forall|i: int| 0 <= i < r@.len() ==> (r@[i].x as int, r@[i].y as int) == lattice_point(i, rows_i, step),
            decreases rows - y,
        {
            assert(y as int * interval as int <= height) by (nonlinear_arith)
                requires
                    y < rows,
                    rows == height / interval,
                    interval > 0,
            {
                assert(rows as int * interval as int <= height);
            }
            assert((x as int * rows as int + y as int) < cols as int * rows as int) by (nonlinear_arith)
                requires
                    x < cols,
                    y < rows,
            ;
            let ghost k = r@.len() as int;
            proof {
                lemma_fundamental_div_mod_converse(k, rows_i, x as int, y as int);
            }
            r.push(LatticePoint { x: px, y: y * interval });
            y = y + 1;
        }
        assert((x as int + 1) * rows as int == x as int * rows as int + rows as int) by (nonlinear_arith);
        x = x + 1;
    }
    r
}

} // verus!
