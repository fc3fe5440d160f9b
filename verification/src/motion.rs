use vstd::prelude::*;

use crate::grid::Grid;

verus! {

/// Largest admitted magnitude of a position coordinate.
pub const MAX_COORD: i64 = 1_000_000_000_000_000_000;

/// Largest admitted magnitude of a requested displacement.
pub const MAX_DELTA: i64 = 1_000_000_000_000_000_000;

/// Largest admitted actor edge length, in world units.
pub const MAX_BOX: i64 = 1_000_000_000;

/// Largest world extent of an authored grid: `MAX_GRID_DIM * MAX_CELL_SIZE`.
pub const MAX_GRID_PRODUCT: i64 = 1_000_000_000_000_000;

/// Top-left corner of the actor's rectangle, in world units.
#[derive(Clone, Copy, Debug, PartialEq, Eq, Structural)]
pub struct Pos {
    pub x: i64,
    pub y: i64,
}

impl Pos {
    /// Both coordinates within the admitted world range.
    pub open spec fn in_world(self) -> bool {
        &&& -MAX_COORD <= self.x <= MAX_COORD
        &&& -MAX_COORD <= self.y <= MAX_COORD
    }
}

/// Fixed size of the actor's rectangle. The box occupies the half-open
/// region [x, x+w) x [y, y+h) of world space.
#[derive(Clone, Copy, Debug, PartialEq, Eq, Structural)]
pub struct BoxSize {
    pub w: i64,
    pub h: i64,
}

impl BoxSize {
    /// Positive bounded edge lengths.
    pub open spec fn wf(self) -> bool {
        &&& 0 < self.w <= MAX_BOX
        &&& 0 < self.h <= MAX_BOX
    }
}

/// Axis of a single resolution step.
#[derive(Clone, Copy, Debug, PartialEq, Eq, Structural)]
pub enum Axis {
    Horizontal,
    Vertical,
}

/// Whether a downward-moving box whose top edge would come to rest at ny
/// hits a solid cell: the two bottom corners of the destination rectangle
/// are sampled.
pub open spec fn hits_down(g: Grid, w: int, h: int, x: int, ny: int) -> bool {
    ||| g.solid_at(x, ny + h - 1)
    ||| g.solid_at(x + w - 1, ny + h - 1)
}

/// Whether an upward-moving box whose top edge would come to rest at ny
/// hits a solid cell: the two top corners of the destination rectangle are
/// sampled.
pub open spec fn hits_up(g: Grid, w: int, h: int, x: int, ny: int) -> bool {
    ||| g.solid_at(x, ny)
    ||| g.solid_at(x + w - 1, ny)
}

/// Whether a rightward-moving box whose left edge would come to rest at nx
/// hits a solid cell: the two right corners of the destination rectangle
/// are sampled.
pub open spec fn hits_right(g: Grid, w: int, h: int, nx: int, y: int) -> bool {
    ||| g.solid_at(nx + w - 1, y)
    ||| g.solid_at(nx + w - 1, y + h - 1)
}

/// Whether a leftward-moving box whose left edge would come to rest at nx
/// hits a solid cell: the two left corners of the destination rectangle are
/// sampled.
pub open spec fn hits_left(g: Grid, w: int, h: int, nx: int, y: int) -> bool {
    ||| g.solid_at(nx, y)
    ||| g.solid_at(nx, y + h - 1)
}

/// Result of one vertical resolution step: the new top coordinate and
/// whether the move was blocked. A blocked move snaps the leading edge
/// flush onto the boundary of the blocking cell; only the destination is
/// sampled, so a delta longer than one cell may pass a thin obstacle (an
/// accepted design limitation).
pub open spec fn move_v_spec(g: Grid, w: int, h: int, x: int, y: int, delta: int) -> (int, bool) {
    let ny = y + delta;
    if delta > 0 {
        if hits_down(g, w, h, x, ny) {
            (g.row_of(ny + h - 1) * g.tile_h() - h, true)
        } else {
            (ny, false)
        }
    } else if delta < 0 {
        if hits_up(g, w, h, x, ny) {
            ((g.row_of(ny) + 1) * g.tile_h(), true)
        } else {
            (ny, false)
        }
    } else {
        (y, false)
    }
}

/// Result of one horizontal resolution step: the new left coordinate and
/// whether the move was blocked.
pub open spec fn move_h_spec(g: Grid, w: int, h: int, x: int, y: int, delta: int) -> (int, bool) {
    let nx = x + delta;
    if delta > 0 {
        if hits_right(g, w, h, nx, y) {
            (g.col_of(nx + w - 1) * g.tile_w() - w, true)
        } else {
            (nx, false)
        }
    } else if delta < 0 {
        if hits_left(g, w, h, nx, y) {
            ((g.col_of(nx) + 1) * g.tile_w(), true)
        } else {
            (nx, false)
        }
    } else {
        (x, false)
    }
}

/// A one-unit downward probe from the current position: true exactly when
/// the actor's bottom edge rests on solid ground.
pub open spec fn grounded_spec(g: Grid, w: int, h: int, x: int, y: int) -> bool {
    hits_down(g, w, h, x, y + 1)
}

/// Floor quotient of a non-negative numerator by a positive divisor.
fn div_floor_nonneg(a: i64, b: i64) -> (r: i64)
    requires
        0 <= a,
        0 < b,
    ensures
        r == a as int / b as int,
{
    ((a as u64) / (b as u64)) as i64
}

/// Moves the actor's box from `pos` by `delta` along `axis`, stopping flush
/// against the first solid cell the destination's leading-edge corners land
/// in, and reports whether the move was blocked. The other coordinate is
/// left unchanged; a zero delta is a no-op.
pub fn move_axis(g: &Grid, size: BoxSize, pos: Pos, axis: Axis, delta: i64) -> (r: (Pos, bool))
    requires
        g.wf(),
        size.wf(),
        pos.in_world(),
        -MAX_DELTA <= delta <= MAX_DELTA,
    ensures
        axis == Axis::Vertical ==> {
            let m = move_v_spec(*g, size.w as int, size.h as int, pos.x as int, pos.y as int, delta as int);
            r.0.x == pos.x && r.0.y == m.0 && r.1 == m.1
        },
        axis == Axis::Horizontal ==> {
            let m = move_h_spec(*g, size.w as int, size.h as int, pos.x as int, pos.y as int, delta as int);
            r.0.y == pos.y && r.0.x == m.0 && r.1 == m.1
        },
        axis == Axis::Vertical ==> r.0.y == pos.y + delta
            || (-MAX_BOX <= r.0.y && r.0.y <= MAX_GRID_PRODUCT),
        axis == Axis::Horizontal ==> r.0.x == pos.x + delta
            || (-MAX_BOX <= r.0.x && r.0.x <= MAX_GRID_PRODUCT),
{
    match axis {
        Axis::Vertical => {
            if delta == 0 {
                return (pos, false);
            }
            let ny: i64 = pos.y + delta;
            let far_x: i64 = pos.x + size.w - 1;
            if delta > 0 {
                let ly: i64 = ny + size.h - 1;
                if g.is_solid_at(pos.x, ly) || g.is_solid_at(far_x, ly) {
                    let row: i64 = div_floor_nonneg(ly, g.tile_height());
                    proof {
                        lemma_clamp_bounds(*g, ly as int);
                    }
                    (Pos { x: pos.x, y: row * g.tile_height() - size.h }, true)
                } else {
                    (Pos { x: pos.x, y: ny }, false)
                }
            } else {
                if g.is_solid_at(pos.x, ny) || g.is_solid_at(far_x, ny) {
                    let row: i64 = div_floor_nonneg(ny, g.tile_height());
                    proof {
                        lemma_clamp_bounds(*g, ny as int);
                    }
                    (Pos { x: pos.x, y: (row + 1) * g.tile_height() }, true)
                } else {
                    (Pos { x: pos.x, y: ny }, false)
                }
            }
        },
        Axis::Horizontal => {
            if delta == 0 {
                return (pos, false);
            }
            let nx: i64 = pos.x + delta;
            let far_y: i64 = pos.y + size.h - 1;
            if delta > 0 {
                let lx: i64 = nx + size.w - 1;
                if g.is_solid_at(lx, pos.y) || g.is_solid_at(lx, far_y) {
                    let col: i64 = div_floor_nonneg(lx, g.tile_width());
                    proof {
                        lemma_clamp_bounds_col(*g, lx as int);
                    }
                    (Pos { x: col * g.tile_width() - size.w, y: pos.y }, true)
                } else {
                    (Pos { x: nx, y: pos.y }, false)
                }
            } else {
                if g.is_solid_at(nx, pos.y) || g.is_solid_at(nx, far_y) {
                    let col: i64 = div_floor_nonneg(nx, g.tile_width());
                    proof {
                        lemma_clamp_bounds_col(*g, nx as int);
                    }
                    (Pos { x: (col + 1) * g.tile_width(), y: pos.y }, true)
                } else {
                    (Pos { x: nx, y: pos.y }, false)
                }
            }
        },
    }
}

/// For a well-formed grid and a coordinate inside some authored row, the
/// containing row's index and boundaries stay in small ranges, so the
/// clamped coordinates fit comfortably in `i64`.
proof fn lemma_clamp_bounds(g: Grid, y: int)
    requires
        g.wf(),
        0 <= y,
        g.row_of(y) < g.rows(),
    ensures
        0 <= g.row_of(y) < g.rows(),
        0 <= g.row_of(y) * g.tile_h() <= MAX_GRID_PRODUCT,
        0 <= (g.row_of(y) + 1) * g.tile_h() <= MAX_GRID_PRODUCT,
{
    assert(0 <= y / g.tile_h()) by (nonlinear_arith)
        requires
            0 <= y,
            0 < g.tile_h(),
    ;
    assert((y / g.tile_h()) * g.tile_h() <= MAX_GRID_PRODUCT - g.tile_h()
        && ((y / g.tile_h()) + 1) * g.tile_h() <= MAX_GRID_PRODUCT
        && 0 <= (y / g.tile_h()) * g.tile_h()) by (nonlinear_arith)
        requires
            0 <= y / g.tile_h() < g.rows(),
            g.rows() <= 1_000_000,
            0 < g.tile_h() <= 1_000_000_000,
    ;
}

/// Column analogue of `lemma_clamp_bounds`.
proof fn lemma_clamp_bounds_col(g: Grid, x: int)
    requires
        g.wf(),
        0 <= x,
        g.col_of(x) < g.cols(),
    ensures
        0 <= g.col_of(x) < g.cols(),
        0 <= g.col_of(x) * g.tile_w() <= MAX_GRID_PRODUCT,
        0 <= (g.col_of(x) + 1) * g.tile_w() <= MAX_GRID_PRODUCT,
{
    assert(0 <= x / g.tile_w()) by (nonlinear_arith)
        requires
            0 <= x,
            0 < g.tile_w(),
    ;
    assert((x / g.tile_w()) * g.tile_w() <= MAX_GRID_PRODUCT - g.tile_w()
        && ((x / g.tile_w()) + 1) * g.tile_w() <= MAX_GRID_PRODUCT
        && 0 <= (x / g.tile_w()) * g.tile_w()) by (nonlinear_arith)
        requires
            0 <= x / g.tile_w() < g.cols(),
            g.cols() <= 1_000_000,
            0 < g.tile_w() <= 1_000_000_000,
    ;
}

/// Probes one unit downward from the current position without committing a
/// move: true exactly when a solid cell lies directly under the actor's
/// bottom edge.
pub fn is_grounded(g: &Grid, size: BoxSize, pos: Pos) -> (r: bool)
    requires
        g.wf(),
        size.wf(),
        pos.in_world(),
    ensures
        r == grounded_spec(*g, size.w as int, size.h as int, pos.x as int, pos.y as int),
{
    let by: i64 = pos.y + size.h;
    g.is_solid_at(pos.x, by) || g.is_solid_at(pos.x + size.w - 1, by)
}

} // verus!
