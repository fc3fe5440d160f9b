use vstd::prelude::*;

use vstd::arithmetic::div_mod::lemma_fundamental_div_mod;
use vstd::arithmetic::div_mod::lemma_mod_division_less_than_divisor;

use crate::actor::ActorModel;
use crate::actor::GRAVITY;
use crate::actor::Input;
use crate::actor::JUMP_SPEED;
use crate::actor::model_grounded;
use crate::actor::spec_tick;
use crate::grid::Grid;
use crate::motion::grounded_spec;
use crate::motion::hits_down;
use crate::motion::hits_left;
use crate::motion::hits_right;
use crate::motion::hits_up;
use crate::motion::move_h_spec;
use crate::motion::move_v_spec;

verus! {

/// Unobstructed vertical motion: when the destination's leading-edge
/// samples are all empty, the full delta is applied and no collision is
/// reported.
pub proof fn lemma_move_unobstructed_v(g: Grid, w: int, h: int, x: int, y: int, delta: int)
    requires
        delta > 0 ==> !hits_down(g, w, h, x, y + delta),
        delta < 0 ==> !hits_up(g, w, h, x, y + delta),
    ensures
        move_v_spec(g, w, h, x, y, delta) == (y + delta, false),
{
}

/// Unobstructed horizontal motion: when the destination's leading-edge
/// samples are all empty, the full delta is applied and no collision is
/// reported.
pub proof fn lemma_move_unobstructed_h(g: Grid, w: int, h: int, x: int, y: int, delta: int)
    requires
        delta > 0 ==> !hits_right(g, w, h, x + delta, y),
        delta < 0 ==> !hits_left(g, w, h, x + delta, y),
    ensures
        move_h_spec(g, w, h, x, y, delta) == (x + delta, false),
{
}

/// A zero delta is a no-op on either axis: the position is returned
/// unchanged and no collision is reported.
pub proof fn lemma_move_zero_delta(g: Grid, w: int, h: int, x: int, y: int)
    ensures
        move_v_spec(g, w, h, x, y, 0) == (y, false),
        move_h_spec(g, w, h, x, y, 0) == (x, false),
{
}

/// A blocked downward move reports the collision and leaves the actor's
/// bottom edge exactly on the top boundary of the row holding the blocking
/// solid cell: flush against it, overlapping nothing.
pub proof fn lemma_move_blocked_down(g: Grid, w: int, h: int, x: int, y: int, delta: int)
    requires
        g.wf(),
        delta > 0,
        hits_down(g, w, h, x, y + delta),
    ensures
        ({
            let edge = y + delta + h - 1;
            let row = g.row_of(edge);
            let m = move_v_spec(g, w, h, x, y, delta);
            &&& m.1
            &&& m.0 + h == row * g.tile_h()
            &&& row * g.tile_h() <= edge < (row + 1) * g.tile_h()
        }),
{
    let edge = y + delta + h - 1;
    let th = g.tile_h();
    let row = g.row_of(edge);
    lemma_fundamental_div_mod(edge, th);
    lemma_mod_division_less_than_divisor(edge, th);
    assert(row * th <= edge < (row + 1) * th) by (nonlinear_arith)
        requires
            edge == th * row + edge % th,
            0 <= edge % th < th,
    ;
}

/// A blocked upward move reports the collision and leaves the actor's top
/// edge exactly on the bottom boundary of the row holding the blocking
/// solid cell.
pub proof fn lemma_move_blocked_up(g: Grid, w: int, h: int, x: int, y: int, delta: int)
    requires
        g.wf(),
        delta < 0,
        hits_up(g, w, h, x, y + delta),
    ensures
        ({
            let edge = y + delta;
            let row = g.row_of(edge);
            let m = move_v_spec(g, w, h, x, y, delta);
            &&& m.1
            &&& m.0 == (row + 1) * g.tile_h()
            &&& row * g.tile_h() <= edge < (row + 1) * g.tile_h()
        }),
{
    let edge = y + delta;
    let th = g.tile_h();
    let row = g.row_of(edge);
    lemma_fundamental_div_mod(edge, th);
    lemma_mod_division_less_than_divisor(edge, th);
    assert(row * th <= edge < (row + 1) * th) by (nonlinear_arith)
        requires
            edge == th * row + edge % th,
            0 <= edge % th < th,
    ;
}

/// A blocked rightward move reports the collision and leaves the actor's
/// right edge exactly on the left boundary of the column holding the
/// blocking solid cell.
pub proof fn lemma_move_blocked_right(g: Grid, w: int, h: int, x: int, y: int, delta: int)
    requires
        g.wf(),
        delta > 0,
        hits_right(g, w, h, x + delta, y),
    ensures
        ({
            let edge = x + delta + w - 1;
            let col = g.col_of(edge);
            let m = move_h_spec(g, w, h, x, y, delta);
            &&& m.1
            &&& m.0 + w == col * g.tile_w()
            &&& col * g.tile_w() <= edge < (col + 1) * g.tile_w()
        }),
{
    let edge = x + delta + w - 1;
    let tw = g.tile_w();
    let col = g.col_of(edge);
    lemma_fundamental_div_mod(edge, tw);
    lemma_mod_division_less_than_divisor(edge, tw);
    assert(col * tw <= edge < (col + 1) * tw) by (nonlinear_arith)
        requires
            edge == tw * col + edge % tw,
            0 <= edge % tw < tw,
    ;
}

/// A blocked leftward move reports the collision and leaves the actor's
/// left edge exactly on the right boundary of the column holding the
/// blocking solid cell.
pub proof fn lemma_move_blocked_left(g: Grid, w: int, h: int, x: int, y: int, delta: int)
    requires
        g.wf(),
        delta < 0,
        hits_left(g, w, h, x + delta, y),
    ensures
        ({
            let edge = x + delta;
            let col = g.col_of(edge);
            let m = move_h_spec(g, w, h, x, y, delta);
            &&& m.1
            &&& m.0 == (col + 1) * g.tile_w()
            &&& col * g.tile_w() <= edge < (col + 1) * g.tile_w()
        }),
{
    let edge = x + delta;
    let tw = g.tile_w();
    let col = g.col_of(edge);
    lemma_fundamental_div_mod(edge, tw);
    lemma_mod_division_less_than_divisor(edge, tw);
    assert(col * tw <= edge < (col + 1) * tw) by (nonlinear_arith)
        requires
            edge == tw * col + edge % tw,
            0 <= edge % tw < tw,
    ;
}

/// The grounded test is exactly a one-unit downward probe: it holds if and
/// only if a vertical move by one unit would collide.
pub proof fn lemma_grounded_is_unit_probe(g: Grid, w: int, h: int, x: int, y: int)
    ensures
        grounded_spec(g, w, h, x, y) == move_v_spec(g, w, h, x, y, 1).1,
{
}

/// The actor state after `n` ticks of length `dt` each, all with the same
/// input.
pub open spec fn spec_ticks(g: Grid, a: ActorModel, inp: Input, dt: int, n: nat) -> ActorModel
    decreases n,
{
    if n == 0 {
        a
    } else {
        spec_tick(g, spec_ticks(g, a, inp, dt, (n - 1) as nat), inp, dt)
    }
}

/// Gravity accumulates linearly and unbounded: starting at rest, after `n`
/// ticks of length `dt` in which the actor never touches ground and no jump
/// is issued, the vertical velocity is exactly `n * GRAVITY * dt`.
pub proof fn lemma_gravity_accumulation(g: Grid, a: ActorModel, inp: Input, dt: int, n: nat)
    requires
        a.vy == 0,
        !inp.jump,
        forall|k: nat| k < n ==> !model_grounded(g, #[trigger] spec_ticks(g, a, inp, dt, k)),
    ensures
        spec_ticks(g, a, inp, dt, n).vy == n * (GRAVITY as int) * dt,
    decreases n,
{
    let gi = GRAVITY as int;
    if n == 0 {
        assert(n * gi * dt == 0) by (nonlinear_arith)
            requires
                n == 0,
        ;
    } else {
        let m = (n - 1) as nat;
        lemma_gravity_accumulation(g, a, inp, dt, m);
        let prev = spec_ticks(g, a, inp, dt, m);
        assert(!model_grounded(g, prev));
        assert(m * gi * dt + gi * dt == n * gi * dt) by (nonlinear_arith)
            requires
                n == m + 1,
        ;
    }
}

/// Standing on ground without jumping resets the vertical velocity to zero
/// on that tick.
pub proof fn lemma_grounded_resets_velocity(g: Grid, a: ActorModel, inp: Input, dt: int)
    requires
        model_grounded(g, a),
        !inp.jump,
    ensures
        spec_tick(g, a, inp, dt).vy == 0,
{
}

/// A jump issued while grounded takes effect at once: the vertical velocity
/// becomes exactly `JUMP_SPEED` on that tick.
pub proof fn lemma_jump_when_grounded(g: Grid, a: ActorModel, inp: Input, dt: int)
    requires
        model_grounded(g, a),
        inp.jump,
    ensures
        spec_tick(g, a, inp, dt).vy == JUMP_SPEED,
{
}

/// A jump issued while airborne has no effect at all: the tick ends in the
/// same state as with the jump flag cleared.
pub proof fn lemma_jump_ignored_while_airborne(g: Grid, a: ActorModel, inp: Input, dt: int)
    requires
        !model_grounded(g, a),
    ensures
        spec_tick(g, a, inp, dt) == spec_tick(
            g,
            a,
            Input { left: inp.left, right: inp.right, jump: false },
            dt,
        ),
{
}

} // verus!
