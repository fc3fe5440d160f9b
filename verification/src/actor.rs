use vstd::prelude::*;

use crate::grid::Grid;
use crate::motion::Axis;
use crate::motion::BoxSize;
use crate::motion::Pos;
use crate::motion::grounded_spec;
use crate::motion::is_grounded;
use crate::motion::move_axis;
use crate::motion::move_h_spec;
use crate::motion::move_v_spec;

verus! {

/// Gravitational acceleration, in velocity units per time unit. With the
/// bundled front end's scale (thousandths of a pixel, milliseconds) this is
/// 2000 pixels per second squared.
pub const GRAVITY: i64 = 2;

/// Magnitude of the horizontal walking velocity, in world units per time
/// unit (300 pixels per second at the front end's scale).
pub const MOVE_SPEED: i64 = 300;

/// Vertical velocity set by a jump; negative is upward (700 pixels per
/// second at the front end's scale).
pub const JUMP_SPEED: i64 = -700;

/// Largest admitted magnitude of a position coordinate entering a tick.
pub const MAX_TICK_COORD: i64 = 1_000_000_000_000_000;

/// Largest admitted magnitude of the vertical velocity entering a tick.
pub const MAX_TICK_SPEED: i64 = 1_000_000_000;

/// Largest admitted tick length.
pub const MAX_TICK_DT: i64 = 1_000_000;

/// Player intent for one tick, already read from whatever input device the
/// host uses. `jump` is edge-triggered: true only on the tick the jump key
/// went down.
#[derive(Clone, Copy, Debug, PartialEq, Eq, Structural)]
pub struct Input {
    pub left: bool,
    pub right: bool,
    pub jump: bool,
}

/// The single player-controlled rectangle: a fixed box size, the top-left
/// corner's position, and the current velocity.
#[derive(Clone, Copy, Debug, PartialEq, Eq, Structural)]
pub struct Actor {
    pub size: BoxSize,
    pub pos: Pos,
    pub vx: i64,
    pub vy: i64,
}

/// Mathematical state of an actor: box size, position and velocity as
/// unbounded integers.
pub ghost struct ActorModel {
    pub w: int,
    pub h: int,
    pub x: int,
    pub y: int,
    pub vx: int,
    pub vy: int,
}

impl View for Actor {
    type V = ActorModel;

    open spec fn view(&self) -> ActorModel {
        ActorModel {
            w: self.size.w as int,
            h: self.size.h as int,
            x: self.pos.x as int,
            y: self.pos.y as int,
            vx: self.vx as int,
            vy: self.vy as int,
        }
    }
}

impl Actor {
    /// A freshly spawned actor: at `spawn`, at rest.
    pub fn new(size: BoxSize, spawn: Pos) -> (a: Actor)
        ensures
            a.size == size,
            a.pos == spawn,
            a.vx == 0,
            a.vy == 0,
    {
        Actor { size, pos: spawn, vx: 0, vy: 0 }
    }
}

/// Whether the actor model rests on solid ground.
pub open spec fn model_grounded(g: Grid, a: ActorModel) -> bool {
    grounded_spec(g, a.w, a.h, a.x, a.y)
}

/// Horizontal velocity dictated by the input: walking snaps instantly to
/// full speed or to a stop, a simultaneous left takes second place to right.
pub open spec fn vx_of_input(inp: Input) -> int {
    if inp.right {
        MOVE_SPEED as int
    } else if inp.left {
        -MOVE_SPEED as int
    } else {
        0
    }
}

/// One simulation tick, in the committed order: read the grounded state at
/// the current position; let gravity accumulate (airborne) or reset the
/// vertical velocity (grounded); snap the horizontal velocity to the input;
/// start a jump only if grounded this tick; then resolve the vertical move
/// and the horizontal move, in that order, against the grid.
pub open spec fn spec_tick(g: Grid, a: ActorModel, inp: Input, dt: int) -> ActorModel {
    let grounded = model_grounded(g, a);
    let vy_fall = if grounded {
        0
    } else {
        a.vy + GRAVITY * dt
    };
    let vx = vx_of_input(inp);
    let vy = if inp.jump && grounded {
        JUMP_SPEED as int
    } else {
        vy_fall
    };
    let y = move_v_spec(g, a.w, a.h, a.x, a.y, vy * dt).0;
    let x = move_h_spec(g, a.w, a.h, a.x, y, vx * dt).0;
    ActorModel { w: a.w, h: a.h, x, y, vx, vy }
}

/// Advances the actor by one tick of length `dt` against `g`, following the
/// committed update order, and returns the grounded state that was read at
/// the start of the tick. The coordinate, velocity and tick-length bounds
/// only keep the integer arithmetic inside `i64`.
pub fn tick(g: &Grid, actor: &mut Actor, inp: Input, dt: i64) -> (grounded: bool)
    requires
        g.wf(),
        old(actor).size.wf(),
        -MAX_TICK_COORD <= old(actor).pos.x <= MAX_TICK_COORD,
        -MAX_TICK_COORD <= old(actor).pos.y <= MAX_TICK_COORD,
        -MAX_TICK_SPEED <= old(actor).vy <= MAX_TICK_SPEED,
        0 <= dt <= MAX_TICK_DT,
    ensures
        final(actor)@ == spec_tick(*g, old(actor)@, inp, dt as int),
        final(actor).size == old(actor).size,
        grounded == model_grounded(*g, old(actor)@),
{
    let on_ground: bool = is_grounded(g, actor.size, actor.pos);
    if !on_ground {
        actor.vy = actor.vy + GRAVITY * dt;
    } else {
        actor.vy = 0;
    }
    if inp.right {
        actor.vx = MOVE_SPEED;
    } else if inp.left {
        actor.vx = -MOVE_SPEED;
    } else {
        actor.vx = 0;
    }
    if inp.jump && on_ground {
        actor.vy = JUMP_SPEED;
    }
    proof {
        assert(-1_002_000_000_000_000 <= actor.vy * dt <= 1_002_000_000_000_000) by (nonlinear_arith)
            requires
                -1_002_000_000 <= actor.vy <= 1_002_000_000,
                0 <= dt <= 1_000_000,
        ;
        assert(-300_000_000 <= actor.vx * dt <= 300_000_000) by (nonlinear_arith)
            requires
                -300 <= actor.vx <= 300,
                0 <= dt <= 1_000_000,
        ;
    }
    let (pos_v, _hit_v): (Pos, bool) = move_axis(g, actor.size, actor.pos, Axis::Vertical, actor.vy * dt);
    actor.pos = pos_v;
    let (pos_h, _hit_h): (Pos, bool) = move_axis(g, actor.size, actor.pos, Axis::Horizontal, actor.vx * dt);
    actor.pos = pos_h;
    on_ground
}

} // verus!
