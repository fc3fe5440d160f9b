use platformer_core::Actor;
use platformer_core::Axis;
use platformer_core::BoxSize;
use platformer_core::ConfigError;
use platformer_core::Grid;
use platformer_core::Input;
use platformer_core::Pos;
use platformer_core::is_grounded;
use platformer_core::move_axis;
use platformer_core::tick;

fn box20() -> BoxSize {
    BoxSize { w: 20, h: 20 }
}

fn idle() -> Input {
    Input { left: false, right: false, jump: false }
}

/// 10x10 grid of 32x32 cells, all empty except the given solid cells.
fn grid_10x10(solid: &[(usize, usize)]) -> Grid {
    let mut cells = vec![false; 100];
    for &(col, row) in solid {
        cells[row * 10 + col] = true;
    }
    Grid::build(cells, 32, 32, 10, 10).unwrap()
}

/// 10x10 grid with every cell of row 5 solid: a floor whose top boundary is
/// at y = 160.
fn grid_floor_row5() -> Grid {
    let mut solid = Vec::new();
    for col in 0..10 {
        solid.push((col, 5));
    }
    grid_10x10(&solid)
}

#[test]
fn build_rejects_size_mismatch() {
    let r = Grid::build(vec![false; 99], 32, 32, 10, 10);
    assert_eq!(r.unwrap_err(), ConfigError::SizeMismatch);
}

#[test]
fn build_rejects_non_positive_cell_size() {
    let r = Grid::build(vec![false; 100], 0, 32, 10, 10);
    assert_eq!(r.unwrap_err(), ConfigError::NonPositiveCellSize);
    let r = Grid::build(vec![false; 100], 32, -5, 10, 10);
    assert_eq!(r.unwrap_err(), ConfigError::NonPositiveCellSize);
}

#[test]
fn build_accepts_empty_grid() {
    let g = Grid::build(Vec::new(), 32, 32, 0, 0).unwrap();
    assert!(!g.is_solid_at(0, 0));
    assert!(!g.is_solid_at(100, 100));
}

#[test]
fn solid_lookup_follows_cell_boundaries() {
    let g = grid_10x10(&[(1, 0)]);
    // cell (1, 0) covers [32, 64) x [0, 32)
    assert!(g.is_solid_at(32, 0));
    assert!(g.is_solid_at(63, 31));
    assert!(!g.is_solid_at(31, 0));
    assert!(!g.is_solid_at(64, 0));
    assert!(!g.is_solid_at(32, 32));
}

#[test]
fn solid_lookup_outside_grid_is_empty() {
    let g = grid_10x10(&[(0, 0), (9, 9)]);
    assert!(g.is_solid_at(0, 0));
    assert!(g.is_solid_at(319, 319));
    assert!(!g.is_solid_at(-1, 0));
    assert!(!g.is_solid_at(0, -1));
    assert!(!g.is_solid_at(320, 319));
    assert!(!g.is_solid_at(0, 320));
}

#[test]
fn free_move_applies_full_delta() {
    let g = grid_floor_row5();
    let p = Pos { x: 100, y: 100 };
    let (q, hit) = move_axis(&g, box20(), p, Axis::Vertical, 10);
    assert_eq!((q, hit), (Pos { x: 100, y: 110 }, false));
    let (q, hit) = move_axis(&g, box20(), p, Axis::Vertical, -30);
    assert_eq!((q, hit), (Pos { x: 100, y: 70 }, false));
    let (q, hit) = move_axis(&g, box20(), p, Axis::Horizontal, 55);
    assert_eq!((q, hit), (Pos { x: 155, y: 100 }, false));
    let (q, hit) = move_axis(&g, box20(), p, Axis::Horizontal, -120);
    assert_eq!((q, hit), (Pos { x: -20, y: 100 }, false));
}

#[test]
fn zero_delta_is_a_noop() {
    let g = grid_floor_row5();
    // even resting flush on the floor
    let p = Pos { x: 100, y: 140 };
    let (q, hit) = move_axis(&g, box20(), p, Axis::Vertical, 0);
    assert_eq!((q, hit), (p, false));
    let (q, hit) = move_axis(&g, box20(), p, Axis::Horizontal, 0);
    assert_eq!((q, hit), (p, false));
}

#[test]
fn blocked_down_snaps_bottom_edge_to_boundary() {
    let g = grid_floor_row5();
    // bottom edge at 120; floor's top boundary at 160
    let p = Pos { x: 100, y: 100 };
    let (q, hit) = move_axis(&g, box20(), p, Axis::Vertical, 60);
    assert!(hit);
    assert_eq!(q, Pos { x: 100, y: 140 });
    // smallest overlapping delta is clamped too
    let (q, hit) = move_axis(&g, box20(), p, Axis::Vertical, 41);
    assert!(hit);
    assert_eq!(q, Pos { x: 100, y: 140 });
}

#[test]
fn blocked_up_snaps_top_edge_to_boundary() {
    // ceiling cells above the actor: row 2 covers y in [64, 96)
    let g = grid_10x10(&[(3, 2), (4, 2)]);
    let p = Pos { x: 100, y: 120 };
    let (q, hit) = move_axis(&g, box20(), p, Axis::Vertical, -30);
    assert!(hit);
    assert_eq!(q, Pos { x: 100, y: 96 });
}

#[test]
fn blocked_right_snaps_right_edge_to_boundary() {
    // wall: column 7 covers x in [224, 256)
    let g = grid_10x10(&[(7, 3), (7, 4)]);
    let p = Pos { x: 100, y: 110 };
    let (q, hit) = move_axis(&g, box20(), p, Axis::Horizontal, 110);
    assert!(hit);
    assert_eq!(q, Pos { x: 204, y: 110 });
}

#[test]
fn blocked_left_snaps_left_edge_to_boundary() {
    // wall: column 2 covers x in [64, 96)
    let g = grid_10x10(&[(2, 3), (2, 4)]);
    let p = Pos { x: 150, y: 110 };
    let (q, hit) = move_axis(&g, box20(), p, Axis::Horizontal, -80);
    assert!(hit);
    assert_eq!(q, Pos { x: 96, y: 110 });
}

#[test]
fn long_delta_may_tunnel_past_thin_obstacle() {
    // accepted design limitation: only the destination corners are sampled
    let g = grid_floor_row5();
    let p = Pos { x: 100, y: 100 };
    let (q, hit) = move_axis(&g, box20(), p, Axis::Vertical, 100);
    assert_eq!((q, hit), (Pos { x: 100, y: 200 }, false));
}

#[test]
fn grounded_iff_solid_directly_below() {
    let with_floor = grid_floor_row5();
    let p = Pos { x: 100, y: 140 };
    assert!(is_grounded(&with_floor, box20(), p));
    // toggling the tiles under the actor flips the result
    let mut solid = Vec::new();
    for col in 0..10 {
        if col != 3 {
            solid.push((col, 5));
        }
    }
    let with_hole = grid_10x10(&solid);
    // actor spans x in [100, 120): entirely over the missing cell 3 ([96, 128))
    assert!(!is_grounded(&with_hole, box20(), p));
    // one unit above the floor is airborne
    assert!(!is_grounded(&with_floor, box20(), Pos { x: 100, y: 139 }));
}

#[test]
fn actor_spawns_at_rest() {
    let a = Actor::new(box20(), Pos { x: 200, y: 100 });
    assert_eq!(a.pos, Pos { x: 200, y: 100 });
    assert_eq!(a.vx, 0);
    assert_eq!(a.vy, 0);
}

#[test]
fn gravity_accumulates_linearly_while_airborne() {
    // empty grid: the actor never lands
    let g = Grid::build(vec![false; 100], 32, 32, 10, 10).unwrap();
    let mut a = Actor::new(box20(), Pos { x: 100, y: 0 });
    let dt: i64 = 16;
    for n in 1..=5i64 {
        let was_grounded = tick(&g, &mut a, idle(), dt);
        assert!(!was_grounded);
        assert_eq!(a.vy, n * platformer_core::GRAVITY * dt);
    }
    assert_eq!(a.vy, 160);
}

#[test]
fn jump_while_airborne_changes_nothing() {
    let g = grid_floor_row5();
    let jump = Input { left: false, right: false, jump: true };
    let start = Actor::new(box20(), Pos { x: 100, y: 0 });
    let mut with_jump = start;
    let mut without_jump = start;
    let was_grounded = tick(&g, &mut with_jump, jump, 16);
    assert!(!was_grounded);
    tick(&g, &mut without_jump, idle(), 16);
    assert_eq!(with_jump.vy, without_jump.vy);
    assert_eq!(with_jump.pos, without_jump.pos);
    assert_eq!(with_jump.vy, platformer_core::GRAVITY * 16);
}

#[test]
fn falling_actor_lands_flush_and_stays_grounded() {
    let g = grid_floor_row5();
    let mut a = Actor::new(box20(), Pos { x: 100, y: 0 });
    let mut landed_at: Option<i32> = None;
    for n in 0..200 {
        tick(&g, &mut a, idle(), 1);
        if a.pos.y == 140 && landed_at.is_none() {
            landed_at = Some(n);
        }
    }
    // bottom edge stabilized exactly on the floor boundary at y = 160
    assert!(landed_at.is_some());
    assert_eq!(a.pos, Pos { x: 100, y: 140 });
    assert!(is_grounded(&g, a.size, a.pos));
    // grounded ticks keep resetting the vertical velocity
    let was_grounded = tick(&g, &mut a, idle(), 1);
    assert!(was_grounded);
    assert_eq!(a.vy, 0);
    assert_eq!(a.pos, Pos { x: 100, y: 140 });
}

#[test]
fn jump_from_ground_takes_off_that_tick() {
    let g = grid_floor_row5();
    let mut a = Actor::new(box20(), Pos { x: 100, y: 140 });
    assert!(is_grounded(&g, a.size, a.pos));
    let jump = Input { left: false, right: false, jump: true };
    // the grounded state is read before the velocity change
    let was_grounded = tick(&g, &mut a, jump, 1);
    assert!(was_grounded);
    assert_eq!(a.vy, platformer_core::JUMP_SPEED);
    assert_eq!(a.pos, Pos { x: 100, y: 140 + platformer_core::JUMP_SPEED });
    assert!(!is_grounded(&g, a.size, a.pos));
}

#[test]
fn walking_follows_input_at_fixed_speed() {
    // finer world scale: 32000-unit cells, as the front end uses
    let mut cells = vec![false; 100];
    for col in 0..10 {
        cells[5 * 10 + col] = true;
    }
    let g = Grid::build(cells, 32_000, 32_000, 10, 10).unwrap();
    let size = BoxSize { w: 20_000, h: 20_000 };
    let mut a = Actor::new(size, Pos { x: 100_000, y: 140_000 });
    let right = Input { left: false, right: true, jump: false };
    let was_grounded = tick(&g, &mut a, right, 16);
    assert!(was_grounded);
    assert_eq!(a.vx, platformer_core::MOVE_SPEED);
    assert_eq!(a.pos, Pos { x: 104_800, y: 140_000 });
    assert!(is_grounded(&g, a.size, a.pos));
    let left = Input { left: true, right: false, jump: false };
    tick(&g, &mut a, left, 16);
    assert_eq!(a.vx, -platformer_core::MOVE_SPEED);
    assert_eq!(a.pos, Pos { x: 100_000, y: 140_000 });
    tick(&g, &mut a, idle(), 16);
    assert_eq!(a.vx, 0);
    assert_eq!(a.pos, Pos { x: 100_000, y: 140_000 });
}
