//! Entities and their per-tick motion: velocity integration, axis-
//! separated collision resolution against the tile grid, and the
//! grounded/airborne state machine.
//!
//! Positions and velocities are fixed-point tile units.  Positions
//! saturate at the edge of the representable playfield (`POS_CLAMP_RAW`
//! subunits from the origin), a machine limit no level approaches.
//!
//! Resolution is axis-separated: horizontal motion is resolved against
//! the previous vertical position, then vertical motion against the new
//! horizontal position.  As in any such scheme, per-tick displacement
//! must stay below one tile for single-tile-thick obstacles to be
//! reliable, and simultaneous diagonal motion into a concave corner can
//! catch on the corner; both are accepted limitations.

use vstd::prelude::*;
use crate::fx::{Fx, FX_ONE, fx_scale_down, fx_int, fx_clamp, lemma_fx_mul_unit_bound,
    lemma_div_scale_bound, lemma_scale_down_ordered, lemma_scale_down_exact};
use crate::geom::{V2, V2fx};
use crate::geom::AABB;
use crate::tilemap::Tilemap;
use crate::collision::{first_obstructed_x, first_obstructed_y, collision_query_x,
    collision_query_y, lemma_first_obstructed_x_sound, lemma_first_obstructed_y_sound};

verus! {

/// Maximum horizontal speed, in subunits per second (10 tiles/s).
pub const MAX_VEL_X_RAW: i64 = 655360;

/// Maximum vertical speed, in subunits per second (30 tiles/s).
pub const MAX_VEL_Y_RAW: i64 = 1966080;

/// Horizontal run acceleration (100 tiles/s^2).
pub const RUN_ACC_RAW: i64 = 6553600;

/// Horizontal acceleration while airborne (20 tiles/s^2): air control
/// is one fifth of the grounded acceleration.
pub const AIR_ACC_RAW: i64 = 1310720;

/// Ground friction deceleration per unit of horizontal speed.
pub const FRICTION_FACTOR: i64 = 12;

/// Gravity (-100 tiles/s^2).
pub const GRAVITY_RAW: i64 = -6553600;

/// Upward impulse of a jump from the ground (15 tiles/s).
pub const JUMP_VEL_RAW: i64 = 983040;

/// Reduced upward impulse of a double jump (12 tiles/s).
pub const SECOND_JUMP_VEL_RAW: i64 = 786432;

/// Inset left between an entity and the tile edge it was clamped to, so
/// the same collision does not re-trigger next tick (655/65536 of a
/// tile, one hundredth as near as the scale can put it).
pub const COLLISION_INSET_RAW: i64 = 655;

/// Positions of well-formed entities stay within this many subunits of
/// the origin (8192 tiles).
pub const POS_WF_RAW: i64 = 0x2000_0000;

/// Integrated positions saturate here, leaving room for collision
/// clamping to stay within `POS_WF_RAW`.
pub const POS_CLAMP_RAW: i64 = 0x1C00_0000;

/// Bound on entity box offsets and sizes (256 tiles).
pub const SIZE_WF_RAW: i64 = 0x100_0000;

/// Bound on the velocity a Velocity command may carry (1024 tiles/s).
pub const CMD_VEL_LIM_RAW: i64 = 0x400_0000;

/// Bound on knockback timers (256 seconds).
pub const KNOCK_TIME_WF_RAW: i64 = 0x100_0000;

/// Which way an entity faces.
#[derive(Copy, Clone, PartialEq, Eq, Structural, Debug)]
pub enum Direction {
    Left,
    Right,
}

/// Vertical support state: on the ground, or airborne remembering
/// whether the double jump is spent.
#[derive(Copy, Clone, PartialEq, Eq, Structural, Debug)]
pub enum MovementState {
    Ground,
    Air { jumped_again: bool },
}

/// A timed stun after taking a hit: `just_hit` is consumed by the first
/// knockback tick, which applies the impulse.
#[derive(Copy, Clone, PartialEq, Eq, Debug)]
pub enum Knockback {
    No,
    Knocked { time_remaining: Fx, just_hit: bool },
}

impl Knockback {
    /// Whether the entity is free of knockback.
    pub fn is_no(&self) -> (r: bool)
        ensures
            r == (self is No),
    {
        matches!(self, Knockback::No)
    }
}

/// Hit points and knockback sub-state.
#[derive(Copy, Clone, PartialEq, Eq, Debug)]
pub struct Health {
    pub hp: i32,
    pub knockback: Knockback,
}

/// What drives an entity this tick: a velocity impulse, or platformer
/// input (a direction and a jump edge).
#[derive(Copy, Clone, PartialEq, Eq, Debug)]
pub enum MovementCommand {
    Velocity(V2fx),
    Platformer { dir: Option<Direction>, jump: bool },
}

/// A moving thing in the world: a position and velocity in tile units,
/// a collision box fixed relative to the position, and its combat and
/// movement state.
#[derive(Copy, Clone, PartialEq, Eq, Debug)]
pub struct Entity {
    pub pos: V2fx,
    pub vel: V2fx,
    pub origin_to_bottom_left: V2fx,
    pub size: V2fx,
    pub facing: Direction,
    pub health: Health,
    pub movement_state: MovementState,
}

/// A knockback timer, where one runs, is positive and bounded.
pub open spec fn knockback_wf(k: Knockback) -> bool {
    match k {
        Knockback::No => true,
        Knockback::Knocked { time_remaining, .. } => 0 < time_remaining.raw
            <= KNOCK_TIME_WF_RAW,
    }
}

/// Entity invariant: position on the playfield, velocity within the
/// per-axis maxima, box offsets and size bounded, timer well-formed.
pub open spec fn entity_wf(e: Entity) -> bool {
    &&& -POS_WF_RAW <= e.pos.x.raw <= POS_WF_RAW
    &&& -POS_WF_RAW <= e.pos.y.raw <= POS_WF_RAW
    &&& -MAX_VEL_X_RAW <= e.vel.x.raw <= MAX_VEL_X_RAW
    &&& -MAX_VEL_Y_RAW <= e.vel.y.raw <= MAX_VEL_Y_RAW
    &&& -SIZE_WF_RAW <= e.origin_to_bottom_left.x.raw <= SIZE_WF_RAW
    &&& -SIZE_WF_RAW <= e.origin_to_bottom_left.y.raw <= SIZE_WF_RAW
    &&& 0 <= e.size.x.raw <= SIZE_WF_RAW
    &&& 0 <= e.size.y.raw <= SIZE_WF_RAW
    &&& knockback_wf(e.health.knockback)
}

/// A command an entity accepts: a Velocity impulse must be bounded.
pub open spec fn command_wf(cmd: Option<MovementCommand>) -> bool {
    match cmd {
        Some(MovementCommand::Velocity(v)) => {
            &&& -CMD_VEL_LIM_RAW <= v.x.raw <= CMD_VEL_LIM_RAW
            &&& -CMD_VEL_LIM_RAW <= v.y.raw <= CMD_VEL_LIM_RAW
        },
        _ => true,
    }
}

/// The exact entity a character spawn produces: a fixed character-sized
/// box, at rest, facing right, airborne with the double jump spent.
pub open spec fn spec_character(pos: V2fx, hp: i32) -> Entity {
    Entity {
        pos,
        vel: V2 { x: Fx { raw: 0 }, y: Fx { raw: 0 } },
        origin_to_bottom_left: V2 { x: Fx { raw: -24576i64 }, y: Fx { raw: -32704i64 } },
        size: V2 { x: Fx { raw: 49152 }, y: Fx { raw: 58176 } },
        facing: Direction::Right,
        health: Health { hp, knockback: Knockback::No },
        movement_state: MovementState::Air { jumped_again: true },
    }
}

impl Entity {
    /// A new entity at `pos` with the given collision box and hit
    /// points: at rest, facing right, airborne with the double jump
    /// spent, not knocked back.
    pub fn new_entity(pos: V2fx, origin_to_bottom_left: V2fx, size: V2fx, hp: i32) -> (e: Entity)
        requires
            -POS_WF_RAW <= pos.x.raw <= POS_WF_RAW,
            -POS_WF_RAW <= pos.y.raw <= POS_WF_RAW,
            -SIZE_WF_RAW <= origin_to_bottom_left.x.raw <= SIZE_WF_RAW,
            -SIZE_WF_RAW <= origin_to_bottom_left.y.raw <= SIZE_WF_RAW,
            0 <= size.x.raw <= SIZE_WF_RAW,
            0 <= size.y.raw <= SIZE_WF_RAW,
        ensures
            entity_wf(e),
            e.pos == pos,
            e.vel.x.raw == 0 && e.vel.y.raw == 0,
            e.origin_to_bottom_left == origin_to_bottom_left,
            e.size == size,
            e.facing is Right,
            e.health == (Health { hp, knockback: Knockback::No }),
            e.movement_state == (MovementState::Air { jumped_again: true }),
    {
        Entity {
            pos,
            vel: V2::<Fx>::zero(),
            origin_to_bottom_left,
            size,
            facing: Direction::Right,
            health: Health { hp, knockback: Knockback::No },
            movement_state: MovementState::Air { jumped_again: true },
        }
    }

    /// A player or enemy: a fixed character-sized collision box.
    pub fn new_character(pos: V2fx, health: i32) -> (e: Entity)
        requires
            -POS_WF_RAW <= pos.x.raw <= POS_WF_RAW,
            -POS_WF_RAW <= pos.y.raw <= POS_WF_RAW,
        ensures
            entity_wf(e),
            e == spec_character(pos, health),
    {
        let origin_to_bottom_left = V2 {
            x: Fx::from_raw(-24576),
            y: Fx::from_raw(-32704),
        };
        let size = V2 { x: Fx::from_raw(49152), y: Fx::from_raw(58176) };
        Entity::new_entity(pos, origin_to_bottom_left, size, health)
    }

    /// A passive thing with one hit point.
    pub fn new_thing(pos: V2fx, origin_to_bottom_left: V2fx, size: V2fx) -> (e: Entity)
        requires
            -POS_WF_RAW <= pos.x.raw <= POS_WF_RAW,
            -POS_WF_RAW <= pos.y.raw <= POS_WF_RAW,
            -SIZE_WF_RAW <= origin_to_bottom_left.x.raw <= SIZE_WF_RAW,
            -SIZE_WF_RAW <= origin_to_bottom_left.y.raw <= SIZE_WF_RAW,
            0 <= size.x.raw <= SIZE_WF_RAW,
            0 <= size.y.raw <= SIZE_WF_RAW,
        ensures
            entity_wf(e),
            e.pos == pos,
            e.health.hp == 1,
    {
        Entity::new_entity(pos, origin_to_bottom_left, size, 1)
    }

    /// The collision (and hurt) box: bottom-left corner at the position
    /// plus the fixed offset, extending by the fixed size.
    pub fn collision_aabb(&self) -> (r: AABB<Fx>)
        requires
            entity_wf(*self),
        ensures
            r.min.x.raw == self.pos.x.raw + self.origin_to_bottom_left.x.raw,
            r.min.y.raw == self.pos.y.raw + self.origin_to_bottom_left.y.raw,
            r.max.x.raw == r.min.x.raw + self.size.x.raw,
            r.max.y.raw == r.min.y.raw + self.size.y.raw,
    {
        let bottom_left = self.pos.add(self.origin_to_bottom_left);
        AABB { min: bottom_left, max: bottom_left.add(self.size) }
    }
}

/// The product of two fixed-point raw values, scaled back down (rounded
/// toward negative infinity).
pub open spec fn fxmul(a: int, b: int) -> int {
    fx_scale_down(a * b)
}

/// Horizontal acceleration from directional input: full acceleration
/// opposed by friction while grounded, reduced air control while
/// airborne.
pub open spec fn spec_acc_x(e: Entity, dir: Option<Direction>) -> int {
    match e.movement_state {
        MovementState::Ground => {
            let base: int = match dir {
                Some(Direction::Left) => -RUN_ACC_RAW as int,
                Some(Direction::Right) => RUN_ACC_RAW as int,
                None => 0,
            };
            base - FRICTION_FACTOR * e.vel.x.raw
        },
        MovementState::Air { .. } => match dir {
            Some(Direction::Left) => -AIR_ACC_RAW as int,
            Some(Direction::Right) => AIR_ACC_RAW as int,
            None => 0,
        },
    }
}

/// Candidate horizontal velocity before collision resolution:
/// `vel + acc * dt` under platformer input, the commanded velocity
/// under an impulse, zero under no command.
pub open spec fn spec_cand_vel_x(e: Entity, cmd: Option<MovementCommand>, dt: Fx) -> int {
    match cmd {
        None => 0,
        Some(MovementCommand::Velocity(v)) => v.x.raw as int,
        Some(MovementCommand::Platformer { dir, jump }) => e.vel.x.raw + fxmul(
            spec_acc_x(e, dir),
            dt.raw as int,
        ),
    }
}

/// Horizontal displacement this tick: `acc * dt^2 / 2 + vel * dt` under
/// platformer input, `v * dt` under an impulse, `vel * dt` under no
/// command.
pub open spec fn spec_delta_x(e: Entity, cmd: Option<MovementCommand>, dt: Fx) -> int {
    match cmd {
        None => fxmul(e.vel.x.raw as int, dt.raw as int),
        Some(MovementCommand::Velocity(v)) => fxmul(v.x.raw as int, dt.raw as int),
        Some(MovementCommand::Platformer { dir, jump }) => {
            let a1 = fxmul(spec_acc_x(e, dir), dt.raw as int);
            fxmul(a1, dt.raw as int) / 2 + fxmul(e.vel.x.raw as int, dt.raw as int)
        },
    }
}

/// Candidate vertical velocity, vertical displacement, and movement
/// state after the jump transitions: a jump or double jump replaces the
/// velocity with an upward impulse, a grounded entity without a jump
/// stays put, and an airborne entity falls under gravity.
pub open spec fn spec_vertical(e: Entity, cmd: Option<MovementCommand>, dt: Fx) -> (
    int,
    int,
    MovementState,
) {
    let d = dt.raw as int;
    match cmd {
        None => (0, fxmul(e.vel.y.raw as int, d), e.movement_state),
        Some(MovementCommand::Velocity(v)) => (
            v.y.raw as int,
            fxmul(v.y.raw as int, d),
            if v.y.raw > 0 {
                MovementState::Air { jumped_again: false }
            } else {
                e.movement_state
            },
        ),
        Some(MovementCommand::Platformer { dir, jump }) => {
            match e.movement_state {
                MovementState::Ground => {
                    if jump {
                        (
                            JUMP_VEL_RAW as int,
                            fxmul(JUMP_VEL_RAW as int, d),
                            MovementState::Air { jumped_again: false },
                        )
                    } else {
                        (0, 0, MovementState::Ground)
                    }
                },
                MovementState::Air { jumped_again } => {
                    if jump && !jumped_again {
                        (
                            SECOND_JUMP_VEL_RAW as int,
                            fxmul(SECOND_JUMP_VEL_RAW as int, d),
                            MovementState::Air { jumped_again: true },
                        )
                    } else {
                        let a1 = fxmul(GRAVITY_RAW as int, d);
                        (
                            e.vel.y.raw + a1,
                            fxmul(a1, d) / 2 + fxmul(e.vel.y.raw as int, d),
                            MovementState::Air { jumped_again },
                        )
                    }
                },
            }
        },
    }
}

/// Horizontal collision resolution for a displacement `dx`: the target
/// position saturates at the playfield edge; with nonzero displacement
/// the leading edge's tile columns are walked from the current to the
/// target column, and the first obstruction zeroes the velocity and
/// clamps the position against the obstructing tile with a small inset.
pub open spec fn spec_resolve_x(grid: Tilemap, e: Entity, dx: int, cand_vel: int) -> (int, int) {
    if dx == 0 {
        (e.pos.x.raw as int, cand_vel)
    } else {
        let newx = fx_clamp(e.pos.x.raw + dx, -POS_CLAMP_RAW as int, POS_CLAMP_RAW as int);
        let ya = fx_scale_down(e.pos.y.raw + e.origin_to_bottom_left.y.raw + e.size.y.raw);
        let yb = fx_scale_down(e.pos.y.raw + e.origin_to_bottom_left.y.raw);
        if dx > 0 {
            let lead = e.origin_to_bottom_left.x.raw + e.size.x.raw;
            let from = fx_scale_down(e.pos.x.raw + lead);
            let to = fx_scale_down(newx + lead);
            match first_obstructed_x(grid, from, to, ya, yb) {
                Some(i) => (
                    fx_clamp(
                        fx_int(i) - lead - COLLISION_INSET_RAW,
                        -POS_WF_RAW as int,
                        POS_WF_RAW as int,
                    ),
                    0,
                ),
                None => (newx, cand_vel),
            }
        } else {
            let lead = e.origin_to_bottom_left.x.raw as int;
            let from = fx_scale_down(e.pos.x.raw + lead);
            let to = fx_scale_down(newx + lead);
            match first_obstructed_x(grid, from, to, ya, yb) {
                Some(i) => (
                    fx_clamp(
                        fx_int(i + 1) - lead + COLLISION_INSET_RAW,
                        -POS_WF_RAW as int,
                        POS_WF_RAW as int,
                    ),
                    0,
                ),
                None => (newx, cand_vel),
            }
        }
    }
}

/// Vertical collision resolution for a displacement `dy`, against the
/// already-resolved horizontal position `posx`: as horizontally, but an
/// obstruction while descending also lands the entity (Ground).
pub open spec fn spec_resolve_y(
    grid: Tilemap,
    e: Entity,
    posx: int,
    dy: int,
    cand_vel: int,
    state: MovementState,
) -> (int, int, MovementState) {
    if dy == 0 {
        (e.pos.y.raw as int, cand_vel, state)
    } else {
        let newy = fx_clamp(e.pos.y.raw + dy, -POS_CLAMP_RAW as int, POS_CLAMP_RAW as int);
        let xa = fx_scale_down(posx + e.origin_to_bottom_left.x.raw);
        let xb = fx_scale_down(posx + e.origin_to_bottom_left.x.raw + e.size.x.raw);
        if dy > 0 {
            let lead = e.origin_to_bottom_left.y.raw + e.size.y.raw;
            let from = fx_scale_down(e.pos.y.raw + lead);
            let to = fx_scale_down(newy + lead);
            match first_obstructed_y(grid, from, to, xa, xb) {
                Some(i) => (
                    fx_clamp(
                        fx_int(i) - lead - COLLISION_INSET_RAW,
                        -POS_WF_RAW as int,
                        POS_WF_RAW as int,
                    ),
                    0,
                    state,
                ),
                None => (newy, cand_vel, state),
            }
        } else {
            let lead = e.origin_to_bottom_left.y.raw as int;
            let from = fx_scale_down(e.pos.y.raw + lead);
            let to = fx_scale_down(newy + lead);
            match first_obstructed_y(grid, from, to, xa, xb) {
                Some(i) => (
                    fx_clamp(
                        fx_int(i + 1) - lead + COLLISION_INSET_RAW,
                        -POS_WF_RAW as int,
                        POS_WF_RAW as int,
                    ),
                    0,
                    MovementState::Ground,
                ),
                None => (newy, cand_vel, state),
            }
        }
    }
}

/// The ledge check: a grounded entity whose supporting tile (directly
/// beneath its position) is Empty becomes airborne with its double jump
/// available.
pub open spec fn spec_ledge_check(
    grid: Tilemap,
    posx: int,
    posy: int,
    state: MovementState,
) -> MovementState {
    if state is Ground {
        let tx = fx_scale_down(posx);
        let ty = fx_scale_down(posy) - 1;
        if grid.in_bounds(tx, ty) && grid.tile_at(tx, ty) is Empty {
            MovementState::Air { jumped_again: false }
        } else {
            state
        }
    } else {
        state
    }
}

/// One full integration step: input and jump transitions, horizontal
/// then vertical collision resolution, per-axis speed clamps, and the
/// ledge check.  Everything an entity's tick does to its position,
/// velocity and movement state; facing, health and box are untouched.
#[verifier::opaque]
pub open spec fn spec_mov(e: Entity, grid: Tilemap, cmd: Option<MovementCommand>, dt: Fx) -> Entity {
    let cvx = spec_cand_vel_x(e, cmd, dt);
    let dx = spec_delta_x(e, cmd, dt);
    let (cvy, dy, state1) = spec_vertical(e, cmd, dt);
    let (px, rvx) = spec_resolve_x(grid, e, dx, cvx);
    let (py, rvy, state2) = spec_resolve_y(grid, e, px, dy, cvy, state1);
    let state3 = spec_ledge_check(grid, px, py, state2);
    Entity {
        pos: V2 { x: Fx { raw: px as i64 }, y: Fx { raw: py as i64 } },
        vel: V2 {
            x: Fx { raw: fx_clamp(rvx, -MAX_VEL_X_RAW as int, MAX_VEL_X_RAW as int) as i64 },
            y: Fx { raw: fx_clamp(rvy, -MAX_VEL_Y_RAW as int, MAX_VEL_Y_RAW as int) as i64 },
        },
        movement_state: state3,
        ..e
    }
}

/// Floors a bounded game-space coordinate to its tile index.
fn floor_tile(v: Fx) -> (r: i32)
    requires
        -0x2400_0000 <= v.raw <= 0x2400_0000,
    ensures
        r as int == fx_scale_down(v.raw as int),
        -0x2400 <= r <= 0x2400,
{
    proof {
        lemma_scale_down_ordered(-0x2400_0000, v.raw as int);
        lemma_scale_down_ordered(v.raw as int, 0x2400_0000);
        lemma_scale_down_exact(-0x2400);
        lemma_scale_down_exact(0x2400);
    }
    v.floor_i32()
}

/// Candidate horizontal velocity and displacement for this tick.
fn horizontal_phase(e: &Entity, cmd: Option<MovementCommand>, dt: Fx) -> (r: (Fx, Fx))
    requires
        entity_wf(*e),
        command_wf(cmd),
        0 < dt.raw <= FX_ONE,
    ensures
        r.0.raw == spec_cand_vel_x(*e, cmd, dt),
        r.1.raw == spec_delta_x(*e, cmd, dt),
        -CMD_VEL_LIM_RAW <= r.0.raw <= CMD_VEL_LIM_RAW,
        -0x800_0000 <= r.1.raw <= 0x800_0000,
{
    match cmd {
        None => {
            let vdt = e.vel.x.mul(dt);
            proof {
                lemma_fx_mul_unit_bound(e.vel.x.raw as int, dt.raw as int, MAX_VEL_X_RAW as int);
            }
            (Fx::zero(), vdt)
        },
        Some(MovementCommand::Velocity(v)) => {
            let vdt = v.x.mul(dt);
            proof {
                lemma_fx_mul_unit_bound(v.x.raw as int, dt.raw as int, CMD_VEL_LIM_RAW as int);
            }
            (v.x, vdt)
        },
        Some(MovementCommand::Platformer { dir, jump }) => {
            let acc_raw: i64 = match e.movement_state {
                MovementState::Ground => {
                    let base: i64 = match dir {
                        Some(Direction::Left) => -RUN_ACC_RAW,
                        Some(Direction::Right) => RUN_ACC_RAW,
                        None => 0,
                    };
                    base - FRICTION_FACTOR * e.vel.x.raw
                },
                MovementState::Air { .. } => match dir {
                    Some(Direction::Left) => -AIR_ACC_RAW,
                    Some(Direction::Right) => AIR_ACC_RAW,
                    None => 0,
                },
            };
            let acc = Fx::from_raw(acc_raw);
            let a1 = acc.mul(dt);
            proof {
                lemma_fx_mul_unit_bound(acc_raw as int, dt.raw as int, 14417920);
            }
            let a2 = a1.mul(dt);
            proof {
                lemma_fx_mul_unit_bound(a1.raw as int, dt.raw as int, 14417920);
                lemma_div_scale_bound(a2.raw as int, 14417920, 2);
            }
            let half = a2.half();
            let vdt = e.vel.x.mul(dt);
            proof {
                lemma_fx_mul_unit_bound(e.vel.x.raw as int, dt.raw as int, MAX_VEL_X_RAW as int);
            }
            let dx = half.add(vdt);
            let cvx = e.vel.x.add(a1);
            (cvx, dx)
        },
    }
}

/// Candidate vertical velocity, displacement, and movement state after
/// the jump transitions.
fn vertical_phase(e: &Entity, cmd: Option<MovementCommand>, dt: Fx) -> (r: (Fx, Fx, MovementState))
    requires
        entity_wf(*e),
        command_wf(cmd),
        0 < dt.raw <= FX_ONE,
    ensures
        r.0.raw == spec_vertical(*e, cmd, dt).0,
        r.1.raw == spec_vertical(*e, cmd, dt).1,
        r.2 == spec_vertical(*e, cmd, dt).2,
        -CMD_VEL_LIM_RAW <= r.0.raw <= CMD_VEL_LIM_RAW,
        -0x800_0000 <= r.1.raw <= 0x800_0000,
{
    match cmd {
        None => {
            let vdt = e.vel.y.mul(dt);
            proof {
                lemma_fx_mul_unit_bound(e.vel.y.raw as int, dt.raw as int, MAX_VEL_Y_RAW as int);
            }
            (Fx::zero(), vdt, e.movement_state)
        },
        Some(MovementCommand::Velocity(v)) => {
            let vdt = v.y.mul(dt);
            proof {
                lemma_fx_mul_unit_bound(v.y.raw as int, dt.raw as int, CMD_VEL_LIM_RAW as int);
            }
            let st = if v.y.raw > 0 {
                MovementState::Air { jumped_again: false }
            } else {
                e.movement_state
            };
            (v.y, vdt, st)
        },
        Some(MovementCommand::Platformer { dir, jump }) => {
            match e.movement_state {
                MovementState::Ground => {
                    if jump {
                        let jv = Fx::from_raw(JUMP_VEL_RAW);
                        let vdt = jv.mul(dt);
                        proof {
                            lemma_fx_mul_unit_bound(
                                JUMP_VEL_RAW as int,
                                dt.raw as int,
                                JUMP_VEL_RAW as int,
                            );
                        }
                        (jv, vdt, MovementState::Air { jumped_again: false })
                    } else {
                        (Fx::zero(), Fx::zero(), MovementState::Ground)
                    }
                },
                MovementState::Air { jumped_again } => {
                    if jump && !jumped_again {
                        let jv = Fx::from_raw(SECOND_JUMP_VEL_RAW);
                        let vdt = jv.mul(dt);
                        proof {
                            lemma_fx_mul_unit_bound(
                                SECOND_JUMP_VEL_RAW as int,
                                dt.raw as int,
                                SECOND_JUMP_VEL_RAW as int,
                            );
                        }
                        (jv, vdt, MovementState::Air { jumped_again: true })
                    } else {
                        let g = Fx::from_raw(GRAVITY_RAW);
                        let a1 = g.mul(dt);
                        proof {
                            lemma_fx_mul_unit_bound(
                                GRAVITY_RAW as int,
                                dt.raw as int,
                                -GRAVITY_RAW as int,
                            );
                        }
                        let a2 = a1.mul(dt);
                        proof {
                            lemma_fx_mul_unit_bound(a1.raw as int, dt.raw as int, -GRAVITY_RAW as int);
                            lemma_div_scale_bound(a2.raw as int, -GRAVITY_RAW as int, 2);
                        }
                        let half = a2.half();
                        let vdt = e.vel.y.mul(dt);
                        proof {
                            lemma_fx_mul_unit_bound(
                                e.vel.y.raw as int,
                                dt.raw as int,
                                MAX_VEL_Y_RAW as int,
                            );
                        }
                        let cvy = e.vel.y.add(a1);
                        let dy = half.add(vdt);
                        (cvy, dy, MovementState::Air { jumped_again })
                    }
                },
            }
        },
    }
}

/// Horizontal collision resolution.
fn resolve_x(grid: &Tilemap, e: &Entity, dx: Fx, cand_vel: Fx) -> (r: (Fx, Fx))
    requires
        grid.wf(),
        entity_wf(*e),
        -0x800_0000 <= dx.raw <= 0x800_0000,
        -CMD_VEL_LIM_RAW <= cand_vel.raw <= CMD_VEL_LIM_RAW,
    ensures
        (r.0.raw as int, r.1.raw as int) == spec_resolve_x(
            *grid,
            *e,
            dx.raw as int,
            cand_vel.raw as int,
        ),
        -POS_WF_RAW <= r.0.raw <= POS_WF_RAW,
        -CMD_VEL_LIM_RAW <= r.1.raw <= CMD_VEL_LIM_RAW,
{
    if dx.raw == 0 {
        return (e.pos.x, cand_vel);
    }
    let newx = e.pos.x.add(dx).clamp(Fx::from_raw(-POS_CLAMP_RAW), Fx::from_raw(POS_CLAMP_RAW));
    let ya = floor_tile(e.pos.y.add(e.origin_to_bottom_left.y).add(e.size.y));
    let yb = floor_tile(e.pos.y.add(e.origin_to_bottom_left.y));
    if dx.raw > 0 {
        let lead = e.origin_to_bottom_left.x.add(e.size.x);
        let from = floor_tile(e.pos.x.add(lead));
        let to = floor_tile(newx.add(lead));
        match collision_query_x(grid, from, to, ya, yb) {
            Some(i) => {
                proof {
                    lemma_first_obstructed_x_sound(
                        *grid,
                        from as int,
                        to as int,
                        ya as int,
                        yb as int,
                    );
                }
                let px = Fx::from_int(i).sub(lead).sub(Fx::from_raw(COLLISION_INSET_RAW)).clamp(
                    Fx::from_raw(-POS_WF_RAW),
                    Fx::from_raw(POS_WF_RAW),
                );
                (px, Fx::zero())
            },
            None => (newx, cand_vel),
        }
    } else {
        let lead = e.origin_to_bottom_left.x;
        let from = floor_tile(e.pos.x.add(lead));
        let to = floor_tile(newx.add(lead));
        match collision_query_x(grid, from, to, ya, yb) {
            Some(i) => {
                proof {
                    lemma_first_obstructed_x_sound(
                        *grid,
                        from as int,
                        to as int,
                        ya as int,
                        yb as int,
                    );
                }
                let px = Fx::from_int(i + 1).sub(lead).add(Fx::from_raw(COLLISION_INSET_RAW)).clamp(
                    Fx::from_raw(-POS_WF_RAW),
                    Fx::from_raw(POS_WF_RAW),
                );
                (px, Fx::zero())
            },
            None => (newx, cand_vel),
        }
    }
}

/// Vertical collision resolution against the already-resolved
/// horizontal position.
fn resolve_y(grid: &Tilemap, e: &Entity, posx: Fx, dy: Fx, cand_vel: Fx, state: MovementState) -> (r:
    (Fx, Fx, MovementState))
    requires
        grid.wf(),
        entity_wf(*e),
        -POS_WF_RAW <= posx.raw <= POS_WF_RAW,
        -0x800_0000 <= dy.raw <= 0x800_0000,
        -CMD_VEL_LIM_RAW <= cand_vel.raw <= CMD_VEL_LIM_RAW,
    ensures
        (r.0.raw as int, r.1.raw as int, r.2) == spec_resolve_y(
            *grid,
            *e,
            posx.raw as int,
            dy.raw as int,
            cand_vel.raw as int,
            state,
        ),
        -POS_WF_RAW <= r.0.raw <= POS_WF_RAW,
        -CMD_VEL_LIM_RAW <= r.1.raw <= CMD_VEL_LIM_RAW,
{
    if dy.raw == 0 {
        return (e.pos.y, cand_vel, state);
    }
    let newy = e.pos.y.add(dy).clamp(Fx::from_raw(-POS_CLAMP_RAW), Fx::from_raw(POS_CLAMP_RAW));
    let xa = floor_tile(posx.add(e.origin_to_bottom_left.x));
    let xb = floor_tile(posx.add(e.origin_to_bottom_left.x).add(e.size.x));
    if dy.raw > 0 {
        let lead = e.origin_to_bottom_left.y.add(e.size.y);
        let from = floor_tile(e.pos.y.add(lead));
        let to = floor_tile(newy.add(lead));
        match collision_query_y(grid, from, to, xa, xb) {
            Some(i) => {
                proof {
                    lemma_first_obstructed_y_sound(
                        *grid,
                        from as int,
                        to as int,
                        xa as int,
                        xb as int,
                    );
                }
                let py = Fx::from_int(i).sub(lead).sub(Fx::from_raw(COLLISION_INSET_RAW)).clamp(
                    Fx::from_raw(-POS_WF_RAW),
                    Fx::from_raw(POS_WF_RAW),
                );
                (py, Fx::zero(), state)
            },
            None => (newy, cand_vel, state),
        }
    } else {
        let lead = e.origin_to_bottom_left.y;
        let from = floor_tile(e.pos.y.add(lead));
        let to = floor_tile(newy.add(lead));
        match collision_query_y(grid, from, to, xa, xb) {
            Some(i) => {
                proof {
                    lemma_first_obstructed_y_sound(
                        *grid,
                        from as int,
                        to as int,
                        xa as int,
                        xb as int,
                    );
                }
                let py = Fx::from_int(i + 1).sub(lead).add(Fx::from_raw(COLLISION_INSET_RAW)).clamp(
                    Fx::from_raw(-POS_WF_RAW),
                    Fx::from_raw(POS_WF_RAW),
                );
                (py, Fx::zero(), MovementState::Ground)
            },
            None => (newy, cand_vel, state),
        }
    }
}

impl Entity {
    /// One integration tick: applies the command and gravity, resolves
    /// horizontal then vertical collision against the grid, clamps the
    /// velocity to the per-axis maxima, and runs the ledge check.
    /// Facing, health and the collision box are untouched.
    pub fn mov(&mut self, tilemap: &Tilemap, command: Option<MovementCommand>, dt: Fx)
        requires
            tilemap.wf(),
            entity_wf(*old(self)),
            command_wf(command),
            0 < dt.raw <= FX_ONE,
        ensures
            entity_wf(*final(self)),
            *final(self) == spec_mov(*old(self), *tilemap, command, dt),
    {
        proof {
            reveal(spec_mov);
        }
        let (cvx, dx) = horizontal_phase(self, command, dt);
        let (cvy, dy, state1) = vertical_phase(self, command, dt);
        let (px, rvx) = resolve_x(tilemap, self, dx, cvx);
        let (py, rvy, state2) = resolve_y(tilemap, self, px, dy, cvy, state1);
        let state3 = if matches!(state2, MovementState::Ground) {
            let tx = floor_tile(px);
            let ty = floor_tile(py);
            match tilemap.get(tx, ty - 1) {
                Some(t) => {
                    if matches!(t, crate::tile::Tile::Empty) {
                        MovementState::Air { jumped_again: false }
                    } else {
                        state2
                    }
                },
                None => state2,
            }
        } else {
            state2
        };
        self.pos = V2 { x: px, y: py };
        self.vel = V2 {
            x: rvx.clamp(Fx::from_raw(-MAX_VEL_X_RAW), Fx::from_raw(MAX_VEL_X_RAW)),
            y: rvy.clamp(Fx::from_raw(-MAX_VEL_Y_RAW), Fx::from_raw(MAX_VEL_Y_RAW)),
        };
        self.movement_state = state3;
    }
}

/// Resolving either axis with zero displacement changes nothing: the
/// position and the candidate velocity come back untouched, whatever
/// obstacles stand nearby, and vertically the movement state keeps.
pub proof fn lemma_collision_zero_displacement(
    grid: Tilemap,
    e: Entity,
    cand_vel: int,
    posx: int,
    state: MovementState,
)
    ensures
        spec_resolve_x(grid, e, 0, cand_vel) == (e.pos.x.raw as int, cand_vel),
        spec_resolve_y(grid, e, posx, 0, cand_vel, state) == (e.pos.y.raw as int, cand_vel, state),
{
}

/// The integration step is deterministic: identical state, grid,
/// command and time step produce identical position, velocity and
/// movement state.
pub proof fn lemma_mov_deterministic(
    e1: Entity,
    e2: Entity,
    grid: Tilemap,
    cmd: Option<MovementCommand>,
    dt: Fx,
)
    requires
        e1 == e2,
    ensures
        spec_mov(e1, grid, cmd, dt) == spec_mov(e2, grid, cmd, dt),
{
}

} // verus!
