//! Combat resolution: transient attack hit-boxes, hit application with
//! the knockback state machine, the attack cooldown, and the enemy
//! chase decision.

use vstd::prelude::*;
use crate::fx::{Fx, FX_ONE};
use crate::geom::{V2, V2fx, AABB, distance_sq};
use crate::entity::{Entity, Direction, Health, Knockback, MovementCommand, entity_wf, fxmul,
    POS_WF_RAW};

verus! {

/// How long a hit entity stays knocked back (1 second).
pub const KNOCKBACK_TIME_RAW: i64 = 65536;

/// Magnitude of the horizontal knockback impulse (100 tiles/s); the
/// vertical impulse is three times it.
pub const KNOCKBACK_FORCE_RAW: i64 = 6553600;

/// How long an attack stays active (0.3 seconds)...
pub const ATTACK_TIME_RAW: i64 = 19661;

/// ...and how far below zero the counter must fall before a new attack
/// may start (0.3 seconds of cooldown).
pub const ATTACK_COOLDOWN_RAW: i64 = 19661;

/// Squared distance under which an enemy stops chasing (16 tiles^2).
pub const CHASE_DIST_SQ_RAW: i64 = 1048576;

/// An entity's hurtbox, over raw coordinates.
pub open spec fn spec_hurtbox_min_x(e: Entity) -> int {
    e.pos.x.raw + e.origin_to_bottom_left.x.raw
}

pub open spec fn spec_hurtbox_min_y(e: Entity) -> int {
    e.pos.y.raw + e.origin_to_bottom_left.y.raw
}

/// Whether an attack box overlaps an entity's hurtbox (strictly, on
/// both axes).
pub open spec fn spec_hits(attack: AABB<Fx>, e: Entity) -> bool {
    &&& attack.max.x.raw > spec_hurtbox_min_x(e)
    &&& attack.min.x.raw < spec_hurtbox_min_x(e) + e.size.x.raw
    &&& attack.max.y.raw > spec_hurtbox_min_y(e)
    &&& attack.min.y.raw < spec_hurtbox_min_y(e) + e.size.y.raw
}

/// What one attack tick does to one target: a living target whose
/// hurtbox the attack overlaps, and who is not already knocked back,
/// loses one hit point and enters knockback with the hit still fresh;
/// every other target is untouched.
pub open spec fn spec_apply_hit(attack: AABB<Fx>, e: Entity) -> Entity {
    if e.health.hp > 0 && spec_hits(attack, e) && e.health.knockback is No {
        Entity {
            health: Health {
                hp: (e.health.hp - 1) as i32,
                knockback: Knockback::Knocked {
                    time_remaining: Fx { raw: KNOCKBACK_TIME_RAW },
                    just_hit: true,
                },
            },
            ..e
        }
    } else {
        e
    }
}

/// The attack hit-box value: the attacker's own box shifted one tile
/// toward its facing direction.
pub open spec fn spec_attack_box(e: Entity) -> AABB<Fx> {
    let shift: int = if e.facing is Left {
        -(FX_ONE as int)
    } else {
        FX_ONE as int
    };
    AABB {
        min: V2 {
            x: Fx { raw: (spec_hurtbox_min_x(e) + shift) as i64 },
            y: Fx { raw: spec_hurtbox_min_y(e) as i64 },
        },
        max: V2 {
            x: Fx { raw: (spec_hurtbox_min_x(e) + shift + e.size.x.raw) as i64 },
            y: Fx { raw: (spec_hurtbox_min_y(e) + e.size.y.raw) as i64 },
        },
    }
}

/// The attack hit-box: the attacker's own box shifted one tile toward
/// its facing direction.
pub fn attack_hitbox(attacker: &Entity) -> (r: AABB<Fx>)
    requires
        entity_wf(*attacker),
    ensures
        r.min.x.raw == spec_hurtbox_min_x(*attacker) + (if attacker.facing is Left {
            -FX_ONE as int
        } else {
            FX_ONE as int
        }),
        r.min.y.raw == spec_hurtbox_min_y(*attacker),
        r.max.x.raw == r.min.x.raw + attacker.size.x.raw,
        r.max.y.raw == r.min.y.raw + attacker.size.y.raw,
        r == spec_attack_box(*attacker),
{
    let offset = match attacker.facing {
        Direction::Left => V2 { x: Fx::from_raw(-FX_ONE), y: Fx::zero() },
        Direction::Right => V2 { x: Fx::from_raw(FX_ONE), y: Fx::zero() },
    };
    attacker.collision_aabb().translate(offset)
}

/// Applies one attack tick to a single target.
pub fn apply_hit(attack: AABB<Fx>, target: &mut Entity)
    requires
        entity_wf(*old(target)),
    ensures
        entity_wf(*final(target)),
        *final(target) == spec_apply_hit(attack, *old(target)),
{
    if target.health.hp > 0 && target.health.knockback.is_no() {
        let hb = target.collision_aabb();
        if crate::geom::aabb_collision(attack, hb) {
            target.health = Health {
                hp: target.health.hp - 1,
                knockback: Knockback::Knocked {
                    time_remaining: Fx::from_raw(KNOCKBACK_TIME_RAW),
                    just_hit: true,
                },
            };
        }
    }
}

/// Applies one attack tick to every target, in order.
pub fn resolve_attack(attack: AABB<Fx>, targets: &mut Vec<Entity>)
    requires
        forall|i: int| 0 <= i < old(targets)@.len() ==> entity_wf(#[trigger] old(targets)@[i]),
    ensures
        final(targets)@.len() == old(targets)@.len(),
        forall|i: int|
            0 <= i < old(targets)@.len() ==> final(targets)@[i] == spec_apply_hit(
                attack,
                #[trigger] old(targets)@[i],
            ),
        forall|i: int| 0 <= i < final(targets)@.len() ==> entity_wf(#[trigger] final(targets)@[i]),
{
    let n = targets.len();
    let mut i: usize = 0;
    while i < n
        invariant
            i <= n,
            n == targets@.len(),
            targets@.len() == old(targets)@.len(),
            forall|q: int|
                0 <= q < i ==> targets@[q] == spec_apply_hit(attack, #[trigger] old(targets)@[q]),
            forall|q: int| i <= q < n ==> targets@[q] == #[trigger] old(targets)@[q],
            forall|q: int| 0 <= q < n ==> entity_wf(#[trigger] targets@[q]),
        decreases n - i,
    {
        let mut e = targets[i];
        apply_hit(attack, &mut e);
        targets.set(i, e);
        i += 1;
    }
}

/// Hitting a target twice in one tick is the same as hitting it once:
/// the first hit leaves it knocked back, so the second changes nothing.
pub proof fn lemma_hit_idempotent(attack: AABB<Fx>, e: Entity)
    ensures
        spec_apply_hit(attack, spec_apply_hit(attack, e)) == spec_apply_hit(attack, e),
{
}

/// What the knockback state machine does in one tick: a fresh hit is
/// consumed into an impulse opposite the knocked entity's own facing, a
/// running timer counts down and expires at or below zero, and an
/// unknocked entity follows ordinary input (chosen by the caller).
///
/// The impulse direction deliberately reads the target's facing rather
/// than the attacker's: a chasing enemy faces its attacker, so the push
/// lands away from the attacker, and the state machine needs no record
/// of who struck the blow.
pub open spec fn spec_knockback_step(k: Knockback, facing: Direction, dt: Fx) -> (
    Knockback,
    Option<MovementCommand>,
) {
    match k {
        Knockback::No => (k, None),
        Knockback::Knocked { time_remaining, just_hit: true } => (
            Knockback::Knocked { time_remaining, just_hit: false },
            Some(
                MovementCommand::Velocity(
                    V2 {
                        x: Fx {
                            raw: (if facing is Left {
                                KNOCKBACK_FORCE_RAW as int
                            } else {
                                -(KNOCKBACK_FORCE_RAW as int)
                            }) as i64,
                        },
                        y: Fx { raw: (3 * KNOCKBACK_FORCE_RAW) as i64 },
                    },
                ),
            ),
        ),
        Knockback::Knocked { time_remaining, just_hit: false } => {
            let t = time_remaining.raw - dt.raw;
            if t <= 0 {
                (Knockback::No, Some(MovementCommand::Platformer { dir: None, jump: false }))
            } else {
                (
                    Knockback::Knocked { time_remaining: Fx { raw: t as i64 }, just_hit: false },
                    Some(MovementCommand::Platformer { dir: None, jump: false }),
                )
            }
        },
    }
}

/// Runs one knockback tick on an entity: consumes a fresh hit into the
/// impulse command, or counts the timer down.  Returns the movement
/// command knockback dictates, or None where the entity is free and the
/// caller decides.
pub fn knockback_step(e: &mut Entity, dt: Fx) -> (cmd: Option<MovementCommand>)
    requires
        entity_wf(*old(e)),
        0 < dt.raw <= FX_ONE,
    ensures
        entity_wf(*final(e)),
        final(e).health.knockback == spec_knockback_step(
            old(e).health.knockback,
            old(e).facing,
            dt,
        ).0,
        cmd == spec_knockback_step(old(e).health.knockback, old(e).facing, dt).1,
        *final(e) == (Entity {
            health: Health { hp: old(e).health.hp, knockback: final(e).health.knockback },
            ..*old(e)
        }),
{
    match e.health.knockback {
        Knockback::No => None,
        Knockback::Knocked { time_remaining, just_hit } => {
            if just_hit {
                e.health = Health {
                    hp: e.health.hp,
                    knockback: Knockback::Knocked { time_remaining, just_hit: false },
                };
                let vx = match e.facing {
                    Direction::Left => Fx::from_raw(KNOCKBACK_FORCE_RAW),
                    Direction::Right => Fx::from_raw(-KNOCKBACK_FORCE_RAW),
                };
                Some(MovementCommand::Velocity(V2 { x: vx, y: Fx::from_raw(3 * KNOCKBACK_FORCE_RAW) }))
            } else {
                let t = time_remaining.sub(dt);
                if t.raw <= 0 {
                    e.health = Health { hp: e.health.hp, knockback: Knockback::No };
                } else {
                    e.health = Health {
                        hp: e.health.hp,
                        knockback: Knockback::Knocked { time_remaining: t, just_hit: false },
                    };
                }
                Some(MovementCommand::Platformer { dir: None, jump: false })
            }
        },
    }
}

/// The chase decision of an unknocked enemy: walk toward the player's
/// column and jump when below the player, unless already within the
/// chase distance.
pub open spec fn spec_chase(e: Entity, player_pos: V2fx) -> MovementCommand {
    let dxr = player_pos.x.raw - e.pos.x.raw;
    let dyr = player_pos.y.raw - e.pos.y.raw;
    let dist_sq = fxmul(dxr, dxr) + fxmul(dyr, dyr);
    if dist_sq >= CHASE_DIST_SQ_RAW {
        MovementCommand::Platformer {
            dir: if e.pos.x.raw < player_pos.x.raw {
                Some(Direction::Right)
            } else if e.pos.x.raw > player_pos.x.raw {
                Some(Direction::Left)
            } else {
                None
            },
            jump: e.pos.y.raw < player_pos.y.raw,
        }
    } else {
        MovementCommand::Platformer { dir: None, jump: false }
    }
}

/// Picks an unknocked enemy's command: chase the player, or idle within
/// the chase distance.
pub fn enemy_chase(e: &Entity, player_pos: V2fx) -> (cmd: MovementCommand)
    requires
        entity_wf(*e),
        -POS_WF_RAW <= player_pos.x.raw <= POS_WF_RAW,
        -POS_WF_RAW <= player_pos.y.raw <= POS_WF_RAW,
    ensures
        cmd == spec_chase(*e, player_pos),
{
    let d = distance_sq(e.pos, player_pos);
    if d.raw >= CHASE_DIST_SQ_RAW {
        MovementCommand::Platformer {
            dir: if e.pos.x.raw < player_pos.x.raw {
                Some(Direction::Right)
            } else if e.pos.x.raw > player_pos.x.raw {
                Some(Direction::Left)
            } else {
                None
            },
            jump: e.pos.y.raw < player_pos.y.raw,
        }
    } else {
        MovementCommand::Platformer { dir: None, jump: false }
    }
}

/// The attack counter after one tick: a running attack or cooldown
/// counts down; once the cooldown has fully elapsed, a press starts a
/// new attack.
pub open spec fn spec_attack_tick(counter: int, pressed: bool, dt: int) -> int {
    if counter >= -ATTACK_COOLDOWN_RAW {
        counter - dt
    } else if pressed {
        ATTACK_TIME_RAW as int
    } else {
        counter
    }
}

/// Advances the attack counter by one tick.  The attack is active
/// whenever the counter is positive.
pub fn attack_tick(counter: Fx, pressed: bool, dt: Fx) -> (r: Fx)
    requires
        0 < dt.raw <= FX_ONE,
        -ATTACK_COOLDOWN_RAW - FX_ONE <= counter.raw <= ATTACK_TIME_RAW,
    ensures
        r.raw == spec_attack_tick(counter.raw as int, pressed, dt.raw as int),
        -ATTACK_COOLDOWN_RAW - FX_ONE <= r.raw <= ATTACK_TIME_RAW,
{
    if counter.raw >= -ATTACK_COOLDOWN_RAW {
        counter.sub(dt)
    } else if pressed {
        Fx::from_raw(ATTACK_TIME_RAW)
    } else {
        counter
    }
}

} // verus!
