use platformer::combat::{
    apply_hit, attack_hitbox, attack_tick, enemy_chase, knockback_step, resolve_attack,
    ATTACK_TIME_RAW, KNOCKBACK_FORCE_RAW, KNOCKBACK_TIME_RAW,
};
use platformer::entity::{Direction, Entity, Knockback, MovementCommand};
use platformer::fx::Fx;
use platformer::geom::V2;

const ONE: i64 = 65536;

fn character_at(x_raw: i64, y_raw: i64, hp: i32) -> Entity {
    Entity::new_character(V2 { x: Fx::from_raw(x_raw), y: Fx::from_raw(y_raw) }, hp)
}

#[test]
fn attack_hitbox_shifts_toward_facing() {
    let mut a = character_at(2 * ONE + ONE / 2, 2 * ONE + ONE / 2, 1);
    a.facing = Direction::Right;
    let right_box = attack_hitbox(&a);
    assert_eq!(right_box.min.x.raw, a.pos.x.raw - 24576 + ONE);
    a.facing = Direction::Left;
    let left_box = attack_hitbox(&a);
    assert_eq!(left_box.min.x.raw, a.pos.x.raw - 24576 - ONE);
    assert_eq!(left_box.max.y.raw, left_box.min.y.raw + 58176);
}

#[test]
fn overlapping_hit_damages_once() {
    // an attacker's hit-box overlapping a fresh target takes one hit
    // point and knocks it back; a second check on the now-knocked
    // target in the same tick takes nothing
    let attacker = character_at(2 * ONE + ONE / 2, 2 * ONE + ONE / 2, 1);
    let hitbox = attack_hitbox(&attacker);
    let mut target = character_at(3 * ONE + ONE / 2, 2 * ONE + ONE / 2, 5);
    apply_hit(hitbox, &mut target);
    assert_eq!(target.health.hp, 4);
    assert!(matches!(
        target.health.knockback,
        Knockback::Knocked { just_hit: true, .. }
    ));
    apply_hit(hitbox, &mut target);
    assert_eq!(target.health.hp, 4);
}

#[test]
fn hit_misses_outside_the_box() {
    let attacker = character_at(2 * ONE + ONE / 2, 2 * ONE + ONE / 2, 1);
    let hitbox = attack_hitbox(&attacker);
    let mut far = character_at(5 * ONE, 2 * ONE + ONE / 2, 5);
    apply_hit(hitbox, &mut far);
    assert_eq!(far.health.hp, 5);
    assert!(matches!(far.health.knockback, Knockback::No));
}

#[test]
fn dead_targets_take_no_hits() {
    let attacker = character_at(2 * ONE + ONE / 2, 2 * ONE + ONE / 2, 1);
    let hitbox = attack_hitbox(&attacker);
    let mut dead = character_at(3 * ONE + ONE / 2, 2 * ONE + ONE / 2, 0);
    apply_hit(hitbox, &mut dead);
    assert_eq!(dead.health.hp, 0);
    assert!(matches!(dead.health.knockback, Knockback::No));
}

#[test]
fn resolve_attack_hits_every_overlapping_target() {
    let attacker = character_at(2 * ONE + ONE / 2, 2 * ONE + ONE / 2, 1);
    let hitbox = attack_hitbox(&attacker);
    let mut targets = vec![
        character_at(3 * ONE + ONE / 2, 2 * ONE + ONE / 2, 5),
        character_at(5 * ONE, 2 * ONE + ONE / 2, 5),
    ];
    resolve_attack(hitbox, &mut targets);
    assert_eq!(targets[0].health.hp, 4);
    assert_eq!(targets[1].health.hp, 5);
}

#[test]
fn knockback_impulse_fires_once_then_counts_down() {
    let dt = Fx::from_raw(ONE / 4);
    let mut e = character_at(2 * ONE, 2 * ONE, 3);
    e.facing = Direction::Right;
    e.health.knockback = Knockback::Knocked {
        time_remaining: Fx::from_raw(KNOCKBACK_TIME_RAW),
        just_hit: true,
    };
    // the fresh hit is consumed into an impulse away from the facing
    let cmd = knockback_step(&mut e, dt);
    match cmd {
        Some(MovementCommand::Velocity(v)) => {
            assert_eq!(v.x.raw, -KNOCKBACK_FORCE_RAW);
            assert_eq!(v.y.raw, 3 * KNOCKBACK_FORCE_RAW);
        }
        other => panic!("expected an impulse, got {:?}", other),
    }
    assert!(matches!(
        e.health.knockback,
        Knockback::Knocked { just_hit: false, .. }
    ));
    // the timer then counts down and expires at zero
    for _ in 0..3 {
        let cmd = knockback_step(&mut e, dt);
        assert!(matches!(
            cmd,
            Some(MovementCommand::Platformer { dir: None, jump: false })
        ));
    }
    assert!(matches!(e.health.knockback, Knockback::Knocked { .. }));
    knockback_step(&mut e, dt);
    assert!(matches!(e.health.knockback, Knockback::No));
    // once free, the caller decides
    assert!(knockback_step(&mut e, dt).is_none());
}

#[test]
fn enemies_chase_from_afar_and_idle_close_by() {
    let e = character_at(2 * ONE, 2 * ONE, 3);
    // player far to the right and above: run right and jump
    let cmd = enemy_chase(&e, V2 { x: Fx::from_raw(12 * ONE), y: Fx::from_raw(5 * ONE) });
    assert!(matches!(
        cmd,
        MovementCommand::Platformer { dir: Some(Direction::Right), jump: true }
    ));
    // player within four tiles: idle
    let cmd = enemy_chase(&e, V2 { x: Fx::from_raw(3 * ONE), y: Fx::from_raw(2 * ONE) });
    assert!(matches!(
        cmd,
        MovementCommand::Platformer { dir: None, jump: false }
    ));
}

#[test]
fn attack_counter_runs_and_recovers() {
    let dt = Fx::from_raw(ONE / 10);
    // a running attack counts down even while the button is held
    let c = attack_tick(Fx::from_raw(ATTACK_TIME_RAW), true, dt);
    assert_eq!(c.raw, ATTACK_TIME_RAW - ONE / 10);
    // deep in cooldown nothing happens without a press
    let idle = attack_tick(Fx::from_raw(-ATTACK_TIME_RAW - ONE), false, dt);
    assert_eq!(idle.raw, -ATTACK_TIME_RAW - ONE);
    // once the cooldown has elapsed, a press restarts the attack
    let again = attack_tick(Fx::from_raw(-ATTACK_TIME_RAW - ONE), true, dt);
    assert_eq!(again.raw, ATTACK_TIME_RAW);
}
