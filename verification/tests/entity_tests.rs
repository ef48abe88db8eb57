use platformer::collision::{collision_query_x, collision_query_y};
use platformer::entity::{Direction, Entity, MovementCommand, MovementState};
use platformer::fx::Fx;
use platformer::geom::V2;
use platformer::tile::Tile;
use platformer::tilemap::Tilemap;

const ONE: i64 = 65536;
const DT_60: i64 = 1092; // about one sixtieth of a second
const INSET: i64 = 655; // about 0.01 tile, the collision inset

/// A 6x6 level whose row y = 2 is solid ground.
fn ground_level() -> Tilemap {
    let mut g = Tilemap::new(6, 6);
    for x in 0..6 {
        g.set(x, 2, Tile::Ground);
    }
    g
}

/// A character standing on the row-2 ground at column x = 2.5: its feet
/// rest one inset above the tile boundary at y = 3.
fn standing_character() -> Entity {
    let mut e = Entity::new_character(
        V2 { x: Fx::from_raw(2 * ONE + ONE / 2), y: Fx::from_raw(3 * ONE + 32704 + INSET) },
        1,
    );
    e.movement_state = MovementState::Ground;
    e
}

#[test]
fn collision_query_finds_first_obstruction() {
    let g = ground_level();
    // walking down rows 4,3,2 at columns 2 and 2: row 2 blocks
    assert_eq!(collision_query_y(&g, 4, 0, 2, 2), Some(2));
    // a clear walk across row 3
    assert_eq!(collision_query_x(&g, 0, 5, 3, 4), None);
    // the grid boundary is solid: row -1 obstructs
    assert_eq!(collision_query_y(&g, 1, -1, 0, 0), Some(-1));
}

#[test]
fn resting_entity_stays_put() {
    // an entity at rest on ground with no input keeps its exact
    // position, velocity and state
    let g = ground_level();
    let before = standing_character();
    let mut e = before;
    e.mov(
        &g,
        Some(MovementCommand::Platformer { dir: None, jump: false }),
        Fx::from_raw(DT_60),
    );
    assert_eq!(e.pos, before.pos);
    assert_eq!(e.vel.x.raw, 0);
    assert_eq!(e.vel.y.raw, 0);
    assert!(matches!(e.movement_state, MovementState::Ground));
}

#[test]
fn falling_entity_lands_on_ground() {
    // airborne with downward velocity one step above the boundary:
    // the tick that crosses it lands the entity and zeroes its fall
    let g = ground_level();
    let mut e = Entity::new_character(
        V2 { x: Fx::from_raw(2 * ONE + ONE / 2), y: Fx::from_raw(3 * ONE + 32704 + 2000) },
        1,
    );
    e.movement_state = MovementState::Air { jumped_again: false };
    e.vel = V2 { x: Fx::from_raw(0), y: Fx::from_raw(-5 * ONE) };
    let mut steps = 0;
    while matches!(e.movement_state, MovementState::Air { .. }) && steps < 100 {
        e.mov(
            &g,
            Some(MovementCommand::Platformer { dir: None, jump: false }),
            Fx::from_raw(DT_60),
        );
        steps += 1;
    }
    assert!(matches!(e.movement_state, MovementState::Ground));
    assert_eq!(e.vel.y.raw, 0);
    // feet clamped to the tile top plus the inset
    assert_eq!(e.pos.y.raw, 3 * ONE + 32704 + INSET);
}

#[test]
fn jump_and_double_jump_transitions() {
    let g = ground_level();
    let dt = Fx::from_raw(DT_60);
    let mut e = standing_character();
    e.mov(&g, Some(MovementCommand::Platformer { dir: None, jump: true }), dt);
    assert!(matches!(e.movement_state, MovementState::Air { jumped_again: false }));
    assert!(e.vel.y.raw > 0);
    e.mov(&g, Some(MovementCommand::Platformer { dir: None, jump: true }), dt);
    assert!(matches!(e.movement_state, MovementState::Air { jumped_again: true }));
    // a third jump press in the air does nothing: gravity takes over
    let vy = e.vel.y.raw;
    e.mov(&g, Some(MovementCommand::Platformer { dir: None, jump: true }), dt);
    assert!(matches!(e.movement_state, MovementState::Air { jumped_again: true }));
    assert!(e.vel.y.raw < vy);
}

#[test]
fn walking_off_a_ledge_goes_airborne() {
    let mut g = Tilemap::new(6, 6);
    g.set(2, 2, Tile::Ground);
    // standing on the single ground tile at (2,2)
    let mut e = standing_character();
    // a tick with no input: the tile beneath (2, 2) is Ground, stays put
    e.mov(&g, Some(MovementCommand::Platformer { dir: None, jump: false }), Fx::from_raw(DT_60));
    assert!(matches!(e.movement_state, MovementState::Ground));
    // remove the floor: the ledge check sends the entity airborne
    g.set(2, 2, Tile::Empty);
    e.mov(&g, Some(MovementCommand::Platformer { dir: None, jump: false }), Fx::from_raw(DT_60));
    assert!(matches!(e.movement_state, MovementState::Air { jumped_again: false }));
}

#[test]
fn horizontal_collision_clamps_against_the_wall() {
    let mut g = Tilemap::new(8, 8);
    for x in 0..8 {
        g.set(x, 2, Tile::Ground);
    }
    for y in 3..8 {
        g.set(5, y, Tile::Ground);
    }
    let mut e = standing_character();
    // run right into the wall at column 5
    for _ in 0..200 {
        e.mov(
            &g,
            Some(MovementCommand::Platformer { dir: Some(Direction::Right), jump: false }),
            Fx::from_raw(DT_60),
        );
    }
    // right edge held one inset short of the wall, no residual speed
    assert_eq!(e.pos.x.raw + 24576, 5 * ONE - INSET);
    assert_eq!(e.vel.x.raw, 0);
}

#[test]
fn integration_is_deterministic() {
    // identical state, grid, command and time step give identical results
    let g = ground_level();
    let dt = Fx::from_raw(DT_60);
    let cmd = Some(MovementCommand::Platformer { dir: Some(Direction::Left), jump: true });
    let mut a = standing_character();
    let mut b = standing_character();
    for _ in 0..10 {
        a.mov(&g, cmd, dt);
        b.mov(&g, cmd, dt);
        assert_eq!(a, b);
    }
}

#[test]
fn velocity_command_sets_airborne_when_rising() {
    let g = ground_level();
    let mut e = standing_character();
    e.mov(
        &g,
        Some(MovementCommand::Velocity(V2 { x: Fx::from_raw(0), y: Fx::from_raw(3 * ONE) })),
        Fx::from_raw(DT_60),
    );
    assert!(matches!(e.movement_state, MovementState::Air { jumped_again: false }));
    assert_eq!(e.vel.y.raw, 3 * ONE);
}

#[test]
fn velocity_clamps_to_the_per_axis_maxima() {
    let g = Tilemap::new(32, 32);
    let mut e = Entity::new_character(
        V2 { x: Fx::from_raw(16 * ONE), y: Fx::from_raw(16 * ONE) },
        1,
    );
    e.mov(
        &g,
        Some(MovementCommand::Velocity(V2 {
            x: Fx::from_raw(100 * ONE),
            y: Fx::from_raw(300 * ONE),
        })),
        Fx::from_raw(DT_60),
    );
    assert_eq!(e.vel.x.raw, 10 * ONE);
    assert_eq!(e.vel.y.raw, 30 * ONE);
}
