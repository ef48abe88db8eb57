use platformer::bitmap::Bitmap;
use platformer::camera::{camera_follow, v2_to_screen, Mat2, ScreenInfo};
use platformer::color::Color;
use platformer::fx::Fx;
use platformer::game::{startup, update_and_render, GameAssets, GameState};
use platformer::geom::V2;
use platformer::input::{Input, KBKey};
use platformer::text::FontBitmaps;
use platformer::tile::Tile;
use platformer::tilemap::Tilemap;

const ONE: i64 = 65536;

fn sprite(c: Color) -> Bitmap {
    Bitmap::with_dimensions(16, 16).filled(c)
}

fn assets() -> GameAssets {
    let glyphs = vec![('a', Bitmap::with_dimensions(2, 4))];
    GameAssets {
        tile_size: 16,
        ground_bmp: sprite(Color::white()),
        player_right: sprite(Color::yellow()),
        player_left: sprite(Color::yellow()),
        hook_bmp: sprite(Color::red()),
        enemy_right: sprite(Color::purple()),
        enemy_left: sprite(Color::purple()),
        font: FontBitmaps::new(glyphs, 4),
    }
}

fn screen_for(ts: i64, width: i32, height: i32, cam_x: i64, cam_y: i64) -> ScreenInfo {
    ScreenInfo {
        width,
        height,
        scale: 1,
        game_to_screen_matrix: Mat2::diagonal(Fx::from_raw(ts * ONE), Fx::from_raw(-ts * ONE)),
        screen_to_game_matrix: Mat2::diagonal(Fx::from_raw(ONE / ts), Fx::from_raw(-ONE / ts)),
        camera: V2 { x: Fx::from_raw(cam_x), y: Fx::from_raw(cam_y) },
    }
}

#[test]
fn game_to_screen_maps_and_flips() {
    // with 16 pixels per tile and a 144-pixel-high buffer, the game
    // point (1, 1) lands 16 pixels in and 16 pixels above the bottom
    let s = screen_for(16, 256, 144, 0, 0);
    let p = v2_to_screen(V2 { x: Fx::from_raw(ONE), y: Fx::from_raw(ONE) }, &s);
    assert_eq!(p.x, 16);
    assert_eq!(p.y, 144 - 16);
    // camera offset shifts the result
    let s2 = screen_for(16, 256, 144, ONE, 0);
    let p2 = v2_to_screen(V2 { x: Fx::from_raw(ONE), y: Fx::from_raw(ONE) }, &s2);
    assert_eq!(p2.x, 0);
}

#[test]
fn camera_follow_centers_and_clamps() {
    // player centered in a large level: camera sits half a screen away
    let cam = camera_follow(
        V2 { x: Fx::from_raw(50 * ONE), y: Fx::from_raw(40 * ONE) },
        Fx::from_raw(16 * ONE),
        Fx::from_raw(9 * ONE),
        100,
        80,
    );
    assert_eq!(cam.x.raw, 42 * ONE);
    assert_eq!(cam.y.raw, 40 * ONE - 9 * ONE / 2);
    // player at the level's corner: the camera clamps at the origin
    let cam = camera_follow(
        V2 { x: Fx::from_raw(ONE), y: Fx::from_raw(ONE) },
        Fx::from_raw(16 * ONE),
        Fx::from_raw(9 * ONE),
        100,
        80,
    );
    assert_eq!(cam.x.raw, 0);
    assert_eq!(cam.y.raw, 0);
}

#[test]
fn startup_without_a_level_makes_the_default_grid() {
    let d = startup(256, 144, assets(), None);
    assert_eq!(d.tilemap.width(), 15);
    assert_eq!(d.tilemap.height(), 15);
    assert!(matches!(d.state, GameState::LevelEditor));
    assert_eq!(d.player.pos.x.raw, 2 * ONE + ONE / 2);
    assert_eq!(d.enemies.len(), 1);
    assert_eq!(d.enemies[0].health.hp, 5);
    assert_eq!(d.screen_info.scale, 4);
}

#[test]
fn startup_loads_a_level_from_bytes() {
    let mut g = Tilemap::new(2, 2);
    g.set(1, 0, Tile::Ground);
    let bytes = g.save();
    let d = startup(256, 144, assets(), Some(&bytes));
    assert_eq!(d.tilemap.width(), 2);
    assert_eq!(d.tilemap.height(), 2);
    assert_eq!(d.tilemap.get(1, 0).unwrap().to_byte(), 1);
    // unreadable bytes fall back to the default grid, all cells Empty
    let d2 = startup(256, 144, assets(), Some(&[9, 9]));
    assert_eq!(d2.tilemap.width(), 15);
    assert_eq!(d2.tilemap.height(), 15);
    for y in 0..15 {
        for x in 0..15 {
            assert!(matches!(d2.tilemap.get(x, y), Some(Tile::Empty)));
        }
    }
}

#[test]
fn editor_tick_reports_a_save_request() {
    let mut d = startup(256, 144, assets(), None);
    let mut window = Bitmap::with_dimensions(256, 144);
    let mut input = Input::new();
    input.keyboard.set_key(KBKey::Ctrl, true);
    input.keyboard.set_key(KBKey::S, true);
    let saved = update_and_render(&mut d, &mut window, &input, Fx::from_raw(1092));
    assert!(saved);
    // a second frame with the keys still held is no new press
    let mut input2 = Input::new();
    input2.keyboard.set_key(KBKey::Ctrl, true);
    input2.keyboard.set_key(KBKey::S, true);
    input2.keyboard.set_key(KBKey::Ctrl, true);
    input2.keyboard.set_key(KBKey::S, true);
    let saved2 = update_and_render(&mut d, &mut window, &input2, Fx::from_raw(1092));
    assert!(!saved2);
}

#[test]
fn editor_resizes_with_arrow_keys() {
    let mut d = startup(256, 144, assets(), None);
    let mut window = Bitmap::with_dimensions(256, 144);
    let mut input = Input::new();
    input.keyboard.set_key(KBKey::Right, true);
    input.keyboard.set_key(KBKey::Up, true);
    update_and_render(&mut d, &mut window, &input, Fx::from_raw(1092));
    assert_eq!(d.tilemap.width(), 16);
    assert_eq!(d.tilemap.height(), 16);
    // the window holds the upscaled editor frame; its border is yellow
    assert_eq!(window.get_pixel(0, 0), 0xFFFFFF00);
    assert_eq!(window.get_pixel(255, 143), 0xFFFFFF00);
}

#[test]
fn tilemap_draw_blits_ground_tiles() {
    // one Ground tile at (0,0) of a 2x2 level, four pixels per tile:
    // with the Y flip it lands in the canvas's bottom-left quadrant
    let mut g = Tilemap::new(2, 2);
    g.set(0, 0, Tile::Ground);
    let s = screen_for(4, 8, 8, 0, 0);
    let ti = platformer::game::TileInfo {
        size: 4,
        screen_width: Fx::from_raw(2 * ONE),
        screen_height: Fx::from_raw(2 * ONE),
        ground_bmp: Bitmap::with_dimensions(4, 4).filled(Color::white()),
    };
    let mut canvas = Bitmap::with_dimensions(8, 8);
    g.draw(&mut canvas, &s, &ti);
    for y in 0..8 {
        for x in 0..8 {
            // the opaque white sprite replaces RGB and zeroes alpha
            let expect = if x < 4 && y >= 4 { 0x00FFFFFF } else { 0 };
            assert_eq!(canvas.get_pixel(x, y), expect);
        }
    }
}

#[test]
fn playing_tick_moves_the_player_under_gravity() {
    let mut d = startup(256, 144, assets(), None);
    d.state = GameState::Playing;
    let mut window = Bitmap::with_dimensions(256, 144);
    let input = Input::new();
    let y0 = d.player.pos.y.raw;
    update_and_render(&mut d, &mut window, &input, Fx::from_raw(1092));
    assert!(d.player.pos.y.raw < y0);
    assert!(matches!(d.state, GameState::Playing));
}
