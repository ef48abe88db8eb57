//! The per-frame game logic: the game-state container, the playing and
//! level-editor ticks, and drawing the tile grid through the camera.

use vstd::prelude::*;
use crate::fx::{Fx, FX_ONE, fx_int, fx_scale_down, fx_clamp};
use crate::geom::{V2, V2i, V2fx, AABB};
use crate::bitmap::{Bitmap, clamp_i32};
use crate::color::Color;
use crate::render::{clear, fill_rect, draw_rect, draw_line, draw_bmp, scale_up};
use crate::camera::{ScreenInfo, Mat2, screen_info_wf, v2_to_screen, aabb_to_screen, camera_follow,
    spec_camera_follow};
use crate::tilemap::Tilemap;
use crate::tile::Tile;
use crate::entity::{Entity, Direction, MovementCommand, Knockback, Health, entity_wf, spec_mov,
    POS_WF_RAW};
use crate::combat::{attack_hitbox, resolve_attack, spec_apply_hit, knockback_step,
    spec_knockback_step, enemy_chase, spec_chase, attack_tick, spec_attack_tick, ATTACK_TIME_RAW,
    ATTACK_COOLDOWN_RAW};
use crate::input::{Input, KBKey, MouseKey};
use crate::text::{FontBitmaps, i32_to_string};
use crate::utils::clamp;

verus! {

/// How tiles look on screen: the pixel size of one tile, the viewport
/// extent in tile units, and the image drawn for Ground.
pub struct TileInfo {
    pub size: i32,
    pub screen_width: Fx,
    pub screen_height: Fx,
    pub ground_bmp: Bitmap,
}

impl TileInfo {
    pub open spec fn wf(self) -> bool {
        &&& 1 <= self.size <= 0x800
        &&& 0 <= self.screen_width.raw <= 0x1000_0000
        &&& 0 <= self.screen_height.raw <= 0x1000_0000
        &&& self.ground_bmp.wf()
    }

    /// The image for a visible tile; only Ground is ever drawn.
    pub fn get_bmp(&self, tile: Tile) -> (r: &Bitmap)
        requires
            tile is Ground,
        ensures
            *r == self.ground_bmp,
    {
        &self.ground_bmp
    }
}

/// The tile rows the renderer walks for one frame: from the camera's
/// row (held at the grid's bottom) up over the viewport's height (held
/// at the grid's top row); an inverted pair means no row is walked.
pub open spec fn spec_draw_rows(g: Tilemap, s: ScreenInfo, ti: TileInfo) -> (int, int) {
    let cam_y = fx_scale_down(s.camera.y.raw as int);
    let vtiles = -fx_scale_down(-(ti.screen_height.raw as int));
    (
        if cam_y > 0 {
            cam_y
        } else {
            0
        },
        if cam_y + vtiles < g.spec_height() - 1 {
            cam_y + vtiles
        } else {
            g.spec_height() - 1
        },
    )
}

/// The tile columns the renderer walks for one frame, as the rows.
pub open spec fn spec_draw_cols(g: Tilemap, s: ScreenInfo, ti: TileInfo) -> (int, int) {
    let cam_x = fx_scale_down(s.camera.x.raw as int);
    let htiles = -fx_scale_down(-(ti.screen_width.raw as int));
    (
        if cam_x > 0 {
            cam_x
        } else {
            0
        },
        if cam_x + htiles < g.spec_width() - 1 {
            cam_x + htiles
        } else {
            g.spec_width() - 1
        },
    )
}

/// The color of pixel `(x, y)` after the first `k` steps of the tile
/// walk over a pixel whose previous color was `oldpx`: the walk visits
/// the `cols`-wide viewport rows bottom to top, left to right, and each
/// Ground tile blends the tile sprite over its screen rectangle (one
/// tile up from the mapped corner, as the sprite hangs from it).
pub open spec fn spec_tile_layer_pixel(
    g: Tilemap,
    s: ScreenInfo,
    ti: TileInfo,
    lower: int,
    left: int,
    cols: int,
    k: nat,
    oldpx: u32,
    x: int,
    y: int,
) -> u32
    decreases k,
{
    if k == 0 {
        oldpx
    } else {
        let j = k - 1;
        let tx = left + j % cols;
        let ty = lower + j / cols;
        let prev = spec_tile_layer_pixel(g, s, ti, lower, left, cols, (k - 1) as nat, oldpx, x, y);
        if g.in_bounds(tx, ty) && g.tile_at(tx, ty) is Ground {
            let p = crate::camera::spec_v2_to_screen(
                V2 { x: Fx { raw: fx_int(tx) as i64 }, y: Fx { raw: fx_int(ty) as i64 } },
                s,
            );
            let bx = p.0;
            let by = p.1 - ti.size;
            if bx <= x < bx + ti.ground_bmp.spec_width() && by <= y < by
                + ti.ground_bmp.spec_height() {
                crate::render::blend_pixel(
                    prev as int,
                    ti.ground_bmp.pixel_at(x - bx, y - by) as int,
                ) as u32
            } else {
                prev
            }
        } else {
            prev
        }
    }
}

impl Tilemap {
    /// Draws every visible tile inside the camera's viewport: each
    /// pixel becomes the left-to-right, bottom-to-top fold of the
    /// Ground-tile sprite blits over its old color.
    #[verifier::loop_isolation(false)]
    #[verifier::rlimit(100)]
    pub fn draw(&self, canvas: &mut Bitmap, s: &ScreenInfo, tile_info: &TileInfo)
        requires
            self.wf(),
            old(canvas).wf(),
            screen_info_wf(*s),
            tile_info.wf(),
            self.spec_width() <= 0x2000,
            self.spec_height() <= 0x2000,
        ensures
            final(canvas).wf(),
            final(canvas).same_dims(*old(canvas)),
            forall|qx: int, qy: int|
                final(canvas).in_bounds(qx, qy) ==> final(canvas).pixel_at(qx, qy) == ({
                    let rows = spec_draw_rows(*self, *s, *tile_info);
                    let cs = spec_draw_cols(*self, *s, *tile_info);
                    let n_rows = if rows.1 >= rows.0 {
                        rows.1 + 1 - rows.0
                    } else {
                        0
                    };
                    let n_cols = if cs.1 >= cs.0 {
                        cs.1 + 1 - cs.0
                    } else {
                        0
                    };
                    spec_tile_layer_pixel(
                        *self,
                        *s,
                        *tile_info,
                        rows.0,
                        cs.0,
                        n_cols,
                        (n_rows * n_cols) as nat,
                        old(canvas).pixel_at(qx, qy),
                        qx,
                        qy,
                    )
                }),
    {
        let cam_x: i64 = fx_floor_tile(s.camera.x) as i64;
        let cam_y: i64 = fx_floor_tile(s.camera.y) as i64;
        let v_draw_tiles: i64 = fx_ceil_small(tile_info.screen_height) as i64;
        let h_draw_tiles: i64 = fx_ceil_small(tile_info.screen_width) as i64;
        let lower: i64 = if cam_y > 0 {
            cam_y
        } else {
            0
        };
        let upper: i64 = if cam_y + v_draw_tiles < (self.height() as i64) - 1 {
            cam_y + v_draw_tiles
        } else {
            (self.height() as i64) - 1
        };
        let left: i64 = if cam_x > 0 {
            cam_x
        } else {
            0
        };
        let right: i64 = if cam_x + h_draw_tiles < (self.width() as i64) - 1 {
            cam_x + h_draw_tiles
        } else {
            (self.width() as i64) - 1
        };
        let ghost cols: int = if right >= left {
            right + 1 - left
        } else {
            0int
        };
        let ghost mut k: int = 0;
        proof {
            assert((lower as int - lower as int) * cols == 0) by (nonlinear_arith);
        }
        let mut ty: i64 = lower;
        while ty <= upper
            invariant
                self.wf(),
                canvas.wf(),
                canvas.same_dims(*old(canvas)),
                screen_info_wf(*s),
                tile_info.wf(),
                self.spec_width() <= 0x2000,
                self.spec_height() <= 0x2000,
                0 <= lower,
                upper < self.spec_height(),
                0 <= left,
                right < self.spec_width(),
                lower <= ty,
                ty <= upper + 1 || ty == lower,
                k == (ty - lower) * cols,
                0 <= k,
                forall|qx: int, qy: int|
                    canvas.in_bounds(qx, qy) ==> canvas.pixel_at(qx, qy)
                        == spec_tile_layer_pixel(
                        *self,
                        *s,
                        *tile_info,
                        lower as int,
                        left as int,
                        cols,
                        k as nat,
                        old(canvas).pixel_at(qx, qy),
                        qx,
                        qy,
                    ),
            decreases upper + 1 - ty,
        {
            let mut tx: i64 = left;
            while tx <= right
                invariant
                    self.wf(),
                    canvas.wf(),
                    canvas.same_dims(*old(canvas)),
                    screen_info_wf(*s),
                    tile_info.wf(),
                    self.spec_width() <= 0x2000,
                    self.spec_height() <= 0x2000,
                    0 <= lower <= ty <= upper,
                    upper < self.spec_height(),
                    0 <= left <= tx,
                    tx <= right + 1 || tx == left,
                    right < self.spec_width(),
                    k == (ty - lower) * cols + (tx - left),
                    0 <= k,
                    forall|qx: int, qy: int|
                        canvas.in_bounds(qx, qy) ==> canvas.pixel_at(qx, qy)
                            == spec_tile_layer_pixel(
                            *self,
                            *s,
                            *tile_info,
                            lower as int,
                            left as int,
                            cols,
                            k as nat,
                            old(canvas).pixel_at(qx, qy),
                            qx,
                            qy,
                        ),
                decreases right + 1 - tx,
            {
                proof {
                    vstd::arithmetic::div_mod::lemma_fundamental_div_mod_converse(
                        k,
                        cols,
                        (ty - lower) as int,
                        (tx - left) as int,
                    );
                }
                match self.get(tx as i32, ty as i32) {
                    Some(t) => {
                        if t.is_visible() {
                            let p = v2_to_screen(
                                V2 { x: Fx::from_int(tx as i32), y: Fx::from_int(ty as i32) },
                                s,
                            );
                            let bmp = tile_info.get_bmp(t);
                            draw_bmp(canvas, bmp, V2 { x: p.x, y: p.y - tile_info.size });
                        }
                    },
                    None => {
                        proof {
                            assert(false);
                        }
                    },
                }
                proof {
                    k = k + 1;
                }
                tx += 1;
            }
            proof {
                assert((ty + 1 - lower) * cols == (ty - lower) * cols + cols) by (nonlinear_arith);
            }
            ty += 1;
        }
        proof {
            let rows = spec_draw_rows(*self, *s, *tile_info);
            let cs = spec_draw_cols(*self, *s, *tile_info);
            let n_rows: int = if rows.1 >= rows.0 {
                rows.1 + 1 - rows.0
            } else {
                0
            };
            if upper < lower {
                assert(k == 0 && n_rows * cols == 0) by (nonlinear_arith)
                    requires
                        n_rows == 0,
                        k == 0,
                ;
            } else {
                assert(k == n_rows * cols);
            }
        }
    }

    /// The screen rectangle of the grid's outer border: the level's
    /// corners, mapped through the camera, vertical extremes swapped by
    /// the Y flip.
    pub open spec fn spec_outline_rect(self, s: ScreenInfo) -> (V2i, V2i) {
        let lo = crate::camera::spec_v2_to_screen(V2 { x: Fx { raw: 0 }, y: Fx { raw: 0 } }, s);
        let hi = crate::camera::spec_v2_to_screen(
            V2 {
                x: Fx { raw: fx_int(self.spec_width()) as i64 },
                y: Fx { raw: fx_int(self.spec_height()) as i64 },
            },
            s,
        );
        (V2 { x: lo.0 as i32, y: hi.1 as i32 }, V2 { x: hi.0 as i32, y: lo.1 as i32 })
    }

    /// Draws the grid's outer border as a one-pixel yellow rectangle:
    /// exactly the outline of the level's screen rectangle is painted.
    pub fn draw_outline(&self, canvas: &mut Bitmap, s: &ScreenInfo)
        requires
            self.wf(),
            old(canvas).wf(),
            screen_info_wf(*s),
            self.spec_width() <= 0x2000,
            self.spec_height() <= 0x2000,
        ensures
            final(canvas).wf(),
            final(canvas).same_dims(*old(canvas)),
            forall|x: int, y: int|
                final(canvas).in_bounds(x, y) ==> final(canvas).pixel_at(x, y) == (
                if crate::render::outline_region(
                    self.spec_outline_rect(*s).0,
                    self.spec_outline_rect(*s).1,
                    1,
                    x,
                    y,
                ) {
                    crate::render::color_u32((Color { b: 0, g: 0xFF, r: 0xFF, a: 0xFF }))
                } else {
                    old(canvas).pixel_at(x, y)
                }),
    {
        let w = self.width();
        let h = self.height();
        let rect = aabb_to_screen(
            AABB {
                min: V2 { x: Fx::zero(), y: Fx::zero() },
                max: V2 { x: Fx::from_int(w), y: Fx::from_int(h) },
            },
            s,
        );
        proof {
            assert(rect.min == self.spec_outline_rect(*s).0);
            assert(rect.max == self.spec_outline_rect(*s).1);
        }
        draw_rect(canvas, rect.min, rect.max, Color::yellow(), 1);
    }

    /// Draws the one-pixel grey interior grid lines the editor shows.
    #[verifier::loop_isolation(false)]
    pub fn draw_grid(&self, canvas: &mut Bitmap, s: &ScreenInfo, tile_info: &TileInfo)
        requires
            self.wf(),
            old(canvas).wf(),
            screen_info_wf(*s),
            tile_info.wf(),
            self.spec_width() <= 0x2000,
            self.spec_height() <= 0x2000,
        ensures
            final(canvas).wf(),
            final(canvas).same_dims(*old(canvas)),
    {
        let color = Color::grey();
        let cam_x: i64 = fx_floor_tile(s.camera.x) as i64;
        let cam_y: i64 = fx_floor_tile(s.camera.y) as i64;
        let v_draw_tiles: i64 = fx_ceil_small(tile_info.screen_height) as i64;
        let h_draw_tiles: i64 = fx_ceil_small(tile_info.screen_width) as i64;
        let ch = canvas.height();
        let cw = canvas.width();
        let lower: i64 = if cam_y > 1 {
            cam_y
        } else {
            1
        };
        let upper: i64 = if cam_y + v_draw_tiles + 1 < self.height() as i64 {
            cam_y + v_draw_tiles + 1
        } else {
            self.height() as i64
        };
        let mut ty: i64 = lower;
        while ty < upper
            invariant
                self.wf(),
                canvas.wf(),
                canvas.same_dims(*old(canvas)),
                screen_info_wf(*s),
                tile_info.wf(),
                self.spec_width() <= 0x2000,
                self.spec_height() <= 0x2000,
                1 <= lower <= ty,
                upper <= self.spec_height(),
                cw == canvas.spec_width(),
                ch == canvas.spec_height(),
            decreases upper - ty,
        {
            let mut a = v2_to_screen(V2 { x: Fx::zero(), y: Fx::from_int(ty as i32) }, s);
            if 0 <= a.y && a.y < ch {
                a.x = clamp(a.x, 0, cw);
                let mut b = v2_to_screen(
                    V2 { x: Fx::from_int(self.width()), y: Fx::from_int(ty as i32) },
                    s,
                );
                b.x = clamp(b.x, 0, cw);
                draw_line(canvas, a, b, color, 1);
            }
            ty += 1;
        }
        let left: i64 = if cam_x > 1 {
            cam_x
        } else {
            1
        };
        let right: i64 = if cam_x + h_draw_tiles + 1 < self.width() as i64 {
            cam_x + h_draw_tiles + 1
        } else {
            self.width() as i64
        };
        let mut tx: i64 = left;
        while tx < right
            invariant
                self.wf(),
                canvas.wf(),
                canvas.same_dims(*old(canvas)),
                screen_info_wf(*s),
                tile_info.wf(),
                self.spec_width() <= 0x2000,
                self.spec_height() <= 0x2000,
                1 <= left <= tx,
                right <= self.spec_width(),
                cw == canvas.spec_width(),
                ch == canvas.spec_height(),
            decreases right + 1 - tx,
        {
            let mut a = v2_to_screen(
                V2 { x: Fx::from_int(tx as i32), y: Fx::from_int(self.height()) },
                s,
            );
            if 0 <= a.x && a.x < cw {
                a.y = clamp(a.y, 0, ch);
                let mut b = v2_to_screen(V2 { x: Fx::from_int(tx as i32), y: Fx::zero() }, s);
                b.y = clamp(b.y, 0, ch);
                draw_line(canvas, a, b, color, 1);
            }
            tx += 1;
        }
    }
}

/// The tile index under a camera coordinate.
fn fx_floor_tile(v: Fx) -> (r: i32)
    requires
        -POS_WF_RAW <= v.raw <= POS_WF_RAW,
    ensures
        r as int == fx_scale_down(v.raw as int),
        -0x2000 <= r <= 0x2000,
{
    proof {
        crate::fx::lemma_scale_down_ordered(-POS_WF_RAW as int, v.raw as int);
        crate::fx::lemma_scale_down_ordered(v.raw as int, POS_WF_RAW as int);
        crate::fx::lemma_scale_down_exact(-0x2000);
        crate::fx::lemma_scale_down_exact(0x2000);
    }
    v.floor_i32()
}

/// The number of whole tiles that covers a small nonnegative extent.
fn fx_ceil_small(v: Fx) -> (r: i32)
    requires
        0 <= v.raw <= 0x1000_0000,
    ensures
        r as int == -fx_scale_down(-(v.raw as int)),
        0 <= r <= 0x1000,
{
    proof {
        crate::fx::lemma_scale_down_ordered(-0x1000_0000, -(v.raw as int));
        crate::fx::lemma_scale_down_ordered(-(v.raw as int), 0);
        crate::fx::lemma_scale_down_exact(-0x1000);
        crate::fx::lemma_scale_down_exact(0);
    }
    let q = Fx::from_raw(-v.raw).floor_i32();
    -q
}

/// Which mode the game is in.
#[derive(Copy, Clone, PartialEq, Eq, Structural, Debug)]
pub enum GameState {
    Playing,
    LevelEditor,
}

/// The player's sprites for each facing, and the attack's sprite.
pub struct PlayerBmps {
    pub right: Bitmap,
    pub left: Bitmap,
    pub hook: Bitmap,
}

/// Everything the game carries between frames.
pub struct GameData {
    pub screen_info: ScreenInfo,
    pub state: GameState,
    pub tilemap: Tilemap,
    pub tile_info: TileInfo,
    pub player: Entity,
    pub hook: Entity,
    pub player_attack_counter: Fx,
    pub enemies: Vec<Entity>,
    pub player_bmps: PlayerBmps,
    pub enemy_bmp_right: Bitmap,
    pub enemy_bmp_left: Bitmap,
    pub font_bmp: FontBitmaps,
    pub text: String,
    pub text_timer: Fx,
}

/// Game-state invariant: every component well-formed, the level of
/// bounded size, every entity on the playfield, the status text drawable
/// in the loaded font.
pub open spec fn game_wf(d: GameData) -> bool {
    &&& screen_info_wf(d.screen_info)
    &&& d.tilemap.wf()
    &&& 1 <= d.tilemap.spec_width() <= 0x2000
    &&& 1 <= d.tilemap.spec_height() <= 0x2000
    &&& d.tile_info.wf()
    &&& entity_wf(d.player)
    &&& entity_wf(d.hook)
    &&& -ATTACK_COOLDOWN_RAW - FX_ONE <= d.player_attack_counter.raw <= ATTACK_TIME_RAW
    &&& forall|i: int| 0 <= i < d.enemies@.len() ==> entity_wf(#[trigger] d.enemies@[i])
    &&& d.player_bmps.right.wf()
    &&& d.player_bmps.left.wf()
    &&& d.player_bmps.hook.wf()
    &&& d.enemy_bmp_right.wf()
    &&& d.enemy_bmp_left.wf()
    &&& d.font_bmp.wf()
    &&& d.font_bmp.supports(d.text@)
    &&& d.text@.len() <= 64
    &&& -0x2_0000 <= d.text_timer.raw <= 0x2_0000
}

/// Two game states that agree on everything but the enemies.
pub open spec fn same_but_enemies(a: GameData, b: GameData) -> bool {
    &&& a.screen_info == b.screen_info
    &&& a.state == b.state
    &&& a.tilemap == b.tilemap
    &&& a.tile_info == b.tile_info
    &&& a.player == b.player
    &&& a.hook == b.hook
    &&& a.player_attack_counter == b.player_attack_counter
    &&& a.player_bmps == b.player_bmps
    &&& a.enemy_bmp_right == b.enemy_bmp_right
    &&& a.enemy_bmp_left == b.enemy_bmp_left
    &&& a.font_bmp == b.font_bmp
    &&& a.text == b.text
    &&& a.text_timer == b.text_timer
}

/// Whether the key is held this frame.
pub open spec fn key_down(input: Input, k: KBKey) -> bool {
    input.keyboard.view()[crate::input::kbkey_code(k)].curr
}

/// Whether the key went down this frame.
pub open spec fn key_pressed(input: Input, k: KBKey) -> bool {
    &&& input.keyboard.view()[crate::input::kbkey_code(k)].curr
    &&& !input.keyboard.view()[crate::input::kbkey_code(k)].prev
}

fn kd(input: &Input, k: KBKey) -> (r: bool)
    requires
        input.wf(),
    ensures
        r == key_down(*input, k),
{
    input.keyboard.key(k).is_down()
}

fn kp(input: &Input, k: KBKey) -> (r: bool)
    requires
        input.wf(),
    ensures
        r == key_pressed(*input, k),
{
    input.keyboard.key(k).pressed()
}

/// The player's directional input: a single held key steers, both or
/// neither steers not.
pub open spec fn spec_player_dir(input: Input) -> Option<Direction> {
    let a = key_down(input, KBKey::A);
    let d = key_down(input, KBKey::D);
    if !a && d {
        Some(Direction::Right)
    } else if a && !d {
        Some(Direction::Left)
    } else {
        None
    }
}

/// The player's movement command: steer by A/D, jump on a fresh K.
pub open spec fn spec_player_command(input: Input) -> MovementCommand {
    MovementCommand::Platformer { dir: spec_player_dir(input), jump: key_pressed(input, KBKey::K) }
}

/// Facing after directional input: input turns, no input keeps.
pub open spec fn spec_facing_after(f: Direction, dir: Option<Direction>) -> Direction {
    match dir {
        Some(d) => d,
        None => f,
    }
}

/// Where the player respawns, and with how many hit points.
pub open spec fn spec_respawn_player() -> Entity {
    crate::entity::spec_character(V2 { x: Fx { raw: 163840i64 }, y: Fx { raw: 163840i64 } }, 1)
}

/// One living enemy's tick: the knockback machine either dictates the
/// command (a fresh hit's impulse, or stunned idling) or frees the
/// enemy to chase the player; directional commands turn the enemy; then
/// the motion integrates.  A dead enemy does nothing.
#[verifier::opaque]
pub open spec fn spec_enemy_tick(e: Entity, grid: Tilemap, player_pos: V2fx, dt: Fx) -> Entity {
    if e.health.hp <= 0 {
        e
    } else {
        let kr = spec_knockback_step(e.health.knockback, e.facing, dt);
        let e1 = Entity { health: Health { hp: e.health.hp, knockback: kr.0 }, ..e };
        let cmd = match kr.1 {
            Some(c) => c,
            None => spec_chase(e1, player_pos),
        };
        let f1 = match cmd {
            MovementCommand::Platformer { dir: Some(dd), .. } => dd,
            _ => e1.facing,
        };
        spec_mov(Entity { facing: f1, ..e1 }, grid, Some(cmd), dt)
    }
}

/// Runs one enemy's tick.
pub fn enemy_tick(e: &mut Entity, grid: &Tilemap, player_pos: V2fx, dt: Fx)
    requires
        grid.wf(),
        entity_wf(*old(e)),
        -POS_WF_RAW <= player_pos.x.raw <= POS_WF_RAW,
        -POS_WF_RAW <= player_pos.y.raw <= POS_WF_RAW,
        0 < dt.raw <= FX_ONE,
    ensures
        entity_wf(*final(e)),
        *final(e) == spec_enemy_tick(*old(e), *grid, player_pos, dt),
{
    proof {
        reveal(spec_enemy_tick);
    }
    if e.health.hp <= 0 {
        return ;
    }
    let kcmd = knockback_step(e, dt);
    let cmd = match kcmd {
        Some(c) => c,
        None => enemy_chase(e, player_pos),
    };
    match cmd {
        MovementCommand::Platformer { dir: Some(d), .. } => {
            e.facing = d;
        },
        _ => (),
    }
    e.mov(&grid, Some(cmd), dt);
}

/// Resets the player to the spawn point.
pub fn restart(data: &mut GameData)
    requires
        game_wf(*old(data)),
    ensures
        game_wf(*final(data)),
        final(data).player == spec_respawn_player(),
        *final(data) == (GameData { player: final(data).player, ..*old(data) }),
{
    data.player = Entity::new_character(
        V2 { x: Fx::from_raw(163840), y: Fx::from_raw(163840) },
        1,
    );
}

/// One tick of play: toggles to the editor on Ctrl+K, respawns on
/// Escape, runs the attack and its cooldown, moves the player by its
/// input, runs each enemy's knockback/chase tick against the player's
/// pre-tick position, follows the camera, and redraws the frame.
#[verifier::loop_isolation(false)]
#[verifier::rlimit(100)]
pub fn playing(screen: &mut Bitmap, input: &Input, data: &mut GameData, dt: Fx)
    requires
        game_wf(*old(data)),
        old(screen).wf(),
        input.wf(),
        0 < dt.raw <= FX_ONE,
    ensures
        game_wf(*final(data)),
        final(screen).wf(),
        final(screen).same_dims(*old(screen)),
        final(data).state == (if key_pressed(*input, KBKey::K) && key_down(*input, KBKey::Ctrl) {
            GameState::LevelEditor
        } else {
            old(data).state
        }),
        final(data).player_attack_counter.raw == spec_attack_tick(
            old(data).player_attack_counter.raw as int,
            key_pressed(*input, KBKey::J),
            dt.raw as int,
        ),
        ({
            let p0 = if key_pressed(*input, KBKey::Escape) {
                spec_respawn_player()
            } else {
                old(data).player
            };
            let p1 = Entity { facing: spec_facing_after(p0.facing, spec_player_dir(*input)), ..p0 };
            final(data).player == spec_mov(
                p1,
                old(data).tilemap,
                Some(spec_player_command(*input)),
                dt,
            )
        }),
        final(data).enemies@.len() == old(data).enemies@.len(),
        ({
            let p0 = if key_pressed(*input, KBKey::Escape) {
                spec_respawn_player()
            } else {
                old(data).player
            };
            let active = spec_attack_tick(
                old(data).player_attack_counter.raw as int,
                key_pressed(*input, KBKey::J),
                dt.raw as int,
            ) > 0;
            forall|i: int|
                0 <= i < old(data).enemies@.len() ==> final(data).enemies@[i] == spec_enemy_tick(
                    if active {
                        spec_apply_hit(crate::combat::spec_attack_box(p0), #[trigger] old(
                            data,
                        ).enemies@[i])
                    } else {
                        old(data).enemies@[i]
                    },
                    old(data).tilemap,
                    p0.pos,
                    dt,
                )
        }),
        final(data).tilemap == old(data).tilemap,
        final(data).hook == old(data).hook,
        final(data).text == old(data).text,
        final(data).text_timer == old(data).text_timer,
        ({
            let cam = spec_camera_follow(
                final(data).player.pos,
                old(data).tile_info.screen_width.raw as int,
                old(data).tile_info.screen_height.raw as int,
                old(data).tilemap.spec_width(),
                old(data).tilemap.spec_height(),
            );
            final(data).screen_info.camera.x.raw == cam.0 && final(data).screen_info.camera.y.raw
                == cam.1
        }),
        final(data).screen_info == (ScreenInfo {
            camera: final(data).screen_info.camera,
            ..old(data).screen_info
        }),
        final(data).tile_info == old(data).tile_info,
        ({
            let p0 = if key_pressed(*input, KBKey::Escape) {
                spec_respawn_player()
            } else {
                old(data).player
            };
            let active = spec_attack_tick(
                old(data).player_attack_counter.raw as int,
                key_pressed(*input, KBKey::J),
                dt.raw as int,
            ) > 0;
            forall|qx: int, qy: int|
                final(screen).in_bounds(qx, qy) ==> final(screen).pixel_at(qx, qy)
                    == spec_playing_frame_pixel(
                    *final(data),
                    active,
                    crate::combat::spec_attack_box(p0),
                    qx,
                    qy,
                )
        }),
{
    if kp(input, KBKey::K) && kd(input, KBKey::Ctrl) {
        data.state = GameState::LevelEditor;
        clear(screen, Color::black());
    }
    if kp(input, KBKey::Escape) {
        restart(data);
    }
    let c1 = attack_tick(data.player_attack_counter, kp(input, KBKey::J), dt);
    data.player_attack_counter = c1;
    let active = c1.raw > 0;
    let player_snapshot = data.player.pos;
    let ghost p0 = data.player;
    let abox = attack_hitbox(&data.player);
    if active {
        resolve_attack(abox, &mut data.enemies);
    }
    let dir = match (kd(input, KBKey::A), kd(input, KBKey::D)) {
        (false, true) => Some(Direction::Right),
        (true, false) => Some(Direction::Left),
        _ => None,
    };
    let cmd = MovementCommand::Platformer { dir, jump: kp(input, KBKey::K) };
    match dir {
        Some(d) => {
            data.player.facing = d;
        },
        None => (),
    }
    let ghost hit_enemies = data.enemies@;
    data.player.mov(&data.tilemap, Some(cmd), dt);
    let ghost d1 = *data;
    let n = data.enemies.len();
    let mut i: usize = 0;
    while i < n
        invariant
            i <= n,
            n == data.enemies@.len(),
            same_but_enemies(*data, d1),
            forall|q: int| 0 <= q < n ==> entity_wf(#[trigger] data.enemies@[q]),
            forall|q: int|
                0 <= q < i ==> data.enemies@[q] == spec_enemy_tick(
                    hit_enemies[q],
                    data.tilemap,
                    player_snapshot,
                    dt,
                ),
            forall|q: int| i <= q < n ==> data.enemies@[q] == #[trigger] hit_enemies[q],
        decreases n - i,
    {
        let mut e = data.enemies[i];
        enemy_tick(&mut e, &data.tilemap, player_snapshot, dt);
        data.enemies.set(i, e);
        i += 1;
    }
    let cam = camera_follow(
        data.player.pos,
        data.tile_info.screen_width,
        data.tile_info.screen_height,
        data.tilemap.width(),
        data.tilemap.height(),
    );
    data.screen_info.camera = cam;
    draw_playing(screen, data, active, abox);
}

/// An entity's hurtbox as a game-space box (its collision box value).
pub open spec fn spec_entity_box(e: Entity) -> AABB<Fx> {
    AABB {
        min: V2 {
            x: Fx { raw: (e.pos.x.raw + e.origin_to_bottom_left.x.raw) as i64 },
            y: Fx { raw: (e.pos.y.raw + e.origin_to_bottom_left.y.raw) as i64 },
        },
        max: V2 {
            x: Fx { raw: (e.pos.x.raw + e.origin_to_bottom_left.x.raw + e.size.x.raw) as i64 },
            y: Fx { raw: (e.pos.y.raw + e.origin_to_bottom_left.y.raw + e.size.y.raw) as i64 },
        },
    }
}

/// A game-space box mapped to its screen rectangle: both corners
/// through the camera, vertical extremes swapped by the Y flip.
pub open spec fn spec_box_rect(b: AABB<Fx>, s: ScreenInfo) -> (V2i, V2i) {
    let lo = crate::camera::spec_v2_to_screen(b.min, s);
    let hi = crate::camera::spec_v2_to_screen(b.max, s);
    (V2 { x: lo.0 as i32, y: hi.1 as i32 }, V2 { x: hi.0 as i32, y: lo.1 as i32 })
}

/// Whether a knocked-back enemy is hidden this frame: the flicker
/// alternates with the remaining stun time.
pub open spec fn spec_enemy_hidden(k: Knockback) -> bool {
    match k {
        Knockback::Knocked { time_remaining, .. } => time_remaining.raw * 20 / 65536 % 2 == 0,
        Knockback::No => false,
    }
}

/// The color of pixel `(x, y)` after drawing the first `j` enemies over
/// a pixel whose previous color was `prev`: each living frame shows the
/// enemy's facing sprite centered half a tile up-left of its position
/// (skipped while the knockback flicker hides it), then its yellow
/// collision rectangle.
pub open spec fn spec_enemy_layer_pixel(d: GameData, j: nat, prev: u32, x: int, y: int) -> u32
    decreases j,
{
    if j == 0 {
        prev
    } else {
        let e = d.enemies@[j - 1];
        let p1 = spec_enemy_layer_pixel(d, (j - 1) as nat, prev, x, y);
        let half = d.tile_info.size as int / 2;
        let ep = crate::camera::spec_v2_to_screen(e.pos, d.screen_info);
        let eb = if e.facing is Right {
            d.enemy_bmp_right
        } else {
            d.enemy_bmp_left
        };
        let bx = ep.0 - half;
        let by = ep.1 - half;
        let p2 = if !spec_enemy_hidden(e.health.knockback) && bx <= x < bx + eb.spec_width() && by
            <= y < by + eb.spec_height() {
            crate::render::blend_pixel(p1 as int, eb.pixel_at(x - bx, y - by) as int) as u32
        } else {
            p1
        };
        let rect = spec_box_rect(spec_entity_box(e), d.screen_info);
        if crate::render::outline_region(rect.0, rect.1, 1, x, y) {
            crate::render::color_u32((Color { b: 0, g: 0xFF, r: 0xFF, a: 0xFF }))
        } else {
            p2
        }
    }
}

/// The color of pixel `(x, y)` in a playing-mode frame before the
/// enemies are drawn: black, then the Ground-tile layer, the player's
/// facing sprite (centered half a tile up-left of its position) and
/// yellow collision rectangle, and the translucent attack fill and its
/// sprite while an attack is active.
pub open spec fn spec_pre_enemy_pixel(
    d: GameData,
    active: bool,
    abox: AABB<Fx>,
    x: int,
    y: int,
) -> u32 {
    let black = crate::render::color_u32((Color { b: 0, g: 0, r: 0, a: 0xFF }));
    let rows = spec_draw_rows(d.tilemap, d.screen_info, d.tile_info);
    let cs = spec_draw_cols(d.tilemap, d.screen_info, d.tile_info);
    let n_rows = if rows.1 >= rows.0 {
        rows.1 + 1 - rows.0
    } else {
        0
    };
    let n_cols = if cs.1 >= cs.0 {
        cs.1 + 1 - cs.0
    } else {
        0
    };
    let p1 = spec_tile_layer_pixel(
        d.tilemap,
        d.screen_info,
        d.tile_info,
        rows.0,
        cs.0,
        n_cols,
        (n_rows * n_cols) as nat,
        black,
        x,
        y,
    );
    let pb = if d.player.facing is Right {
        d.player_bmps.right
    } else {
        d.player_bmps.left
    };
    let pp = crate::camera::spec_v2_to_screen(d.player.pos, d.screen_info);
    let half = d.tile_info.size as int / 2;
    let bx = pp.0 - half;
    let by = pp.1 - half;
    let p2 = if bx <= x < bx + pb.spec_width() && by <= y < by + pb.spec_height() {
        crate::render::blend_pixel(p1 as int, pb.pixel_at(x - bx, y - by) as int) as u32
    } else {
        p1
    };
    let prect = spec_box_rect(spec_entity_box(d.player), d.screen_info);
    let p3 = if crate::render::outline_region(prect.0, prect.1, 1, x, y) {
        crate::render::color_u32((Color { b: 0, g: 0xFF, r: 0xFF, a: 0xFF }))
    } else {
        p2
    };
    let p4 = if active && ({
        let arect = spec_box_rect(abox, d.screen_info);
        crate::render::fill_region(arect.0, arect.1, x, y)
    }) {
        crate::render::color_u32((Color { b: 0, g: 0, r: 0xFF, a: 0x77 }))
    } else {
        p3
    };
    let hp = crate::camera::spec_v2_to_screen(
        V2 { x: abox.min.x, y: abox.max.y },
        d.screen_info,
    );
    let hb = d.player_bmps.hook;
    if active && hp.0 <= x < hp.0 + hb.spec_width() && hp.1 <= y < hp.1 + hb.spec_height() {
        crate::render::blend_pixel(p4 as int, hb.pixel_at(x - hp.0, y - hp.1) as int) as u32
    } else {
        p4
    }
}

/// The color of pixel `(x, y)` in one playing-mode frame: the pre-enemy
/// composition, then each enemy's sprite and collision rectangle.
#[verifier::opaque]
pub open spec fn spec_playing_frame_pixel(
    d: GameData,
    active: bool,
    abox: AABB<Fx>,
    x: int,
    y: int,
) -> u32 {
    spec_enemy_layer_pixel(
        d,
        d.enemies@.len(),
        spec_pre_enemy_pixel(d, active, abox, x, y),
        x,
        y,
    )
}

/// Redraws one frame of play: every pixel becomes the composition of
/// the black clear, the tile layer, the player's sprite and collision
/// box, the active attack's fill and sprite, and each visible enemy.
#[verifier::loop_isolation(false)]
#[verifier::rlimit(100)]
pub fn draw_playing(screen: &mut Bitmap, data: &GameData, active: bool, abox: AABB<Fx>)
    requires
        game_wf(*data),
        old(screen).wf(),
        -0x2300_0000 <= abox.min.x.raw <= 0x2300_0000,
        -0x2300_0000 <= abox.min.y.raw <= 0x2300_0000,
        -0x2300_0000 <= abox.max.x.raw <= 0x2300_0000,
        -0x2300_0000 <= abox.max.y.raw <= 0x2300_0000,
    ensures
        final(screen).wf(),
        final(screen).same_dims(*old(screen)),
        forall|qx: int, qy: int|
            final(screen).in_bounds(qx, qy) ==> final(screen).pixel_at(qx, qy)
                == spec_playing_frame_pixel(*data, active, abox, qx, qy),
{
    proof {
        reveal(spec_playing_frame_pixel);
    }
    clear(screen, Color::black());
    let n = data.enemies.len();
    data.tilemap.draw(screen, &data.screen_info, &data.tile_info);
    let pb = match data.player.facing {
        Direction::Right => &data.player_bmps.right,
        Direction::Left => &data.player_bmps.left,
    };
    let pp = v2_to_screen(data.player.pos, &data.screen_info);
    let half: i32 = ((data.tile_info.size as u32) / 2) as i32;
    draw_bmp(screen, pb, V2 { x: pp.x - half, y: pp.y - half });
    let prect = aabb_to_screen(data.player.collision_aabb(), &data.screen_info);
    draw_rect(screen, prect.min, prect.max, Color::yellow(), 1);
    if active {
        let arect = aabb_to_screen(abox, &data.screen_info);
        fill_rect(screen, arect.min, arect.max, Color::argb8(0x77, 0xFF, 0, 0));
        let attack_top_left = V2 { x: abox.min.x, y: abox.max.y };
        let hp = v2_to_screen(attack_top_left, &data.screen_info);
        draw_bmp(screen, &data.player_bmps.hook, hp);
    }
    proof {
        assert forall|qx: int, qy: int| screen.in_bounds(qx, qy) implies screen.pixel_at(qx, qy)
            == spec_pre_enemy_pixel(*data, active, abox, qx, qy) by {}
    }
    let mut j: usize = 0;
    while j < n
        invariant
            j <= n,
            n == data.enemies@.len(),
            screen.wf(),
            screen.same_dims(*old(screen)),
            screen_info_wf(data.screen_info),
            data.enemy_bmp_right.wf(),
            data.enemy_bmp_left.wf(),
            0 <= data.tile_info.size <= 0x800,
            forall|q: int| 0 <= q < n ==> entity_wf(#[trigger] data.enemies@[q]),
            forall|qx: int, qy: int|
                screen.in_bounds(qx, qy) ==> screen.pixel_at(qx, qy) == spec_enemy_layer_pixel(
                    *data,
                    j as nat,
                    spec_pre_enemy_pixel(*data, active, abox, qx, qy),
                    qx,
                    qy,
                ),
        decreases n - j,
    {
        let e = &data.enemies[j];
        let skip: bool = match e.health.knockback {
            Knockback::Knocked { time_remaining, .. } => (((time_remaining.raw as u64) * 20)
                / 65536) % 2 == 0,
            Knockback::No => false,
        };
        if !skip {
            let ep = v2_to_screen(e.pos, &data.screen_info);
            let eb = match e.facing {
                Direction::Right => &data.enemy_bmp_right,
                Direction::Left => &data.enemy_bmp_left,
            };
            let half: i32 = ((data.tile_info.size as u32) / 2) as i32;
            draw_bmp(screen, eb, V2 { x: ep.x - half, y: ep.y - half });
        }
        let erect = aabb_to_screen(data.enemies[j].collision_aabb(), &data.screen_info);
        draw_rect(screen, erect.min, erect.max, Color::yellow(), 1);
        j += 1;
    }
}

/// The level dimensions the editor's arrow keys ask for this frame.
pub open spec fn spec_editor_dims(w: int, h: int, input: Input) -> (int, int) {
    let dw: int = if key_pressed(input, KBKey::Right) && !key_pressed(input, KBKey::Left) {
        1
    } else if key_pressed(input, KBKey::Left) && !key_pressed(input, KBKey::Right) {
        -1
    } else {
        0
    };
    let dh: int = if key_pressed(input, KBKey::Up) && !key_pressed(input, KBKey::Down) {
        1
    } else if key_pressed(input, KBKey::Down) && !key_pressed(input, KBKey::Up) {
        -1
    } else {
        0
    };
    (w + dw, h + dh)
}

/// Where the editor's camera pans this frame: ten tiles per second on
/// each held axis key, unless Ctrl is down, saturating at the edge of
/// the playfield.
pub open spec fn spec_editor_camera(cam: V2fx, input: Input, dt: Fx) -> (int, int) {
    if key_down(input, KBKey::Ctrl) {
        (cam.x.raw as int, cam.y.raw as int)
    } else {
        let step = crate::entity::fxmul(655360, dt.raw as int);
        let dx: int = if key_down(input, KBKey::D) && !key_down(input, KBKey::A) {
            step
        } else if key_down(input, KBKey::A) && !key_down(input, KBKey::D) {
            -step
        } else {
            0
        };
        let dy: int = if key_down(input, KBKey::W) && !key_down(input, KBKey::S) {
            step
        } else if key_down(input, KBKey::S) && !key_down(input, KBKey::W) {
            -step
        } else {
            0
        };
        (
            fx_clamp(cam.x.raw + dx, -POS_WF_RAW as int, POS_WF_RAW as int),
            fx_clamp(cam.y.raw + dy, -POS_WF_RAW as int, POS_WF_RAW as int),
        )
    }
}

/// The tile under the mouse: window coordinates (clamped to a sane
/// range) through the screen-to-game matrix, past the camera, truncated
/// to a tile index.
pub open spec fn spec_editor_mouse(input: Input, s: ScreenInfo) -> (int, int) {
    let mxc = fx_clamp(input.mouse.x as int, -0x7FFF, 0x7FFF);
    let myc = fx_clamp(input.mouse.y - s.height, -0x7FFF, 0x7FFF);
    let vx = fx_int(mxc);
    let vy = fx_int(myc);
    let gx = crate::camera::spec_apply_x(s.screen_to_game_matrix, vx, vy) + s.camera.x.raw;
    let gy = crate::camera::spec_apply_y(s.screen_to_game_matrix, vx, vy) + s.camera.y.raw;
    (crate::camera::fx_trunc_units(gx), crate::camera::fx_trunc_units(gy))
}

/// Maps the mouse cursor to the tile under it.
fn editor_mouse(input: &Input, s: &ScreenInfo) -> (r: (i32, i32))
    requires
        screen_info_wf(*s),
    ensures
        r.0 as int == spec_editor_mouse(*input, *s).0,
        r.1 as int == spec_editor_mouse(*input, *s).1,
        -0x4000_0000 < r.0 < 0x4000_0000,
        -0x4000_0000 < r.1 < 0x4000_0000,
{
    let mxc: i64 = clamp_i64(input.mouse.x as i64, -0x7FFF, 0x7FFF);
    let myc: i64 = clamp_i64((input.mouse.y as i64) - (s.height as i64), -0x7FFF, 0x7FFF);
    let v = V2 { x: Fx::from_raw(mxc * 65536), y: Fx::from_raw(myc * 65536) };
    let m = s.screen_to_game_matrix.apply(v);
    let gx = m.x.add(s.camera.x);
    let gy = m.y.add(s.camera.y);
    let tx = crate::camera::trunc_units(gx.raw);
    let ty = crate::camera::trunc_units(gy.raw);
    (tx as i32, ty as i32)
}

/// Clamps a 64-bit value into `[lo, hi]`.
fn clamp_i64(v: i64, lo: i64, hi: i64) -> (r: i64)
    requires
        lo <= hi,
    ensures
        r as int == fx_clamp(v as int, lo as int, hi as int),
{
    if v < lo {
        lo
    } else if v > hi {
        hi
    } else {
        v
    }
}

/// Draws `text` in a black box with a white border at `p`; returns the
/// box's bottom-right corner.
pub fn draw_text_box(dst: &mut Bitmap, font: &FontBitmaps, text: &str, p: V2i) -> (br: V2i)
    requires
        old(dst).wf(),
        font.wf(),
        font.supports(text@),
        text@.len() <= 64,
        -0xF_0000 <= p.x <= 0xF_0000,
        -0xF_0000 <= p.y <= 0xF_0000,
    ensures
        final(dst).wf(),
        final(dst).same_dims(*old(dst)),
        br.x == p.x + font.spec_string_width(text@) + 10,
        br.y == p.y + font.height + 10,
{
    let w = font.width(text);
    let h = font.height();
    let br = V2 { x: p.x + w + 10, y: p.y + h + 10 };
    fill_rect(dst, p, br, Color::black());
    draw_rect(dst, p, br, Color::white(), 1);
    font.draw_string(dst, V2 { x: p.x + 5, y: p.y + 5 }, text);
    br
}

/// Sets the transient status text shown after a save attempt, for one
/// second.
pub fn set_status(data: &mut GameData, ok: bool)
    requires
        game_wf(*old(data)),
        old(data).font_bmp.supports("Saved"@),
        old(data).font_bmp.supports("Error saving bitmap"@),
    ensures
        game_wf(*final(data)),
        final(data).text@ == if ok {
            "Saved"@
        } else {
            "Error saving bitmap"@
        },
        final(data).text_timer.raw == FX_ONE,
        *final(data) == (GameData {
            text: final(data).text,
            text_timer: final(data).text_timer,
            ..*old(data)
        }),
{
    proof {
        reveal_strlit("Saved");
        reveal_strlit("Error saving bitmap");
    }
    data.text = if ok {
        String::from_str("Saved")
    } else {
        String::from_str("Error saving bitmap")
    };
    data.text_timer = Fx::from_raw(FX_ONE);
}

/// One editor tick: toggles back to play on Ctrl+K, reports a save
/// request on Ctrl+S, shows the transient status text, resizes the
/// level by the arrow keys, pans the camera, paints the tile under the
/// mouse with the held button, and redraws the frame with the grid, its
/// outline, and the editor's text boxes.
#[verifier::loop_isolation(false)]
#[verifier::rlimit(100)]
pub fn level_editor(screen: &mut Bitmap, input: &Input, data: &mut GameData, dt: Fx) -> (save_requested: bool)
    requires
        game_wf(*old(data)),
        old(screen).wf(),
        old(screen).spec_width() <= 0x8000,
        old(screen).spec_height() <= 0x8000,
        input.wf(),
        0 < dt.raw <= FX_ONE,
    ensures
        game_wf(*final(data)),
        final(screen).wf(),
        final(screen).same_dims(*old(screen)),
        final(data).state == (if key_pressed(*input, KBKey::K) && key_down(*input, KBKey::Ctrl) {
            GameState::Playing
        } else {
            old(data).state
        }),
        save_requested == (key_pressed(*input, KBKey::S) && key_down(*input, KBKey::Ctrl)),
        final(data).text == old(data).text,
        final(data).text_timer.raw == (if old(data).text_timer.raw > 0 {
            old(data).text_timer.raw - dt.raw
        } else {
            old(data).text_timer.raw as int
        }),
        final(data).player == old(data).player,
        final(data).hook == old(data).hook,
        final(data).enemies == old(data).enemies,
        final(data).player_attack_counter == old(data).player_attack_counter,
        ({
            let cam = spec_editor_camera(old(data).screen_info.camera, *input, dt);
            final(data).screen_info.camera.x.raw == cam.0 && final(data).screen_info.camera.y.raw
                == cam.1
        }),
        final(data).screen_info == (ScreenInfo {
            camera: final(data).screen_info.camera,
            ..old(data).screen_info
        }),
        final(data).tile_info == old(data).tile_info,
        forall|qx: int, qy: int|
            final(screen).in_bounds(qx, qy) && crate::render::outline_region(
                V2 { x: 0, y: 0 },
                V2 { x: old(screen).spec_width() as i32, y: old(screen).spec_height() as i32 },
                2,
                qx,
                qy,
            ) ==> final(screen).pixel_at(qx, qy) == crate::render::color_u32(
                (Color { b: 0, g: 0xFF, r: 0xFF, a: 0xFF }),
            ),
        ({
            let dims = spec_editor_dims(
                old(data).tilemap.spec_width(),
                old(data).tilemap.spec_height(),
                *input,
            );
            let do_resize = (dims.0 != old(data).tilemap.spec_width() || dims.1 != old(
                data,
            ).tilemap.spec_height()) && 1 <= dims.0 <= 0x2000 && 1 <= dims.1 <= 0x2000;
            &&& final(data).tilemap.spec_width() == (if do_resize {
                dims.0
            } else {
                old(data).tilemap.spec_width()
            })
            &&& final(data).tilemap.spec_height() == (if do_resize {
                dims.1
            } else {
                old(data).tilemap.spec_height()
            })
            &&& ({
                let mouse = spec_editor_mouse(*input, final(data).screen_info);
                let painting = input.mouse.buttons()[0].curr || input.mouse.buttons()[1].curr;
                let paint_tile: Tile = if input.mouse.buttons()[0].curr {
                    Tile::Ground
                } else {
                    Tile::Empty
                };
                forall|x: int, y: int|
                    final(data).tilemap.in_bounds(x, y) ==> final(data).tilemap.tile_at(x, y) == (
                    if painting && x == mouse.0 && y == mouse.1 {
                        paint_tile
                    } else if old(data).tilemap.in_bounds(x, y) {
                        old(data).tilemap.tile_at(x, y)
                    } else {
                        Tile::Empty
                    })
            })
        }),
{
    if kp(input, KBKey::K) && kd(input, KBKey::Ctrl) {
        data.state = GameState::Playing;
    }
    let save_requested = kp(input, KBKey::S) && kd(input, KBKey::Ctrl);
    let show_text = data.text_timer.raw > 0;
    if show_text {
        data.text_timer = data.text_timer.sub(dt);
    }
    let dims = data.tilemap.dim();
    let mut new_w: i32 = dims.x;
    let mut new_h: i32 = dims.y;
    match (kp(input, KBKey::Right), kp(input, KBKey::Left)) {
        (true, false) => {
            new_w = new_w + 1;
        },
        (false, true) => {
            new_w = new_w - 1;
        },
        _ => (),
    }
    match (kp(input, KBKey::Up), kp(input, KBKey::Down)) {
        (true, false) => {
            new_h = new_h + 1;
        },
        (false, true) => {
            new_h = new_h - 1;
        },
        _ => (),
    }
    if (new_w != dims.x || new_h != dims.y) && 1 <= new_w && new_w <= 0x2000 && 1 <= new_h && new_h
        <= 0x2000 {
        proof {
            assert(new_w * data.tilemap.spec_height() <= 0x2000 * 0x2000 && new_w * new_h <= 0x2000
                * 0x2000) by (nonlinear_arith)
                requires
                    1 <= new_w <= 0x2000,
                    1 <= new_h <= 0x2000,
                    1 <= data.tilemap.spec_height() <= 0x2000,
            ;
        }
        data.tilemap.resize(new_w, new_h);
    }
    if !kd(input, KBKey::Ctrl) {
        let step = Fx::from_raw(655360).mul(dt);
        proof {
            crate::fx::lemma_fx_mul_unit_bound(655360, dt.raw as int, 655360);
        }
        let cam = data.screen_info.camera;
        let dx: Fx = match (kd(input, KBKey::A), kd(input, KBKey::D)) {
            (false, true) => step,
            (true, false) => step.neg(),
            _ => Fx::zero(),
        };
        let dy: Fx = match (kd(input, KBKey::S), kd(input, KBKey::W)) {
            (false, true) => step,
            (true, false) => step.neg(),
            _ => Fx::zero(),
        };
        let nx = crate::camera::seq_clamp(
            cam.x.add(dx),
            Fx::from_raw(-POS_WF_RAW),
            Fx::from_raw(POS_WF_RAW),
        );
        let ny = crate::camera::seq_clamp(
            cam.y.add(dy),
            Fx::from_raw(-POS_WF_RAW),
            Fx::from_raw(POS_WF_RAW),
        );
        data.screen_info.camera = V2 { x: nx, y: ny };
    }
    let (mx, my) = editor_mouse(input, &data.screen_info);
    let lb = input.mouse.key(MouseKey::LB).is_down();
    let rb = input.mouse.key(MouseKey::RB).is_down();
    if lb || rb {
        let t = if lb {
            Tile::Ground
        } else {
            Tile::Empty
        };
        data.tilemap.paint(mx, my, t);
    }
    draw_editor(screen, data, input, mx, my, show_text);
    save_requested
}

/// Redraws one editor frame: the level with its grid and outline, the
/// transient status text, the dimension and hint boxes, the mouse's
/// tile coordinates beside the cursor, and the yellow screen border
/// (drawn last, so the contract pins its pixels).
#[verifier::loop_isolation(false)]
#[verifier::rlimit(100)]
pub fn draw_editor(screen: &mut Bitmap, data: &GameData, input: &Input, mx: i32, my: i32, show_text: bool)
    requires
        game_wf(*data),
        old(screen).wf(),
        old(screen).spec_width() <= 0x8000,
        old(screen).spec_height() <= 0x8000,
        input.wf(),
        -0x4000_0000 < mx < 0x4000_0000,
        -0x4000_0000 < my < 0x4000_0000,
    ensures
        final(screen).wf(),
        final(screen).same_dims(*old(screen)),
        forall|x: int, y: int|
            final(screen).in_bounds(x, y) && crate::render::outline_region(
                V2 { x: 0, y: 0 },
                V2 {
                    x: old(screen).spec_width() as i32,
                    y: old(screen).spec_height() as i32,
                },
                2,
                x,
                y,
            ) ==> final(screen).pixel_at(x, y) == crate::render::color_u32(
                (Color { b: 0, g: 0xFF, r: 0xFF, a: 0xFF }),
            ),
{
    clear(screen, Color::black());
    data.tilemap.draw(screen, &data.screen_info, &data.tile_info);
    data.tilemap.draw_grid(screen, &data.screen_info, &data.tile_info);
    data.tilemap.draw_outline(screen, &data.screen_info);
    if show_text && data.text.as_str().unicode_len() <= 64 {
        let tcopy = data.text.clone();
        data.font_bmp.draw_string(screen, V2 { x: 10, y: 10 }, tcopy.as_str());
    }
    let mut dims_text = i32_to_string(data.tilemap.width());
    dims_text.append("x");
    let h_text = i32_to_string(data.tilemap.height());
    dims_text.append(h_text.as_str());
    let mut bottom_y: i32 = 50;
    if data.font_bmp.supports_str(dims_text.as_str()) && dims_text.as_str().unicode_len() <= 64 {
        let br = draw_text_box(screen, &data.font_bmp, dims_text.as_str(), V2 { x: 50, y: 50 });
        bottom_y = br.y;
    }
    let hint = "Use arrow keys to change tilemap size.";
    if data.font_bmp.supports_str(hint) && hint.unicode_len() <= 64 && -0xF_0000 <= bottom_y
        && bottom_y <= 0xF_0000 {
        draw_text_box(screen, &data.font_bmp, hint, V2 { x: 50, y: bottom_y });
    }
    let sw = screen.width();
    let sh = screen.height();
    if 0 <= input.mouse.x && input.mouse.x < sw && 0 <= input.mouse.y && input.mouse.y < sh {
        let mut mouse_text = i32_to_string(mx);
        mouse_text.append(" : ");
        let my_text = i32_to_string(my);
        mouse_text.append(my_text.as_str());
        if data.font_bmp.supports_str(mouse_text.as_str()) && mouse_text.as_str().unicode_len()
            <= 64 {
            let tw = data.font_bmp.width(mouse_text.as_str());
            let th = data.font_bmp.height();
            let mut tp = V2 {
                x: ((input.mouse.x as i64) + 10) as i32,
                y: ((input.mouse.y as i64) + 10) as i32,
            };
            if (tp.x as i64) + (tw as i64) > sw as i64 {
                tp.x = (((input.mouse.x as i64) - (tw as i64)) - 10) as i32;
            }
            if (tp.y as i64) + (th as i64) > sh as i64 {
                tp.y = (((input.mouse.y as i64) - (th as i64)) - 10) as i32;
            }
            if -0xF_0000 <= tp.x && tp.x <= 0xF_0000 && -0xF_0000 <= tp.y && tp.y <= 0xF_0000 {
                draw_text_box(screen, &data.font_bmp, mouse_text.as_str(), tp);
            }
        }
    }
    let d = screen.dim();
    draw_rect(screen, V2 { x: 0, y: 0 }, d, Color::yellow(), 2);
}


/// The level a failed or absent load falls back to: a fresh 15 by 15
/// grid, every cell Empty.
pub open spec fn default_level(g: Tilemap) -> bool {
    &&& g.spec_width() == 15
    &&& g.spec_height() == 15
    &&& forall|x: int, y: int| g.in_bounds(x, y) ==> g.tile_at(x, y) is Empty
}

/// The assets the game needs at startup, already decoded: the tile
/// sprite, the entity sprites, and the rasterized font.
pub struct GameAssets {
    pub tile_size: i32,
    pub ground_bmp: Bitmap,
    pub player_right: Bitmap,
    pub player_left: Bitmap,
    pub hook_bmp: Bitmap,
    pub enemy_right: Bitmap,
    pub enemy_left: Bitmap,
    pub font: FontBitmaps,
}

/// Usable startup assets: a sane tile size, well-formed images, and an
/// attack sprite no larger than the entity size bound allows.
pub open spec fn assets_wf(a: GameAssets) -> bool {
    &&& 1 <= a.tile_size <= 0x800
    &&& a.ground_bmp.wf()
    &&& a.player_right.wf()
    &&& a.player_left.wf()
    &&& a.hook_bmp.wf()
    &&& a.enemy_right.wf()
    &&& a.enemy_left.wf()
    &&& a.font.wf()
    &&& a.hook_bmp.spec_width() <= a.tile_size * 0x100
    &&& a.hook_bmp.spec_height() <= a.tile_size * 0x100
}

/// The initial game state: the level loaded from the given bytes where
/// they parse (and fit the supported level size), else a fresh 15 by 15
/// level; the player and one enemy at their spawn points; the camera at
/// the origin; the editor active.
pub fn startup(
    screen_width: i32,
    screen_height: i32,
    assets: GameAssets,
    level_bytes: Option<&[u8]>,
) -> (d: GameData)
    requires
        assets_wf(assets),
    ensures
        game_wf(d),
        d.state is LevelEditor,
        d.player == crate::entity::spec_character(
            V2 { x: Fx { raw: 163840i64 }, y: Fx { raw: 163840i64 } },
            1,
        ),
        d.enemies@.len() == 1,
        d.enemies@[0] == crate::entity::spec_character(
            V2 { x: Fx { raw: 229376i64 }, y: Fx { raw: 98304i64 } },
            5,
        ),
        d.screen_info.camera.x.raw == 0 && d.screen_info.camera.y.raw == 0,
        d.screen_info.scale == 4,
        d.player_attack_counter.raw == 0,
        d.text_timer.raw == 0,
        d.text@ == Seq::<char>::empty(),
        d.tile_info.size == assets.tile_size,
        d.tile_info.ground_bmp == assets.ground_bmp,
        d.player_bmps.right == assets.player_right,
        d.player_bmps.left == assets.player_left,
        d.player_bmps.hook == assets.hook_bmp,
        d.enemy_bmp_right == assets.enemy_right,
        d.enemy_bmp_left == assets.enemy_left,
        d.font_bmp == assets.font,
        level_bytes is None ==> default_level(d.tilemap),
        ({
            match level_bytes {
                Some(b) => {
                    &&& (crate::tilemap::parse_ok(b@) && 1 <= crate::tilemap::header_width(b@)
                        <= 0x2000 && 1 <= crate::tilemap::header_height(b@) <= 0x2000 ==> {
                        &&& d.tilemap.spec_width() == crate::tilemap::header_width(b@)
                        &&& d.tilemap.spec_height() == crate::tilemap::header_height(b@)
                        &&& forall|x: int, y: int|
                            d.tilemap.in_bounds(x, y) ==> d.tilemap.tile_at(x, y)
                                == crate::tile::Tile::of_byte(
                                b@[8 + y * d.tilemap.spec_width() + x],
                            )
                    })
                    &&& (!(crate::tilemap::parse_ok(b@) && 1 <= crate::tilemap::header_width(b@)
                        <= 0x2000 && 1 <= crate::tilemap::header_height(b@) <= 0x2000)
                        ==> default_level(d.tilemap))
                },
                None => true,
            }
        }),
{
    let ts = assets.tile_size;
    let tilemap = match level_bytes {
        Some(b) => {
            match Tilemap::load(b) {
                Ok(g) => {
                    if g.width() <= 0x2000 && g.height() <= 0x2000 {
                        g
                    } else {
                        Tilemap::new(15, 15)
                    }
                },
                Err(_) => Tilemap::new(15, 15),
            }
        },
        None => Tilemap::new(15, 15),
    };
    let one_over_ts = Fx::from_int(1).div_int(ts as i64);
    proof {
        crate::fx::lemma_div_scale_bound(65536, 65536, ts as int);
    }
    let screen_info = ScreenInfo {
        width: clamp_i32(screen_width, 1, 0x8000),
        height: clamp_i32(screen_height, 1, 0x8000),
        scale: 4,
        game_to_screen_matrix: Mat2::diagonal(Fx::from_int(ts), Fx::from_int(ts).neg()),
        screen_to_game_matrix: Mat2::diagonal(one_over_ts, one_over_ts.neg()),
        camera: V2 { x: Fx::zero(), y: Fx::zero() },
    };
    let hook_w = Fx::from_int(assets.hook_bmp.width()).div_int(ts as i64);
    let hook_h = Fx::from_int(assets.hook_bmp.height()).div_int(ts as i64);
    proof {
        lemma_scaled_span_bound(assets.hook_bmp.spec_width(), ts as int);
        lemma_scaled_span_bound(assets.hook_bmp.spec_height(), ts as int);
        crate::fx::lemma_div_scale_bound(hook_w.raw as int, 0x100_0000, 2);
        crate::fx::lemma_div_scale_bound(hook_h.raw as int, 0x100_0000, 2);
    }
    let hook = Entity::new_thing(
        V2 { x: Fx::from_raw(163840), y: Fx::from_raw(163840) },
        V2 { x: hook_w.half().neg(), y: hook_h.half().neg() },
        V2 { x: hook_w, y: hook_h },
    );
    GameData {
        screen_info,
        state: GameState::LevelEditor,
        tilemap,
        tile_info: TileInfo {
            size: ts,
            screen_width: Fx::zero(),
            screen_height: Fx::zero(),
            ground_bmp: assets.ground_bmp,
        },
        player: Entity::new_character(V2 { x: Fx::from_raw(163840), y: Fx::from_raw(163840) }, 1),
        hook,
        player_attack_counter: Fx::zero(),
        enemies: {
            let mut v: Vec<Entity> = Vec::new();
            v.push(Entity::new_character(V2 { x: Fx::from_raw(229376), y: Fx::from_raw(98304) }, 5));
            v
        },
        player_bmps: PlayerBmps {
            right: assets.player_right,
            left: assets.player_left,
            hook: assets.hook_bmp,
        },
        enemy_bmp_right: assets.enemy_right,
        enemy_bmp_left: assets.enemy_left,
        font_bmp: assets.font,
        text: String::new(),
        text_timer: Fx::zero(),
    }
}

/// An image span divided by the tile size stays within the entity size
/// bound when the span is at most 256 tiles of pixels.
proof fn lemma_scaled_span_bound(w: int, ts: int)
    requires
        1 <= w,
        1 <= ts <= 0x800,
        w <= ts * 0x100,
    ensures
        0 <= fx_int(w) / ts <= 0x100_0000,
{
    assert(fx_int(w) <= 0x100_0000 * ts) by (nonlinear_arith)
        requires
            1 <= w,
            1 <= ts <= 0x800,
            w <= ts * 0x100,
            fx_int(w) == w * 65536,
    ;
    crate::fx::lemma_div_scale_bound(fx_int(w), 0x100_0000, ts);
    vstd::arithmetic::div_mod::lemma_div_pos_is_pos(fx_int(w), ts);
}

/// The upscale factor after the F12 toggle.
pub open spec fn spec_scale_toggle(scale: int, input: Input) -> int {
    if key_pressed(input, KBKey::F12) {
        if scale == 1 {
            4int
        } else {
            1int
        }
    } else {
        scale
    }
}

/// The draw buffer's extent for a window dimension and upscale factor:
/// the window over the scale, held to the supported buffer range.
pub open spec fn spec_buffer_dim(w: int, scale: int) -> int {
    fx_clamp(w / scale, 1, 0x8000)
}

/// The viewport's extent in tile units for a buffer dimension.
pub open spec fn spec_viewport_extent(dim: int, ts: int) -> int {
    fx_clamp(fx_int(dim) / ts, 0, 0x1000_0000)
}

/// One frame: toggles the upscale factor on F12, sizes the draw buffer
/// to the window over the scale, runs the active mode's tick, and
/// upscales the draw buffer into the window.  Returns whether the
/// editor asked for the level to be saved.  The per-mode clauses repeat
/// what the mode tick pins: the whole post-tick state in play, and the
/// level edit, camera pan and untouched fields in the editor.
#[verifier::rlimit(100)]
pub fn update_and_render(data: &mut GameData, window: &mut Bitmap, input: &Input, dt: Fx) -> (save_requested: bool)
    requires
        game_wf(*old(data)),
        old(window).wf(),
        input.wf(),
        0 < dt.raw <= FX_ONE,
    ensures
        game_wf(*final(data)),
        final(window).wf(),
        final(window).same_dims(*old(window)),
        final(data).screen_info.scale == spec_scale_toggle(
            old(data).screen_info.scale as int,
            *input,
        ),
        save_requested == (old(data).state is LevelEditor && key_pressed(*input, KBKey::S)
            && key_down(*input, KBKey::Ctrl)),
        ({
            let scale1 = spec_scale_toggle(old(data).screen_info.scale as int, *input);
            let bw = spec_buffer_dim(old(window).spec_width(), scale1);
            let bh = spec_buffer_dim(old(window).spec_height(), scale1);
            let fits = bw * scale1 <= old(window).spec_width() && bh * scale1 <= old(
                window,
            ).spec_height();
            let p0 = if key_pressed(*input, KBKey::Escape) {
                spec_respawn_player()
            } else {
                old(data).player
            };
            let active = spec_attack_tick(
                old(data).player_attack_counter.raw as int,
                key_pressed(*input, KBKey::J),
                dt.raw as int,
            ) > 0;
            &&& (old(data).state is Playing ==> forall|qx: int, qy: int|
                final(window).in_bounds(qx, qy) ==> final(window).pixel_at(qx, qy) == (if fits && qx
                    < bw * scale1 && qy < bh * scale1 {
                    spec_playing_frame_pixel(
                        *final(data),
                        active,
                        crate::combat::spec_attack_box(p0),
                        qx / scale1,
                        qy / scale1,
                    )
                } else {
                    old(window).pixel_at(qx, qy)
                }))
            &&& (old(data).state is LevelEditor ==> forall|qx: int, qy: int|
                final(window).in_bounds(qx, qy) && fits && qx < bw * scale1 && qy < bh * scale1
                    && crate::render::outline_region(
                    V2 { x: 0, y: 0 },
                    V2 { x: bw as i32, y: bh as i32 },
                    2,
                    qx / scale1,
                    qy / scale1,
                ) ==> final(window).pixel_at(qx, qy) == crate::render::color_u32(
                    (Color { b: 0, g: 0xFF, r: 0xFF, a: 0xFF }),
                ))
        }),
        old(data).state is Playing ==> {
            &&& final(data).state == (if key_pressed(*input, KBKey::K) && key_down(
                *input,
                KBKey::Ctrl,
            ) {
                GameState::LevelEditor
            } else {
                GameState::Playing
            })
            &&& final(data).tilemap == old(data).tilemap
            &&& final(data).player_attack_counter.raw == spec_attack_tick(
                old(data).player_attack_counter.raw as int,
                key_pressed(*input, KBKey::J),
                dt.raw as int,
            )
            &&& ({
                let p0 = if key_pressed(*input, KBKey::Escape) {
                    spec_respawn_player()
                } else {
                    old(data).player
                };
                let p1 = Entity {
                    facing: spec_facing_after(p0.facing, spec_player_dir(*input)),
                    ..p0
                };
                final(data).player == spec_mov(
                    p1,
                    old(data).tilemap,
                    Some(spec_player_command(*input)),
                    dt,
                )
            })
            &&& final(data).enemies@.len() == old(data).enemies@.len()
            &&& ({
                let p0 = if key_pressed(*input, KBKey::Escape) {
                    spec_respawn_player()
                } else {
                    old(data).player
                };
                let active = spec_attack_tick(
                    old(data).player_attack_counter.raw as int,
                    key_pressed(*input, KBKey::J),
                    dt.raw as int,
                ) > 0;
                forall|i: int|
                    0 <= i < old(data).enemies@.len() ==> final(data).enemies@[i]
                        == spec_enemy_tick(
                        if active {
                            spec_apply_hit(crate::combat::spec_attack_box(p0), #[trigger] old(
                                data,
                            ).enemies@[i])
                        } else {
                            old(data).enemies@[i]
                        },
                        old(data).tilemap,
                        p0.pos,
                        dt,
                    )
            })
            &&& ({
                let scale1 = spec_scale_toggle(old(data).screen_info.scale as int, *input);
                let ts = old(data).tile_info.size as int;
                let cam = spec_camera_follow(
                    final(data).player.pos,
                    spec_viewport_extent(
                        spec_buffer_dim(old(window).spec_width(), scale1),
                        ts,
                    ),
                    spec_viewport_extent(
                        spec_buffer_dim(old(window).spec_height(), scale1),
                        ts,
                    ),
                    old(data).tilemap.spec_width(),
                    old(data).tilemap.spec_height(),
                );
                final(data).screen_info.camera.x.raw == cam.0
                    && final(data).screen_info.camera.y.raw == cam.1
            })
        },
        old(data).state is LevelEditor ==> {
            &&& final(data).state == (if key_pressed(*input, KBKey::K) && key_down(
                *input,
                KBKey::Ctrl,
            ) {
                GameState::Playing
            } else {
                GameState::LevelEditor
            })
            &&& final(data).player == old(data).player
            &&& final(data).hook == old(data).hook
            &&& final(data).enemies == old(data).enemies
            &&& final(data).player_attack_counter == old(data).player_attack_counter
            &&& final(data).text == old(data).text
            &&& final(data).text_timer.raw == (if old(data).text_timer.raw > 0 {
                old(data).text_timer.raw - dt.raw
            } else {
                old(data).text_timer.raw as int
            })
            &&& ({
                let cam = spec_editor_camera(old(data).screen_info.camera, *input, dt);
                final(data).screen_info.camera.x.raw == cam.0
                    && final(data).screen_info.camera.y.raw == cam.1
            })
            &&& ({
                let dims = spec_editor_dims(
                    old(data).tilemap.spec_width(),
                    old(data).tilemap.spec_height(),
                    *input,
                );
                let do_resize = (dims.0 != old(data).tilemap.spec_width() || dims.1 != old(
                    data,
                ).tilemap.spec_height()) && 1 <= dims.0 <= 0x2000 && 1 <= dims.1 <= 0x2000;
                &&& final(data).tilemap.spec_width() == (if do_resize {
                    dims.0
                } else {
                    old(data).tilemap.spec_width()
                })
                &&& final(data).tilemap.spec_height() == (if do_resize {
                    dims.1
                } else {
                    old(data).tilemap.spec_height()
                })
                &&& ({
                    let mouse = spec_editor_mouse(*input, final(data).screen_info);
                    let painting = input.mouse.buttons()[0].curr || input.mouse.buttons()[1].curr;
                    let paint_tile: Tile = if input.mouse.buttons()[0].curr {
                        Tile::Ground
                    } else {
                        Tile::Empty
                    };
                    forall|x: int, y: int|
                        final(data).tilemap.in_bounds(x, y) ==> final(data).tilemap.tile_at(x, y)
                            == (if painting && x == mouse.0 && y == mouse.1 {
                            paint_tile
                        } else if old(data).tilemap.in_bounds(x, y) {
                            old(data).tilemap.tile_at(x, y)
                        } else {
                            Tile::Empty
                        })
                })
            })
        },
{
    if kp(input, KBKey::F12) {
        data.screen_info.scale = if data.screen_info.scale == 1 {
            4
        } else {
            1
        };
    }
    let scale = data.screen_info.scale;
    let ww = window.width();
    let wh = window.height();
    let dw = clamp_i32(((ww as u64) / (scale as u64)) as i32, 1, 0x8000);
    let dh = clamp_i32(((wh as u64) / (scale as u64)) as i32, 1, 0x8000);
    proof {
        crate::fx::lemma_div_scale_bound(ww as int, 0x7FFF_FFFF, scale as int);
        crate::fx::lemma_div_scale_bound(wh as int, 0x7FFF_FFFF, scale as int);
        vstd::arithmetic::div_mod::lemma_div_pos_is_pos(ww as int, scale as int);
        vstd::arithmetic::div_mod::lemma_div_pos_is_pos(wh as int, scale as int);
        assert(dw * dh <= 0x8000 * 0x8000) by (nonlinear_arith)
            requires
                1 <= dw <= 0x8000,
                1 <= dh <= 0x8000,
        ;
    }
    let mut draw_buffer = Bitmap::with_dimensions(dw, dh);
    data.screen_info.width = dw;
    data.screen_info.height = dh;
    let ts = data.tile_info.size;
    proof {
        vstd::arithmetic::div_mod::lemma_div_pos_is_pos(fx_int(dw as int), ts as int);
        crate::fx::lemma_div_scale_bound(fx_int(dw as int), 0x8000_0000, ts as int);
        vstd::arithmetic::div_mod::lemma_div_pos_is_pos(fx_int(dh as int), ts as int);
        crate::fx::lemma_div_scale_bound(fx_int(dh as int), 0x8000_0000, ts as int);
        assert(fx_int(dw as int) <= 0x8000_0000 && fx_int(dh as int) <= 0x8000_0000)
            by (nonlinear_arith)
            requires
                1 <= dw <= 0x8000,
                1 <= dh <= 0x8000,
                fx_int(dw as int) == dw * 65536,
                fx_int(dh as int) == dh * 65536,
        ;
    }
    data.tile_info.screen_width = crate::camera::seq_clamp(
        Fx::from_int(dw).div_int(ts as i64),
        Fx::zero(),
        Fx::from_raw(0x1000_0000),
    );
    data.tile_info.screen_height = crate::camera::seq_clamp(
        Fx::from_int(dh).div_int(ts as i64),
        Fx::zero(),
        Fx::from_raw(0x1000_0000),
    );
    let save_requested = match data.state {
        GameState::Playing => {
            playing(&mut draw_buffer, input, data, dt);
            false
        },
        GameState::LevelEditor => level_editor(&mut draw_buffer, input, data, dt),
    };
    proof {
        assert(dw * scale <= 0x8000 * 0x100 && dh * scale <= 0x8000 * 0x100) by (nonlinear_arith)
            requires
                1 <= dw <= 0x8000,
                1 <= dh <= 0x8000,
                1 <= scale <= 0x100,
        ;
    }
    proof {
        assert(scale as int == spec_scale_toggle(old(data).screen_info.scale as int, *input));
        assert(dw as int == spec_buffer_dim(old(window).spec_width(), scale as int));
        assert(dh as int == spec_buffer_dim(old(window).spec_height(), scale as int));
    }
    if (dw as i64) * (scale as i64) <= (ww as i64) && (dh as i64) * (scale as i64) <= (wh as i64) {
        scale_up(&draw_buffer, window, scale);
        proof {
            assert forall|qx: int, qy: int|
                window.in_bounds(qx, qy) && qx < dw * scale && qy
                    < dh * scale implies draw_buffer.in_bounds(
                qx / (scale as int),
                qy / (scale as int),
            ) by {
                crate::render::lemma_scaled_index(qx, dw as int, scale as int);
                crate::render::lemma_scaled_index(qy, dh as int, scale as int);
            }
        }
    }
    save_requested
}

} // verus!
