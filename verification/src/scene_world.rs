use vstd::prelude::*;
use vstd::string::StringExecFns;
use crate::collide_body::{
    lemma_collide_depends_on_view, lemma_noncolliding_body_near_map, CollideBody,
};
use crate::enemy::{spec_chase_pos, spec_step, Enemy, ENEMY_ATTACK_RANGE, ENEMY_SPEED, STEP_LIMIT};
use crate::graphics::{CanDrawSprite, CanDrawText, Color};
use crate::input::CanManageInput;
use crate::musics::CanPlayMusic;
use crate::numeric::{
    int_sqrt, is_int_sqrt, isqrt_u128, lemma_component_bounded_by_sqrt, lemma_int_sqrt_unique,
    scaled_component, scaled_component_exec,
};
use crate::player::{Player, ENTITY_HITBOX, PLAYER_SPEED, PLAYER_START};
use crate::rng::random_in_range;
use crate::scene::SceneEnum;
use crate::scene_game_over::SceneGameOver;
use crate::text::decimal_string;
use crate::tile::{Tile, TileType};
use crate::tilemap::{is_biome, TileMap};
use crate::vector2d::{in_arena, in_world, spec_dist_sq, Vector2D};

verus! {

/// Chunks per axis and tiles per chunk of a generated world.
pub const NB_BIOME_W: u32 = 10;

pub const NB_BIOME_H: u32 = 10;

pub const WIDTH_PER_BIOME: u32 = 20;

pub const HEIGHT_PER_BIOME: u32 = 20;

/// Edge length of a tile in world units (32 pixels).
pub const TILE_SIZE: u32 = 32 * 1000;

/// Tile-index box in which enemies and the goal are placed.
pub const SPAWN_COORD_MIN: i32 = 10;

pub const SPAWN_COORD_MAX: i32 = 199;

/// Highest reachable level.  The population of level `n` is `10 * n`
/// enemies and must stay a sane `u32`, so the goal transition saturates
/// here (a machine limit, unreachable in play): at the cap a reached goal
/// changes nothing instead of advancing the counter.
pub const MAX_LEVEL: u32 = 100_000_000;

/// Reaching the goal body within 16 pixels advances to the next world.
pub const GOAL_PROXIMITY: u32 = 16 * 1000;

/// A probe of the player's body strictly within 32 pixels of an enemy's
/// center ends the run.
pub const ENEMY_PROXIMITY: u32 = 32 * 1000;

/// Half the window, in world units: the camera centers the player.
pub const CAMERA_HALF_W: i32 = 400 * 1000;

pub const CAMERA_HALF_H: i32 = 300 * 1000;

/// The aim cursor floats between 32 and 64 pixels from the player.
pub const CURSOR_DIST_MIN: u64 = 32 * 1000;

pub const CURSOR_DIST_MAX: u64 = 64 * 1000;

/// Mutable state of one world instance, created once per level and
/// immutable in structure thereafter; only entity positions mutate.
///
/// The canonical generation rule of this crate: the world is one flat
/// 200 by 200 map from the random-biome generator, so a single biome
/// (with the generator's forced wall cells) covers the level.  The
/// chunked `TileMapHudge` is fully supported and proven to resolve
/// exactly like its chunks, but no scene owns one.
pub struct SceneWorldData {
    pub is_init: bool,
    pub player: Player,
    pub camera: Vector2D,
    pub tilemap: TileMap,
    pub pos_curseur: Vector2D,
    pub vaisseau_a_trouver: CollideBody,
    pub compteur_de_monde_genere: u32,
    pub enemies: Vec<Enemy>,
}

impl SceneWorldData {
    /// Invariant of a live world: sound bodies, a sound map small enough
    /// that everything stays representable, and a level counter in range.
    pub open spec fn wf(self) -> bool {
        &&& self.player.wf()
        &&& self.player.collide_body.radars@.len() >= 1
        &&& self.tilemap.wf()
        &&& self.tilemap.width() * (self.tilemap.tile_size as int) <= 900_000_000
        &&& self.tilemap.height() * (self.tilemap.tile_size as int) <= 900_000_000
        &&& self.vaisseau_a_trouver.wf()
        &&& forall|i: int| 0 <= i < self.enemies@.len() ==> (#[trigger] self.enemies@[i]).wf()
        &&& 1 <= self.compteur_de_monde_genere <= MAX_LEVEL
        &&& in_arena(self.camera)
        &&& in_arena(self.pos_curseur)
    }
}

/// A tile-index coordinate pair scaled to world units.
pub open spec fn spec_corner(cx: int, cy: int, ts: int) -> Vector2D {
    Vector2D { x: (cx * ts) as i32, y: (cy * ts) as i32 }
}

/// The position sits exactly on a drawn tile corner of the spawn box:
/// some tile index inside the box, scaled by the tile size.
pub open spec fn spec_tile_aligned_in_box(
    p: Vector2D,
    min_x: int,
    min_y: int,
    max_x: int,
    max_y: int,
    ts: int,
) -> bool {
    exists|i: int, j: int|
        #![trigger i * ts, j * ts]
        min_x <= i < max_x && min_y <= j < max_y && p.x == i * ts && p.y == j * ts
}

/// What a freshly generated world for level `compteur` looks like: new
/// player at the start, a new map, `10 * compteur` enemies in the spawn
/// box, and the goal at one of three far corners.
pub open spec fn spec_fresh_world(d: SceneWorldData, compteur: int) -> bool {
    &&& d.wf()
    &&& !d.is_init
    &&& d.compteur_de_monde_genere == compteur
    &&& d.player.pos.x == PLAYER_START && d.player.pos.y == PLAYER_START
    &&& d.player.vitesse == PLAYER_SPEED
    &&& d.player.collide_body.has_basic_probes(ENTITY_HITBOX as int)
    &&& d.camera == d.player.pos
    &&& d.pos_curseur.x == d.player.pos.x + 32_000 && d.pos_curseur.y == d.player.pos.y
    &&& d.tilemap.width() == NB_BIOME_W * WIDTH_PER_BIOME
    &&& d.tilemap.height() == NB_BIOME_H * HEIGHT_PER_BIOME
    &&& d.tilemap.tile_size == TILE_SIZE
    &&& (exists|b: TileType| is_biome(b) && d.tilemap.generated_with(b))
    &&& d.enemies@.len() == 10 * compteur
    &&& forall|i: int|
        0 <= i < d.enemies@.len() ==> {
            let e = #[trigger] d.enemies@[i];
            &&& e.wf()
            &&& e.collide_body.has_basic_probes(ENTITY_HITBOX as int)
            &&& e.vitesse == ENEMY_SPEED
            &&& e.distance_attaque == ENEMY_ATTACK_RANGE
            &&& SPAWN_COORD_MIN * TILE_SIZE <= e.collide_body.position.x < SPAWN_COORD_MAX
                * TILE_SIZE
            &&& SPAWN_COORD_MIN * TILE_SIZE <= e.collide_body.position.y < SPAWN_COORD_MAX
                * TILE_SIZE
            &&& spec_tile_aligned_in_box(
                e.collide_body.position,
                SPAWN_COORD_MIN as int,
                SPAWN_COORD_MIN as int,
                SPAWN_COORD_MAX as int,
                SPAWN_COORD_MAX as int,
                TILE_SIZE as int,
            )
        }
    &&& d.vaisseau_a_trouver.has_basic_probes(ENTITY_HITBOX as int)
    &&& (d.vaisseau_a_trouver.position == spec_corner(
        SPAWN_COORD_MAX as int,
        SPAWN_COORD_MAX as int,
        TILE_SIZE as int,
    ) || d.vaisseau_a_trouver.position == spec_corner(
        SPAWN_COORD_MIN as int,
        SPAWN_COORD_MAX as int,
        TILE_SIZE as int,
    ) || d.vaisseau_a_trouver.position == spec_corner(
        SPAWN_COORD_MAX as int,
        SPAWN_COORD_MIN as int,
        TILE_SIZE as int,
    ))
}

/// The goal transition predicate: the player's center is within the goal
/// body's probe proximity.
pub open spec fn spec_goal_reached(d: SceneWorldData) -> bool {
    d.vaisseau_a_trouver.spec_is_collide_with_object(d.player.pos, GOAL_PROXIMITY as int)
}

/// The losing transition predicate: the player's body proximity-collides
/// some enemy's body within the catch distance -- a per-probe test, like
/// the goal test, not a center-to-center one.
pub open spec fn spec_enemy_caught(d: SceneWorldData) -> bool {
    exists|i: int|
        0 <= i < d.enemies@.len() && d.player.collide_body.spec_is_collide_with_object(
            (#[trigger] d.enemies@[i]).collide_body.position,
            ENEMY_PROXIMITY as int,
        )
}

/// One speculative axis move: shift the player's body by (dx, dy), test it
/// against the walls, and commit the shift only if no probe hits.
pub open spec fn spec_move_player_axis(d: SceneWorldData, dx: int, dy: int) -> SceneWorldData {
    let test = Vector2D {
        x: (d.player.pos.x + dx) as i32,
        y: (d.player.pos.y + dy) as i32,
    };
    let test_body = CollideBody { position: test, radars: d.player.collide_body.radars };
    if !test_body.spec_is_collide_map(d.tilemap, seq![TileType::Wall]) {
        SceneWorldData {
            is_init: d.is_init,
            player: Player {
                pos: test,
                collide_body: test_body,
                vitesse: d.player.vitesse,
            },
            camera: d.camera,
            tilemap: d.tilemap,
            pos_curseur: d.pos_curseur,
            vaisseau_a_trouver: d.vaisseau_a_trouver,
            compteur_de_monde_genere: d.compteur_de_monde_genere,
            enemies: d.enemies,
        }
    } else {
        d
    }
}

/// The per-tick step length the player may move, zero when a degenerate
/// tick would ask for an absurd displacement.
pub open spec fn spec_effective_step(vitesse: int, dt: int) -> int {
    let s = (vitesse * dt) / 1000;
    if s <= 1_000_000_000 {
        s
    } else {
        0
    }
}

/// The axis-separated movement policy: for each held direction in the
/// fixed order up, right, down, left, one independent speculative move.
pub open spec fn spec_after_player_moves(
    d: SceneWorldData,
    step: int,
    key_up: bool,
    key_right: bool,
    key_down: bool,
    key_left: bool,
) -> SceneWorldData {
    let d1 = if key_up {
        spec_move_player_axis(d, 0, -step)
    } else {
        d
    };
    let d2 = if key_right {
        spec_move_player_axis(d1, step, 0)
    } else {
        d1
    };
    let d3 = if key_down {
        spec_move_player_axis(d2, 0, step)
    } else {
        d2
    };
    if key_left {
        spec_move_player_axis(d3, -step, 0)
    } else {
        d3
    }
}

/// Player movement only ever touches the player: every other field of
/// the world survives the four-fold axis policy unchanged.
pub proof fn lemma_player_moves_preserve_frame(
    d: SceneWorldData,
    step: int,
    key_up: bool,
    key_right: bool,
    key_down: bool,
    key_left: bool,
)
    ensures
        ({
            let r = spec_after_player_moves(d, step, key_up, key_right, key_down, key_left);
            &&& r.is_init == d.is_init
            &&& r.camera == d.camera
            &&& r.tilemap == d.tilemap
            &&& r.pos_curseur == d.pos_curseur
            &&& r.vaisseau_a_trouver == d.vaisseau_a_trouver
            &&& r.compteur_de_monde_genere == d.compteur_de_monde_genere
            &&& r.enemies == d.enemies
        }),
{
}

/// What one enemy looks like after `Enemy::update` against the given
/// player and tick.
pub open spec fn spec_enemy_updated(before: Enemy, after: Enemy, joueur: Player, dt: int) -> bool {
    &&& after.distance_attaque == before.distance_attaque
    &&& after.vitesse == before.vitesse
    &&& after.collide_body.radars@ == before.collide_body.radars@
    &&& ({
        let from = before.collide_body.position;
        let d2 = spec_dist_sq(from, joueur.pos);
        let step = spec_step(before.vitesse as int, dt);
        if (before.distance_attaque * before.distance_attaque > d2) && in_world(from) && step
            <= STEP_LIMIT as int {
            after.collide_body.position == spec_chase_pos(from, joueur.pos, step)
        } else {
            after.collide_body.position == from
        }
    })
}

/// The aim cursor position computed from a mouse reading: the unit vector
/// from the player toward the world-space mouse, scaled to a distance
/// clamped between the cursor bounds; a degenerate direction leaves the
/// cursor where it was.
pub open spec fn spec_cursor_target(d: SceneWorldData, mouse: Vector2D) -> Vector2D {
    let pmx = mouse.x + d.camera.x;
    let pmy = mouse.y + d.camera.y;
    let dx = pmx - d.player.pos.x;
    let dy = pmy - d.player.pos.y;
    let d2 = dx * dx + dy * dy;
    if d2 == 0 {
        d.pos_curseur
    } else {
        let m = int_sqrt(d2);
        let dist: int = if m < CURSOR_DIST_MIN as int {
            CURSOR_DIST_MIN as int
        } else if m > CURSOR_DIST_MAX as int {
            CURSOR_DIST_MAX as int
        } else {
            m
        };
        Vector2D {
            x: (d.player.pos.x + scaled_component(dx, dist, m)) as i32,
            y: (d.player.pos.y + scaled_component(dy, dist, m)) as i32,
        }
    }
}

impl SceneWorldData {
    /// A fresh world for level `compteur_de_monde_genere`, drawing the
    /// biome, the enemy placement and the goal corner from the ambient
    /// random source.
    pub fn new(compteur_de_monde_genere: u32) -> (r: SceneWorldData)
        requires
            1 <= compteur_de_monde_genere <= MAX_LEVEL,
        ensures
            spec_fresh_world(r, compteur_de_monde_genere as int),
    {
        let player = Player::new();
        let pos_player = player.pos;
        let coord_min = Vector2D { x: SPAWN_COORD_MIN, y: SPAWN_COORD_MIN };
        let coord_max = Vector2D { x: SPAWN_COORD_MAX, y: SPAWN_COORD_MAX };
        let enemies = Self::generate_random_enemies(
            coord_min,
            coord_max,
            TILE_SIZE,
            10 * compteur_de_monde_genere,
        );
        let tilemap = TileMap::new(
            NB_BIOME_W * WIDTH_PER_BIOME,
            NB_BIOME_H * HEIGHT_PER_BIOME,
            TILE_SIZE,
            None,
        );
        let vaisseau_a_trouver = CollideBody::basic(
            Self::random_vaisseau(&coord_min, &coord_max, TILE_SIZE),
            ENTITY_HITBOX,
        );
        SceneWorldData {
            is_init: false,
            player,
            camera: pos_player,
            tilemap,
            pos_curseur: Vector2D { x: pos_player.x + 32_000, y: pos_player.y },
            vaisseau_a_trouver,
            compteur_de_monde_genere,
            enemies,
        }
    }

    /// `number` enemies, each placed uniformly in the spawn box.
    fn generate_random_enemies(
        coord_min: Vector2D,
        coord_max: Vector2D,
        tile_size: u32,
        number: u32,
    ) -> (r: Vec<Enemy>)
        requires
            0 <= coord_min.x < coord_max.x,
            0 <= coord_min.y < coord_max.y,
            1 <= tile_size,
            coord_max.x * tile_size <= 1_000_000_000,
            coord_max.y * tile_size <= 1_000_000_000,
        ensures
            r@.len() == number,
            forall|i: int|
                0 <= i < r@.len() ==> {
                    let e = #[trigger] r@[i];
                    &&& e.wf()
                    &&& e.collide_body.has_basic_probes(ENTITY_HITBOX as int)
                    &&& e.vitesse == ENEMY_SPEED
                    &&& e.distance_attaque == ENEMY_ATTACK_RANGE
                    &&& coord_min.x * tile_size <= e.collide_body.position.x < coord_max.x
                        * tile_size
                    &&& coord_min.y * tile_size <= e.collide_body.position.y < coord_max.y
                        * tile_size
                    &&& spec_tile_aligned_in_box(
                        e.collide_body.position,
                        coord_min.x as int,
                        coord_min.y as int,
                        coord_max.x as int,
                        coord_max.y as int,
                        tile_size as int,
                    )
                },
    {
        let mut out: Vec<Enemy> = Vec::new();
        let mut k: u32 = 0;
        while k < number
            invariant
                k <= number,
                out@.len() == k as int,
                0 <= coord_min.x < coord_max.x,
                0 <= coord_min.y < coord_max.y,
                1 <= tile_size,
                coord_max.x * tile_size <= 1_000_000_000,
                coord_max.y * tile_size <= 1_000_000_000,
                forall|i: int|
                    0 <= i < out@.len() ==> {
                        let e = #[trigger] out@[i];
                        &&& e.wf()
                        &&& e.collide_body.has_basic_probes(ENTITY_HITBOX as int)
                        &&& e.vitesse == ENEMY_SPEED
                        &&& e.distance_attaque == ENEMY_ATTACK_RANGE
                        &&& coord_min.x * tile_size <= e.collide_body.position.x < coord_max.x
                            * tile_size
                        &&& coord_min.y * tile_size <= e.collide_body.position.y < coord_max.y
                            * tile_size
                        &&& spec_tile_aligned_in_box(
                            e.collide_body.position,
                            coord_min.x as int,
                            coord_min.y as int,
                            coord_max.x as int,
                            coord_max.y as int,
                            tile_size as int,
                        )
                    },
            decreases number - k,
        {
            out.push(Self::generate_random_enemy(&coord_min, &coord_max, tile_size));
            k = k + 1;
        }
        out
    }

    /// One enemy at a uniformly drawn tile coordinate of the spawn box.
    fn generate_random_enemy(coord_min: &Vector2D, coord_max: &Vector2D, tile_size: u32) -> (r:
        Enemy)
        requires
            0 <= coord_min.x < coord_max.x,
            0 <= coord_min.y < coord_max.y,
            1 <= tile_size,
            coord_max.x * tile_size <= 1_000_000_000,
            coord_max.y * tile_size <= 1_000_000_000,
        ensures
            r.wf(),
            r.collide_body.has_basic_probes(ENTITY_HITBOX as int),
            r.vitesse == ENEMY_SPEED,
            r.distance_attaque == ENEMY_ATTACK_RANGE,
            coord_min.x * tile_size <= r.collide_body.position.x < coord_max.x * tile_size,
            coord_min.y * tile_size <= r.collide_body.position.y < coord_max.y * tile_size,
            spec_tile_aligned_in_box(
                r.collide_body.position,
                coord_min.x as int,
                coord_min.y as int,
                coord_max.x as int,
                coord_max.y as int,
                tile_size as int,
            ),
    {
        let cx = random_in_range(coord_min.x, coord_max.x);
        let cy = random_in_range(coord_min.y, coord_max.y);
        proof {
            assert(coord_min.x * tile_size <= cx * tile_size && cx * tile_size < coord_max.x
                * tile_size && coord_min.y * tile_size <= cy * tile_size && cy * tile_size
                < coord_max.y * tile_size && cx * tile_size >= 0 && cy * tile_size >= 0 && cx
                * tile_size < 1_000_000_000 && cy * tile_size < 1_000_000_000 && tile_size
                <= 1_000_000_000) by (nonlinear_arith)
                requires
                    0 <= coord_min.x <= cx < coord_max.x,
                    0 <= coord_min.y <= cy < coord_max.y,
                    1 <= tile_size,
                    coord_max.x * tile_size <= 1_000_000_000,
                    coord_max.y * tile_size <= 1_000_000_000,
            ;
        }
        let pos = Vector2D { x: cx * (tile_size as i32), y: cy * (tile_size as i32) };
        proof {
            assert(pos.x == cx * (tile_size as int) && pos.y == cy * (tile_size as int));
        }
        Enemy::new(pos)
    }

    /// The goal placed at one of three far corners of the spawn box,
    /// drawn at random.
    fn random_vaisseau(coord_min: &Vector2D, coord_max: &Vector2D, tile_size: u32) -> (r:
        Vector2D)
        requires
            0 <= coord_min.x < coord_max.x,
            0 <= coord_min.y < coord_max.y,
            1 <= tile_size,
            coord_max.x * tile_size <= 1_000_000_000,
            coord_max.y * tile_size <= 1_000_000_000,
        ensures
            in_world(r),
            r == spec_corner(coord_max.x as int, coord_max.y as int, tile_size as int) || r
                == spec_corner(coord_min.x as int, coord_max.y as int, tile_size as int) || r
                == spec_corner(coord_max.x as int, coord_min.y as int, tile_size as int),
    {
        proof {
            assert(0 <= coord_min.x * tile_size <= coord_max.x * tile_size && 0 <= coord_min.y
                * tile_size <= coord_max.y * tile_size && tile_size <= 1_000_000_000)
                by (nonlinear_arith)
                requires
                    0 <= coord_min.x < coord_max.x,
                    0 <= coord_min.y < coord_max.y,
                    1 <= tile_size,
                    coord_max.x * tile_size <= 1_000_000_000,
                    coord_max.y * tile_size <= 1_000_000_000,
            ;
        }
        let draw = random_in_range(0, 3);
        let coord = if draw == 0 {
            Vector2D { x: coord_max.x, y: coord_max.y }
        } else if draw == 1 {
            Vector2D { x: coord_min.x, y: coord_max.y }
        } else {
            Vector2D { x: coord_max.x, y: coord_min.y }
        };
        Vector2D { x: coord.x * (tile_size as i32), y: coord.y * (tile_size as i32) }
    }
}

/// The world scene: per-tick update of the player, the enemies, the aim
/// cursor and the camera, then rendering, then the transition predicates.
pub struct SceneWorld {
    pub data: SceneWorldData,
}

impl SceneWorld {
    pub fn new(compteur_de_monde_genere: u32) -> (r: SceneWorld)
        requires
            1 <= compteur_de_monde_genere <= MAX_LEVEL,
        ensures
            spec_fresh_world(r.data, compteur_de_monde_genere as int),
    {
        SceneWorld { data: SceneWorldData::new(compteur_de_monde_genere) }
    }

    /// Lazy one-shot initialization: starts the world music exactly once.
    fn init_scene<M: CanPlayMusic>(&mut self, music: &M) -> (r: Result<(), String>)
        ensures
            final(self).data == (SceneWorldData { is_init: true, ..old(self).data }),
            old(self).data.is_init ==> r is Ok,
    {
        if !self.data.is_init {
            self.data.is_init = true;
            music.play("hold-the-line", 20)
        } else {
            Ok(())
        }
    }

    /// One speculative axis move, committed only when no probe of the
    /// shifted body hits a wall.
    fn move_player_axis(&mut self, dx: i32, dy: i32)
        requires
            old(self).data.wf(),
            -1_000_000_000 <= dx <= 1_000_000_000,
            -1_000_000_000 <= dy <= 1_000_000_000,
        ensures
            final(self).data == spec_move_player_axis(old(self).data, dx as int, dy as int),
            final(self).data.wf(),
    {
        let test = Vector2D {
            x: self.data.player.pos.x + dx,
            y: self.data.player.pos.y + dy,
        };
        let mut col_body = self.data.player.collide_body.duplicate();
        col_body.position = test;
        let mut discriminants: Vec<TileType> = Vec::new();
        discriminants.push(TileType::Wall);
        proof {
            assert(discriminants@ =~= seq![TileType::Wall]);
        }
        let ghost test_body = CollideBody {
            position: test,
            radars: old(self).data.player.collide_body.radars,
        };
        let hit = col_body.is_collide(&self.data.tilemap, discriminants);
        proof {
            lemma_collide_depends_on_view(
                col_body,
                test_body,
                old(self).data.tilemap,
                seq![TileType::Wall],
            );
        }
        if !hit {
            proof {
                lemma_noncolliding_body_near_map(
                    col_body,
                    old(self).data.tilemap,
                    seq![TileType::Wall],
                );
            }
            self.data.player.pos = test;
            self.data.player.collide_body.position = test;
        }
    }

    /// Axis-separated, speculative-then-commit player movement from the
    /// held directional inputs.
    fn update_player<I: CanManageInput>(&mut self, dt: u32, input_service: &I) -> (r: Result<
        (),
        String,
    >)
        requires
            old(self).data.wf(),
        ensures
            final(self).data.wf(),
            exists|key_up: bool, key_right: bool, key_down: bool, key_left: bool|
                final(self).data == spec_after_player_moves(
                    old(self).data,
                    spec_effective_step(old(self).data.player.vitesse as int, dt as int),
                    key_up,
                    key_right,
                    key_down,
                    key_left,
                ),
    {
        let vitesse = self.data.player.vitesse;
        proof {
            vstd::arithmetic::mul::lemma_mul_upper_bound(
                vitesse as int,
                0xffff_ffff,
                dt as int,
                0xffff_ffff,
            );
            vstd::arithmetic::mul::lemma_mul_nonnegative(vitesse as int, dt as int);
            vstd::arithmetic::div_mod::lemma_div_pos_is_pos(vitesse as int * dt as int, 1000);
        }
        let step64: u64 = ((vitesse as u64) * (dt as u64)) / 1000;
        let step: i32 = if step64 > 1_000_000_000 {
            0
        } else {
            step64 as i32
        };
        let ghost sstep = spec_effective_step(old(self).data.player.vitesse as int, dt as int);
        proof {
            assert(step as int == sstep);
        }
        let key_up = input_service.is_key_pressed("Z");
        let key_right = input_service.is_key_pressed("D");
        let key_down = input_service.is_key_pressed("S");
        let key_left = input_service.is_key_pressed("Q");
        let ghost g0 = self.data;
        if key_up {
            self.move_player_axis(0, -step);
        }
        if key_right {
            self.move_player_axis(step, 0);
        }
        if key_down {
            self.move_player_axis(0, step);
        }
        if key_left {
            self.move_player_axis(-step, 0);
        }
        proof {
            assert(self.data == spec_after_player_moves(
                g0,
                sstep,
                key_up,
                key_right,
                key_down,
                key_left,
            ));
        }
        Ok(())
    }

    /// Every enemy takes its reactive step against the player's current
    /// position.
    fn update_enemies(&mut self, dt: u32)
        requires
            old(self).data.wf(),
        ensures
            final(self).data.wf(),
            final(self).data == (SceneWorldData {
                enemies: final(self).data.enemies,
                ..old(self).data
            }),
            final(self).data.enemies@.len() == old(self).data.enemies@.len(),
            forall|i: int|
                0 <= i < old(self).data.enemies@.len() ==> spec_enemy_updated(
                    old(self).data.enemies@[i],
                    #[trigger] final(self).data.enemies@[i],
                    old(self).data.player,
                    dt as int,
                ),
    {
        let n = self.data.enemies.len();
        let mut i: usize = 0;
        while i < n
            invariant
                0 <= i <= n,
                n == self.data.enemies@.len(),
                self.data.wf(),
                self.data == (SceneWorldData { enemies: self.data.enemies, ..old(self).data }),
                forall|j: int|
                    0 <= j < i as int ==> spec_enemy_updated(
                        old(self).data.enemies@[j],
                        #[trigger] self.data.enemies@[j],
                        old(self).data.player,
                        dt as int,
                    ),
                forall|j: int|
                    i as int <= j < n as int ==> self.data.enemies@[j] == old(
                        self,
                    ).data.enemies@[j],
            decreases n - i,
        {
            self.data.enemies[i].update(dt, &self.data.tilemap, &self.data.player);
            i = i + 1;
        }
    }

    /// Recompute the aim cursor from the mouse, the camera and the player.
    fn update_curseur<I: CanManageInput>(&mut self, input_service: &I)
        requires
            old(self).data.wf(),
        ensures
            final(self).data.wf(),
            final(self).data == (SceneWorldData {
                pos_curseur: final(self).data.pos_curseur,
                ..old(self).data
            }),
            exists|mouse: Vector2D|
                final(self).data.pos_curseur == spec_cursor_target(old(self).data, mouse),
    {
        let mouse = input_service.get_mouse_position();
        let pmx: i64 = (mouse.x as i64) + (self.data.camera.x as i64);
        let pmy: i64 = (mouse.y as i64) + (self.data.camera.y as i64);
        let dx: i64 = pmx - (self.data.player.pos.x as i64);
        let dy: i64 = pmy - (self.data.player.pos.y as i64);
        if dx == 0 && dy == 0 {
            proof {
                assert(self.data.pos_curseur == spec_cursor_target(old(self).data, mouse));
            }
        } else {
            proof {
                assert((dx as i128) * (dx as i128) >= 0 && (dy as i128) * (dy as i128) >= 0 && (dx
                    as i128) * (dx as i128) + (dy as i128) * (dy as i128)
                    < 100_000_000_000_000_000_000 && (dx as i128) * (dx as i128) + (dy as i128)
                    * (dy as i128) >= 1 && (dx as i128) * (dx as i128) == dx * dx && (dy as i128)
                    * (dy as i128) == dy * dy) by (nonlinear_arith)
                    requires
                        -7_000_000_000 <= dx <= 7_000_000_000,
                        -7_000_000_000 <= dy <= 7_000_000_000,
                        !(dx == 0 && dy == 0),
                ;
            }
            let sqx: u128 = ((dx as i128) * (dx as i128)) as u128;
            let sqy: u128 = ((dy as i128) * (dy as i128)) as u128;
            let d2: u128 = sqx + sqy;
            let m128: u128 = isqrt_u128(d2);
            proof {
                assert(1 <= (m128 as int) && (m128 as int) < 20_000_000_000)
                    by (nonlinear_arith)
                    requires
                        is_int_sqrt(d2 as int, m128 as int),
                        1 <= (d2 as int) < 100_000_000_000_000_000_000,
                ;
                lemma_int_sqrt_unique(d2 as int, m128 as int);
                lemma_component_bounded_by_sqrt(dx as int, dy as int, m128 as int);
            }
            let m: u64 = m128 as u64;
            let dist: u64 = if m < CURSOR_DIST_MIN {
                CURSOR_DIST_MIN
            } else if m > CURSOR_DIST_MAX {
                CURSOR_DIST_MAX
            } else {
                m
            };
            let sx: i64 = scaled_component_exec(dx, dist as i64, m);
            let sy: i64 = scaled_component_exec(dy, dist as i64, m);
            self.data.pos_curseur = Vector2D {
                x: self.data.player.pos.x + (sx as i32),
                y: self.data.player.pos.y + (sy as i32),
            };
            proof {
                assert(self.data.pos_curseur == spec_cursor_target(old(self).data, mouse));
            }
        }
    }

    /// The camera centers the player in an 800 by 600 pixel window.
    fn update_camera(&mut self)
        requires
            old(self).data.wf(),
        ensures
            final(self).data.wf(),
            final(self).data == (SceneWorldData {
                camera: final(self).data.camera,
                ..old(self).data
            }),
            final(self).data.camera.x == old(self).data.player.pos.x - CAMERA_HALF_W,
            final(self).data.camera.y == old(self).data.player.pos.y - CAMERA_HALF_H,
    {
        self.data.camera = Vector2D {
            x: self.data.player.pos.x - CAMERA_HALF_W,
            y: self.data.player.pos.y - CAMERA_HALF_H,
        };
    }

    /// Whether any enemy has caught the player: the player's probes are
    /// tested against each enemy's center.
    fn player_collide_with_enemy(&self) -> (r: bool)
        requires
            self.data.wf(),
        ensures
            r == spec_enemy_caught(self.data),
    {
        let n = self.data.enemies.len();
        let mut i: usize = 0;
        while i < n
            invariant
                0 <= i <= n,
                n == self.data.enemies@.len(),
                self.data.wf(),
                forall|j: int|
                    0 <= j < i as int ==> !self.data.player.collide_body.spec_is_collide_with_object(
                        (#[trigger] self.data.enemies@[j]).collide_body.position,
                        ENEMY_PROXIMITY as int,
                    ),
            decreases n - i,
        {
            let epos = self.data.enemies[i].collide_body.position;
            if self.data.player.collide_body.is_collide_with_object(&epos, ENEMY_PROXIMITY) {
                return true;
            }
            i = i + 1;
        }
        false
    }

    fn test_play_sound<I: CanManageInput, M: CanPlayMusic>(&self, input_service: &I, music: &M) {
        if input_service.is_key_pressed("X") {
            let _ = music.play_sound("arme", 1);
        }
    }

    fn get_keys_pressed<I: CanManageInput>(&self, input_service: &I) -> (r: String) {
        let keys = input_service.key_pressed();
        let mut out = String::new();
        let mut i: usize = 0;
        while i < keys.len()
            invariant
                0 <= i <= keys@.len(),
            decreases keys@.len() - i,
        {
            if i > 0 {
                out.append("-");
            }
            out.append(keys[i].as_str());
            i = i + 1;
        }
        out
    }

    fn get_mouse_keys_pressed<I: CanManageInput>(&self, input_service: &I) -> (r: String) {
        let keys = input_service.mouse_key_pressed();
        let mut out = String::new();
        let mut i: usize = 0;
        while i < keys.len()
            invariant
                0 <= i <= keys@.len(),
            decreases keys@.len() - i,
        {
            if i > 0 {
                out.append("-");
            }
            out.append(keys[i].as_str());
            i = i + 1;
        }
        out
    }

    /// One frame of the world scene, in the fixed order: init, move the
    /// player, move the enemies, aim cursor, camera, sound, render, then
    /// the transition predicates (goal before enemies).  Rendering only
    /// reads the state.
    pub fn on_scene<S: CanDrawSprite, T: CanDrawText, I: CanManageInput, M: CanPlayMusic>(
        &mut self,
        dt: u32,
        sprite_service: &mut S,
        text_service: &mut T,
        input_service: &I,
        music_service: &M,
    ) -> (r: Option<SceneEnum>)
        requires
            old(self).data.wf(),
        ensures
            final(self).data.wf(),
            final(self).data.is_init,
            final(self).data.compteur_de_monde_genere == old(self).data.compteur_de_monde_genere,
            final(self).data.tilemap == old(self).data.tilemap,
            final(self).data.vaisseau_a_trouver == old(self).data.vaisseau_a_trouver,
            final(self).data.enemies@.len() == old(self).data.enemies@.len(),
            ({
                let fd = final(self).data;
                &&& (spec_goal_reached(fd) && fd.compteur_de_monde_genere < MAX_LEVEL) ==> (r
                    matches Some(SceneEnum::SceneWorld(w)) && spec_fresh_world(
                    w.data,
                    fd.compteur_de_monde_genere + 1,
                ))
                &&& (spec_goal_reached(fd) && fd.compteur_de_monde_genere >= MAX_LEVEL) ==> r
                    is None
                &&& (!spec_goal_reached(fd) && spec_enemy_caught(fd)) ==> (r matches Some(
                    SceneEnum::SceneGameOver(g),
                ) && !g.data.is_init && g.data.nb_monde_decouvert == fd.compteur_de_monde_genere)
                &&& (!spec_goal_reached(fd) && !spec_enemy_caught(fd)) ==> r is None
            }),
    {
        let _ = self.init_scene(music_service);
        let ghost after_init = self.data;
        let _ = self.update_player(dt, input_service);
        proof {
            let step = spec_effective_step(after_init.player.vitesse as int, dt as int);
            let (key_up, key_right, key_down, key_left) = choose|
                key_up: bool,
                key_right: bool,
                key_down: bool,
                key_left: bool,
            |
                self.data == spec_after_player_moves(
                    after_init,
                    step,
                    key_up,
                    key_right,
                    key_down,
                    key_left,
                );
            lemma_player_moves_preserve_frame(
                after_init,
                step,
                key_up,
                key_right,
                key_down,
                key_left,
            );
        }
        self.update_enemies(dt);
        self.update_curseur(input_service);
        self.update_camera();
        self.test_play_sound(input_service, music_service);
        self.draw_near_tilemaps(sprite_service);
        self.draw_vaisseau_a_trouver(sprite_service);
        self.draw_player(sprite_service);
        self.draw_enemies(sprite_service);
        self.draw_cursor(sprite_service);
        let _keys_pressed = self.get_keys_pressed(input_service);
        let _mouse_key_pressed = self.get_mouse_keys_pressed(input_service);
        let _pos = input_service.get_mouse_position();
        let _ = sprite_service.draw_sprite(
            "panel",
            Vector2D { x: 0, y: 0 },
            Some(Vector2D { x: 100, y: 100 }),
            Some(Vector2D { x: 400, y: 100 }),
        );
        self.draw_debug_texts(text_service);
        if self.data.vaisseau_a_trouver.is_collide_with_object(
            &self.data.player.pos,
            GOAL_PROXIMITY,
        ) {
            if self.data.compteur_de_monde_genere < MAX_LEVEL {
                Some(
                    SceneEnum::SceneWorld(SceneWorld::new(self.data.compteur_de_monde_genere + 1)),
                )
            } else {
                None
            }
        } else if self.player_collide_with_enemy() {
            Some(SceneEnum::SceneGameOver(SceneGameOver::new(self.data.compteur_de_monde_genere)))
        } else {
            None
        }
    }

    fn draw_debug_texts<T: CanDrawText>(&self, text_service: &mut T) {
        let mut first = String::new();
        first.append("count enemies = ");
        let count: u32 = if self.data.enemies.len() > 0xffff_ffff {
            0xffff_ffff
        } else {
            self.data.enemies.len() as u32
        };
        first.append(decimal_string(count).as_str());
        let _ = text_service.create_text(first.as_str(), 32, 32, 14, Color::rgb(255, 0, 255));
        let mut second = String::new();
        second.append("lvl ");
        second.append(decimal_string(self.data.compteur_de_monde_genere).as_str());
        let _ = text_service.create_text(second.as_str(), 32, 46, 14, Color::rgb(255, 0, 255));
    }

    /// World-to-screen conversion for rendering: the camera-relative
    /// offset in pixels, clamped far outside the window when remote.
    fn to_screen(world: i64, camera: i32) -> (r: i32)
        requires
            -0x4000_0000_0000_0000 <= world <= 0x4000_0000_0000_0000,
        ensures
            -2_000_000 <= r <= 2_000_000,
    {
        let diff: i64 = world - (camera as i64);
        let clamped: i64 = if diff < -1_000_000_000 {
            -1_000_000_000
        } else if diff > 1_000_000_000 {
            1_000_000_000
        } else {
            diff
        };
        let px: i64 = if clamped >= 0 {
            ((clamped as u64) / 1000) as i64
        } else {
            -((((-clamped) as u64) / 1000) as i64)
        };
        px as i32
    }

    fn is_in_screen(point_x: i32, point_y: i32) -> (r: bool)
        ensures
            r == (-100 < point_x < 800 && -100 < point_y < 600),
    {
        point_x > 0 - 100 && point_x < 800 && point_y > 0 - 100 && point_y < 600
    }

    fn draw_player<S: CanDrawSprite>(&self, sprite_service: &mut S) {
        let _ = sprite_service.draw_sprite(
            "poulet",
            Vector2D {
                x: Self::to_screen(self.data.player.pos.x as i64, self.data.camera.x) - 16,
                y: Self::to_screen(self.data.player.pos.y as i64, self.data.camera.y) - 16,
            },
            Some(Vector2D { x: 128, y: 128 }),
            Some(Vector2D { x: 32, y: 32 }),
        );
    }

    fn draw_enemies<S: CanDrawSprite>(&self, sprite_service: &mut S) {
        let n = self.data.enemies.len();
        let mut i: usize = 0;
        while i < n
            invariant
                0 <= i <= n,
                n == self.data.enemies@.len(),
            decreases n - i,
        {
            let epos = self.data.enemies[i].collide_body.position;
            self.draw_enemy(epos, sprite_service);
            i = i + 1;
        }
    }

    fn draw_enemy<S: CanDrawSprite>(&self, position: Vector2D, sprite_service: &mut S) {
        let _ = sprite_service.draw_sprite(
            "croco",
            Vector2D {
                x: Self::to_screen(position.x as i64, self.data.camera.x) - 16,
                y: Self::to_screen(position.y as i64, self.data.camera.y) - 16,
            },
            Some(Vector2D { x: 128, y: 128 }),
            Some(Vector2D { x: 32, y: 32 }),
        );
    }

    fn draw_vaisseau_a_trouver<S: CanDrawSprite>(&self, sprite_service: &mut S) {
        let _ = sprite_service.draw_sprite(
            "porte",
            Vector2D {
                x: Self::to_screen(
                    self.data.vaisseau_a_trouver.position.x as i64,
                    self.data.camera.x,
                ) - 16,
                y: Self::to_screen(
                    self.data.vaisseau_a_trouver.position.y as i64,
                    self.data.camera.y,
                ) - 16,
            },
            Some(Vector2D { x: 64, y: 64 }),
            Some(Vector2D { x: 32, y: 32 }),
        );
    }

    fn draw_cursor<S: CanDrawSprite>(&self, sprite_service: &mut S) {
        let _ = sprite_service.draw_sprite(
            "viseur",
            Vector2D {
                x: Self::to_screen(self.data.pos_curseur.x as i64, self.data.camera.x) - 16,
                y: Self::to_screen(self.data.pos_curseur.y as i64, self.data.camera.y) - 16,
            },
            Some(Vector2D { x: 512, y: 512 }),
            None,
        );
    }

    /// Draws the world's tiles that fall inside the screen.  The world is
    /// a single chunk, so there is no neighborhood of chunks to select.
    fn draw_near_tilemaps<S: CanDrawSprite>(&self, sprite_service: &mut S)
        requires
            self.data.wf(),
    {
        self.draw_one_tilemap(sprite_service);
    }

    fn draw_one_tilemap<S: CanDrawSprite>(&self, sprite_service: &mut S)
        requires
            self.data.wf(),
    {
        let h = self.data.tilemap.tiles.len();
        let mut y: usize = 0;
        while y < h
            invariant
                0 <= y <= h,
                self.data.wf(),
                h == self.data.tilemap.tiles@.len(),
            decreases h - y,
        {
            let w = self.data.tilemap.tiles[y].len();
            let mut x: usize = 0;
            while x < w
                invariant
                    0 <= x <= w,
                    0 <= y < h,
                    self.data.wf(),
                    h == self.data.tilemap.tiles@.len(),
                    w == self.data.tilemap.tiles@[y as int]@.len(),
                decreases w - x,
            {
                let current: Tile = self.data.tilemap.tiles[y][x];
                proof {
                    assert(0 <= current.pos.x <= 0x4000_0000 && 0 <= current.pos.y
                        <= 0x4000_0000);
                    assert(self.data.tilemap.tile_size <= 900_000_000) by (nonlinear_arith)
                        requires
                            1 <= self.data.tilemap.width(),
                            1 <= self.data.tilemap.tile_size,
                            self.data.tilemap.width() * (self.data.tilemap.tile_size as int)
                                <= 900_000_000,
                    ;
                    assert(0 <= (current.pos.x as int) * (self.data.tilemap.tile_size as int)
                        < 0x4000_0000_0000_0000 && 0 <= (current.pos.y as int)
                        * (self.data.tilemap.tile_size as int) < 0x4000_0000_0000_0000)
                        by (nonlinear_arith)
                        requires
                            0 <= current.pos.x <= 0x4000_0000,
                            0 <= current.pos.y <= 0x4000_0000,
                            1 <= self.data.tilemap.tile_size <= 900_000_000,
                    ;
                }
                let wx: i64 = (current.pos.x as i64) * (self.data.tilemap.tile_size as i64);
                let wy: i64 = (current.pos.y as i64) * (self.data.tilemap.tile_size as i64);
                let sx = Self::to_screen(wx, self.data.camera.x);
                let sy = Self::to_screen(wy, self.data.camera.y);
                if Self::is_in_screen(sx, sy) {
                    let sprite_index = match current.kind {
                        TileType::Wall => "tile_brique",
                        TileType::Sand => "tile_sand",
                        TileType::Snow => "tile_snow",
                        TileType::Goo => "tile_goo",
                        TileType::Wood => "tile_wood",
                        TileType::Grass => "tile_herbe",
                    };
                    let _ = sprite_service.draw_sprite(
                        sprite_index,
                        Vector2D { x: sx, y: sy },
                        Some(Vector2D { x: 64, y: 74 }),
                        Some(Vector2D { x: 32, y: 51 }),
                    );
                }
                x = x + 1;
            }
            y = y + 1;
        }
    }
}

} // verus!
