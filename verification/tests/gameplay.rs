use axesporen::enemy::Enemy;
use axesporen::graphics::{CanDrawSprite, CanDrawText, Color};
use axesporen::input::CanManageInput;
use axesporen::musics::CanPlayMusic;
use axesporen::player::Player;
use axesporen::scene::{SceneEnum, SceneManager};
use axesporen::scene_game_over::SceneGameOver;
use axesporen::scene_menu::SceneMenu;
use axesporen::scene_world::SceneWorld;
use axesporen::tilemap::TileMap;
use axesporen::vector2d::Vector2D;

struct NullSprite;

impl CanDrawSprite for NullSprite {
    fn draw_sprite(
        &mut self,
        _sprite_index: &str,
        _position: Vector2D,
        _source_size: Option<Vector2D>,
        _dest_size: Option<Vector2D>,
    ) -> Result<(), String> {
        Ok(())
    }
}

struct NullText;

impl CanDrawText for NullText {
    fn create_text(
        &mut self,
        _text: &str,
        _x: i32,
        _y: i32,
        _font_size: u32,
        _color: Color,
    ) -> Result<(), String> {
        Ok(())
    }
}

struct NullMusic;

impl CanPlayMusic for NullMusic {
    fn play(&self, _name: &str, _volume: i32) -> Result<(), String> {
        Ok(())
    }

    fn play_sound(&self, _name: &str, _volume: i32) -> Result<(), String> {
        Ok(())
    }

    fn stop(&self) -> Result<(), String> {
        Ok(())
    }
}

struct KeysInput {
    keys: Vec<String>,
}

impl KeysInput {
    fn holding(keys: &[&str]) -> KeysInput {
        KeysInput { keys: keys.iter().map(|k| k.to_string()).collect() }
    }
}

impl CanManageInput for KeysInput {
    fn is_key_pressed(&self, key: &str) -> bool {
        self.keys.iter().any(|k| k == key)
    }

    fn key_pressed(&self) -> Vec<String> {
        self.keys.clone()
    }

    fn mouse_key_pressed(&self) -> Vec<String> {
        Vec::new()
    }

    fn get_mouse_position(&self) -> Vector2D {
        Vector2D::new(400, 300)
    }
}

fn small_map() -> TileMap {
    TileMap::new_from_draws(5, 5, 32_000, None, 1, 0)
}

#[test]
fn enemy_idles_when_player_is_out_of_range() {
    let map = small_map();
    let player = Player::new();
    // the attack range is 300 pixels; 400 pixels away is out of range
    let mut enemy = Enemy::new(Vector2D::new(64_000 + 400_000, 64_000));
    enemy.update(100, &map, &player);
    assert_eq!(enemy.collide_body.position, Vector2D::new(64_000 + 400_000, 64_000));
    // exactly at the range boundary the comparison is strict: still idle
    let mut boundary = Enemy::new(Vector2D::new(64_000 + 300_000, 64_000));
    boundary.update(100, &map, &player);
    assert_eq!(boundary.collide_body.position, Vector2D::new(64_000 + 300_000, 64_000));
}

#[test]
fn enemy_steps_toward_the_player_by_speed_times_dt() {
    let map = small_map();
    let player = Player::new();
    // 5000 units away on a 3-4-5 triangle; 100 ms at 20 px/s is a
    // 2000-unit step, split 3:4 across the axes
    let mut enemy = Enemy::new(Vector2D::new(64_000 + 3000, 64_000 + 4000));
    enemy.update(100, &map, &player);
    let pos = enemy.collide_body.position;
    assert_eq!(pos, Vector2D::new(64_000 + 3000 - 1200, 64_000 + 4000 - 1600));
    let moved = Vector2D::new(1200, 1600);
    assert_eq!(moved.magnitude(), 2000);
}

#[test]
fn enemy_standing_on_the_player_does_not_move() {
    let map = small_map();
    let player = Player::new();
    let mut enemy = Enemy::new(Vector2D::new(64_000, 64_000));
    enemy.update(100, &map, &player);
    assert_eq!(enemy.collide_body.position, Vector2D::new(64_000, 64_000));
}

#[test]
fn fresh_world_population_grows_with_the_level() {
    let w = SceneWorld::new(3);
    assert!(!w.data.is_init);
    assert_eq!(w.data.compteur_de_monde_genere, 3);
    assert_eq!(w.data.enemies.len(), 30);
    assert_eq!(w.data.player.pos, Vector2D::new(64_000, 64_000));
    assert_eq!(w.data.tilemap.tiles.len(), 200);
    assert_eq!(w.data.tilemap.tiles[0].len(), 200);
    for e in w.data.enemies.iter() {
        let p = e.collide_body.position;
        assert!((10 * 32_000..199 * 32_000).contains(&p.x));
        assert!((10 * 32_000..199 * 32_000).contains(&p.y));
    }
}

#[test]
fn reaching_the_goal_advances_to_the_next_world() {
    let mut w = SceneWorld::new(3);
    // stand just under one probe radius from the goal body's lower probe
    let goal = w.data.vaisseau_a_trouver.position;
    let near = Vector2D::new(goal.x, goal.y + 1000);
    w.data.player.pos = near;
    w.data.player.collide_body.position = near;
    let (mut sp, mut tx, input, music) = (NullSprite, NullText, KeysInput::holding(&[]), NullMusic);
    let next = w.on_scene(0, &mut sp, &mut tx, &input, &music);
    match next {
        Some(SceneEnum::SceneWorld(w2)) => {
            assert_eq!(w2.data.compteur_de_monde_genere, 4);
            assert!(!w2.data.is_init);
            assert_eq!(w2.data.enemies.len(), 40);
            assert_eq!(w2.data.player.pos, Vector2D::new(64_000, 64_000));
        },
        _ => panic!("expected the next world"),
    }
    assert!(w.data.is_init);
}

#[test]
fn an_enemy_catching_the_player_ends_the_run() {
    let mut w = SceneWorld::new(2);
    // park one enemy on the player, far away from the goal corner
    let ppos = w.data.player.pos;
    w.data.enemies[0].collide_body.position = ppos;
    let (mut sp, mut tx, input, music) = (NullSprite, NullText, KeysInput::holding(&[]), NullMusic);
    let next = w.on_scene(0, &mut sp, &mut tx, &input, &music);
    match next {
        Some(SceneEnum::SceneGameOver(g)) => {
            assert_eq!(g.data.nb_monde_decouvert, 2);
            assert!(!g.data.is_init);
        },
        _ => panic!("expected a game over"),
    }
}

#[test]
fn the_catch_is_a_per_probe_test_not_center_to_center() {
    // an enemy 40 px from the player's center: the centers are farther
    // apart than 32 px, but the player's probe toward the enemy is only
    // 24 px away, so the run ends
    let mut w = SceneWorld::new(2);
    let ppos = w.data.player.pos;
    w.data.enemies[0].collide_body.position = Vector2D::new(ppos.x + 40_000, ppos.y);
    let (mut sp, mut tx, input, music) = (NullSprite, NullText, KeysInput::holding(&[]), NullMusic);
    match w.on_scene(0, &mut sp, &mut tx, &input, &music) {
        Some(SceneEnum::SceneGameOver(g)) => assert_eq!(g.data.nb_monde_decouvert, 2),
        _ => panic!("expected a game over"),
    }
}

#[test]
fn the_catch_threshold_is_strict_at_the_nearest_probe() {
    // the nearest probe sits 16 px toward the enemy: exactly 32 px away
    // from the enemy's center the strict test does not fire, one unit
    // closer it does
    let (mut sp, mut tx, input, music) = (NullSprite, NullText, KeysInput::holding(&[]), NullMusic);
    let mut at_boundary = SceneWorld::new(2);
    let ppos = at_boundary.data.player.pos;
    at_boundary.data.enemies[0].collide_body.position = Vector2D::new(ppos.x + 48_000, ppos.y);
    assert!(at_boundary.on_scene(0, &mut sp, &mut tx, &input, &music).is_none());
    let mut inside = SceneWorld::new(2);
    let ppos = inside.data.player.pos;
    inside.data.enemies[0].collide_body.position = Vector2D::new(ppos.x + 47_999, ppos.y);
    match inside.on_scene(0, &mut sp, &mut tx, &input, &music) {
        Some(SceneEnum::SceneGameOver(_)) => {},
        _ => panic!("expected a game over"),
    }
}

#[test]
fn a_quiet_world_frame_stays_in_the_world() {
    let mut w = SceneWorld::new(1);
    let (mut sp, mut tx, input, music) = (NullSprite, NullText, KeysInput::holding(&[]), NullMusic);
    let next = w.on_scene(16, &mut sp, &mut tx, &input, &music);
    assert!(next.is_none());
    assert!(w.data.is_init);
    assert_eq!(w.data.compteur_de_monde_genere, 1);
}

#[test]
fn menu_confirm_only_starts_after_the_panel_is_dismissed() {
    let mut menu = SceneMenu::new();
    let (mut sp, mut tx, music) = (NullSprite, NullText, NullMusic);
    // confirm while the intro panel is still up: nothing happens
    let space = KeysInput::holding(&["Space"]);
    assert!(menu.on_scene(16, &mut sp, &mut tx, &space, &music).is_none());
    assert!(menu.data.is_init);
    // dismiss the panel
    let escape = KeysInput::holding(&["Escape"]);
    assert!(menu.on_scene(16, &mut sp, &mut tx, &escape, &music).is_none());
    assert!(!menu.data.panel_draw);
    // confirm again: the first world starts at level one
    match menu.on_scene(16, &mut sp, &mut tx, &space, &music) {
        Some(SceneEnum::SceneWorld(w)) => {
            assert_eq!(w.data.compteur_de_monde_genere, 1);
            assert!(!w.data.is_init);
            assert_eq!(w.data.enemies.len(), 10);
        },
        _ => panic!("expected the first world"),
    }
}

#[test]
fn game_over_confirm_returns_to_the_menu() {
    let mut over = SceneGameOver::new(7);
    let (mut sp, mut tx, music) = (NullSprite, NullText, NullMusic);
    let idle = KeysInput::holding(&[]);
    assert!(over.on_scene(16, &mut sp, &mut tx, &idle, &music).is_none());
    assert_eq!(over.data.nb_monde_decouvert, 7);
    let escape = KeysInput::holding(&["Escape"]);
    match over.on_scene(16, &mut sp, &mut tx, &escape, &music) {
        Some(SceneEnum::SceneMenu(m)) => {
            assert!(!m.data.is_init);
            assert!(m.data.panel_draw);
        },
        _ => panic!("expected the menu"),
    }
}

#[test]
fn manager_walks_the_menu_to_world_transition() {
    let mut manager = SceneManager::new();
    assert!(matches!(manager.current, SceneEnum::SceneMenu(_)));
    let (mut sp, mut tx, music) = (NullSprite, NullText, NullMusic);
    let escape = KeysInput::holding(&["Escape"]);
    manager.update_scene(16, &mut sp, &mut tx, &escape, &music);
    assert!(matches!(manager.current, SceneEnum::SceneMenu(_)));
    let space = KeysInput::holding(&["Space"]);
    manager.update_scene(16, &mut sp, &mut tx, &space, &music);
    match &manager.current {
        SceneEnum::SceneWorld(w) => assert_eq!(w.data.compteur_de_monde_genere, 1),
        _ => panic!("expected a world"),
    }
}

#[test]
fn player_movement_is_blocked_by_walls_and_open_elsewhere() {
    let mut w = SceneWorld::new(1);
    // head right for one 16 ms frame at 600 px/s: 9600 units
    let before = w.data.player.pos;
    let (mut sp, mut tx, music) = (NullSprite, NullText, NullMusic);
    let right = KeysInput::holding(&["D"]);
    let _ = w.on_scene(16, &mut sp, &mut tx, &right, &music);
    assert_eq!(w.data.player.pos, Vector2D::new(before.x + 9600, before.y));
    assert_eq!(w.data.player.collide_body.position, w.data.player.pos);
    // walking into the wall column on the map's left edge is refused:
    // the wall tiles sit at cell (0, 0) and every third row below it
    let left = KeysInput::holding(&["Q"]);
    let mut blocked = SceneWorld::new(1);
    let start = Vector2D::new(48_100, 16_000);
    blocked.data.player.pos = start;
    blocked.data.player.collide_body.position = start;
    let _ = blocked.on_scene(1, &mut sp, &mut tx, &left, &music);
    // one 600-unit step left would put the left probe inside the wall
    assert_eq!(blocked.data.player.pos, start);
}

#[test]
fn fresh_entities_carry_the_documented_parameters() {
    let player = Player::new();
    assert_eq!(player.pos, Vector2D::new(64_000, 64_000));
    assert_eq!(player.collide_body.position, player.pos);
    assert_eq!(player.vitesse, 600_000);
    let enemy = Enemy::new(Vector2D::new(1000, 2000));
    assert_eq!(enemy.collide_body.position, Vector2D::new(1000, 2000));
    assert_eq!(enemy.distance_attaque, 300_000);
    assert_eq!(enemy.vitesse, 20_000);
}

#[test]
fn goal_corners_are_far_from_the_start() {
    // whichever corner the draw picks, it is one of the three documented
    // ones, never the spawn box's near corner
    for _ in 0..8 {
        let w = SceneWorld::new(1);
        let goal = w.data.vaisseau_a_trouver.position;
        let far = 199 * 32_000;
        let near = 10 * 32_000;
        assert!(
            goal == Vector2D::new(far, far)
                || goal == Vector2D::new(near, far)
                || goal == Vector2D::new(far, near)
        );
    }
}
