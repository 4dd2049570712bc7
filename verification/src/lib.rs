//! Core of a top-down exploration game: a chunked tile world with
//! position-to-tile resolution, a multi-probe collision engine, simple
//! pursuit steering, and the scene state machine that drives each frame.

pub mod collide_body;
pub mod enemy;
pub mod graphics;
pub mod input;
pub mod musics;
pub mod numeric;
pub mod player;
pub mod rng;
pub mod scene;
pub mod scene_game_over;
pub mod scene_menu;
pub mod scene_world;
pub mod text;
pub mod tile;
pub mod tilemap;
pub mod vector2d;
