use vstd::prelude::*;
use crate::collide_body::CollideBody;
use crate::vector2d::{in_world, Vector2D};

verus! {

/// World units per pixel: coordinates carry sub-pixel precision as
/// thousandths of a pixel.
pub const PIXEL: i32 = 1000;

/// The player's starting coordinate on both axes (64 pixels).
pub const PLAYER_START: i32 = 64 * 1000;

/// The player's speed in world units per second (600 pixels per second).
pub const PLAYER_SPEED: u32 = 600 * 1000;

/// Radius of the default entity hitbox (16 pixels).
pub const ENTITY_HITBOX: i32 = 16 * 1000;

/// The steered entity: kinematic state only; movement legality is decided
/// by the scene through speculative-then-commit moves.
pub struct Player {
    pub pos: Vector2D,
    pub collide_body: CollideBody,
    pub vitesse: u32,
}

impl Player {
    /// The body is sound and its center tracks the player's position.
    pub open spec fn wf(self) -> bool {
        &&& self.collide_body.wf()
        &&& self.pos == self.collide_body.position
    }

    pub fn new() -> (r: Player)
        ensures
            r.wf(),
            r.pos.x == PLAYER_START && r.pos.y == PLAYER_START,
            r.vitesse == PLAYER_SPEED,
            r.collide_body.has_basic_probes(ENTITY_HITBOX as int),
            in_world(r.pos),
    {
        let position_de_depart = Vector2D { x: PLAYER_START, y: PLAYER_START };
        Player {
            pos: position_de_depart,
            collide_body: CollideBody::basic(position_de_depart, ENTITY_HITBOX),
            vitesse: PLAYER_SPEED,
        }
    }
}

} // verus!
