use vstd::prelude::*;
use crate::collide_body::CollideBody;
use crate::numeric::{
    int_sqrt, is_int_sqrt, isqrt_u128, lemma_component_bounded_by_sqrt, lemma_int_sqrt_exists,
    lemma_int_sqrt_unique, lemma_scaled_component_bounded, scaled_component,
    scaled_component_exec,
};
use crate::player::{Player, ENTITY_HITBOX};
use crate::tilemap::TileMap;
use crate::vector2d::{in_arena, in_world, is_in_world, spec_dist_sq, dist_sq, Vector2D};

verus! {

/// The distance under which an enemy starts chasing (300 pixels).
pub const ENEMY_ATTACK_RANGE: u32 = 300 * 1000;

/// Enemy speed in world units per second (20 pixels per second).
pub const ENEMY_SPEED: u32 = 20 * 1000;

/// Largest chase step applied in one tick; an absurd tick that would step
/// farther leaves the enemy where it is.
pub const STEP_LIMIT: u64 = 1_000_000_000;

/// Displacement length from a speed in units per second and a tick length
/// in milliseconds.
pub open spec fn spec_step(vitesse: int, dt: int) -> int {
    (vitesse * dt) / 1000
}

/// The position reached from `from` by one steering step of (approximate)
/// length `step` toward `to`.  Each coordinate of the direction is scaled
/// by `step` over the integer square root of the squared distance, rounding
/// toward zero; a degenerate direction moves nothing.
pub open spec fn spec_chase_pos(from: Vector2D, to: Vector2D, step: int) -> Vector2D {
    let dx = to.x - from.x;
    let dy = to.y - from.y;
    let d2 = dx * dx + dy * dy;
    if d2 == 0 {
        from
    } else {
        let m = int_sqrt(d2);
        Vector2D {
            x: (from.x + scaled_component(dx, step, m)) as i32,
            y: (from.y + scaled_component(dy, step, m)) as i32,
        }
    }
}

/// A roaming entity: a collide body plus the two-state reactive pursuit
/// policy's parameters.  Enemies never collide-test against terrain; they
/// may walk through walls (a documented limitation of the game).
pub struct Enemy {
    pub collide_body: CollideBody,
    pub distance_attaque: u32,
    pub vitesse: u32,
}

impl Enemy {
    /// The body's probes are sound and its center stays in the arena.
    pub open spec fn wf(self) -> bool {
        &&& in_arena(self.collide_body.position)
        &&& self.collide_body.probes_ok()
    }

    pub fn new(position: Vector2D) -> (r: Enemy)
        requires
            in_world(position),
        ensures
            r.wf(),
            r.collide_body.position == position,
            r.collide_body.has_basic_probes(ENTITY_HITBOX as int),
            r.distance_attaque == ENEMY_ATTACK_RANGE,
            r.vitesse == ENEMY_SPEED,
    {
        Enemy {
            collide_body: CollideBody::basic(position, ENTITY_HITBOX),
            distance_attaque: ENEMY_ATTACK_RANGE,
            vitesse: ENEMY_SPEED,
        }
    }

    /// The two-state reactive policy, recomputed from scratch every tick:
    /// within the attack range the enemy takes one steering step toward the
    /// player; otherwise (or when the direction is degenerate, the step is
    /// absurdly large, or the enemy has drifted out of the world) it idles.
    pub fn update(&mut self, dt: u32, _tilemap: &TileMap, joueur: &Player)
        requires
            old(self).wf(),
            in_world(joueur.pos),
        ensures
            final(self).wf(),
            final(self).distance_attaque == old(self).distance_attaque,
            final(self).vitesse == old(self).vitesse,
            final(self).collide_body.radars@ == old(self).collide_body.radars@,
            ({
                let from = old(self).collide_body.position;
                let d2 = spec_dist_sq(from, joueur.pos);
                let step = spec_step(old(self).vitesse as int, dt as int);
                if (old(self).distance_attaque * old(self).distance_attaque > d2) && in_world(from)
                    && step <= STEP_LIMIT {
                    final(self).collide_body.position == spec_chase_pos(from, joueur.pos, step)
                } else {
                    final(self).collide_body.position == from
                }
            }),
    {
        let from = self.collide_body.position;
        let d2: u128 = dist_sq(&from, &joueur.pos);
        proof {
            vstd::arithmetic::mul::lemma_mul_upper_bound(
                self.vitesse as int,
                0xffff_ffff,
                dt as int,
                0xffff_ffff,
            );
            vstd::arithmetic::mul::lemma_mul_nonnegative(self.vitesse as int, dt as int);
            vstd::arithmetic::mul::lemma_mul_upper_bound(
                self.distance_attaque as int,
                0xffff_ffff,
                self.distance_attaque as int,
                0xffff_ffff,
            );
            vstd::arithmetic::mul::lemma_mul_nonnegative(
                self.distance_attaque as int,
                self.distance_attaque as int,
            );
            vstd::arithmetic::div_mod::lemma_div_pos_is_pos(
                self.vitesse as int * dt as int,
                1000,
            );
            vstd::arithmetic::div_mod::lemma_div_is_ordered(
                self.vitesse as int * dt as int,
                0xffff_ffffint * 0xffff_ffffint,
                1000,
            );
        }
        let step64: u64 = (((self.vitesse as u64) * (dt as u64)) / 1000) as u64;
        let range2: u128 = (self.distance_attaque as u128) * (self.distance_attaque as u128);
        if range2 > d2 && is_in_world(&from) && step64 <= STEP_LIMIT {
            // chase: move toward the player along the scaled direction
            let dx: i64 = (joueur.pos.x as i64) - (from.x as i64);
            let dy: i64 = (joueur.pos.y as i64) - (from.y as i64);
            if dx == 0 && dy == 0 {
                // the enemy stands exactly on the player: no direction
                proof {
                    assert(spec_dist_sq(from, joueur.pos) == 0);
                }
            } else {
                proof {
                    assert(d2 as int == dx * dx + dy * dy && d2 >= 1) by (nonlinear_arith)
                        requires
                            dx == joueur.pos.x as int - from.x as int,
                            dy == joueur.pos.y as int - from.y as int,
                            !(dx == 0 && dy == 0),
                            d2 as int == spec_dist_sq(from, joueur.pos),
                    ;
                }
                let m128: u128 = isqrt_u128(d2);
                proof {
                    assert(1 <= (m128 as int) && (m128 as int) < 0x1_0000_0000_0000)
                        by (nonlinear_arith)
                        requires
                            is_int_sqrt(d2 as int, m128 as int),
                            1 <= (d2 as int) < 0x8_0000_0000_0000_0000,
                    ;
                    lemma_int_sqrt_unique(d2 as int, m128 as int);
                    lemma_component_bounded_by_sqrt(dx as int, dy as int, m128 as int);
                }
                let m: u64 = m128 as u64;
                let sx: i64 = scaled_component_exec(dx, step64 as i64, m);
                let sy: i64 = scaled_component_exec(dy, step64 as i64, m);
                self.collide_body.position = Vector2D {
                    x: from.x + (sx as i32),
                    y: from.y + (sy as i32),
                };
            }
        }
    }
}

/// Law: one chase step displaces each coordinate by at most `step`, in the
/// direction of the player, and the squared displacement is at most
/// `2*step^2` (the two coordinates are rounded independently).  When the
/// player is at least `step` away, the enemy never oversteps the player.
pub proof fn lemma_chase_step_properties(from: Vector2D, to: Vector2D, step: int)
    requires
        in_world(from),
        spec_dist_sq(from, to) != 0,
        0 <= step <= STEP_LIMIT,
    ensures
        ({
            let n = spec_chase_pos(from, to, step);
            let dx = to.x - from.x;
            let dy = to.y - from.y;
            &&& -step <= n.x - from.x <= step
            &&& -step <= n.y - from.y <= step
            &&& (dx >= 0 ==> n.x >= from.x) && (dx <= 0 ==> n.x <= from.x)
            &&& (dy >= 0 ==> n.y >= from.y) && (dy <= 0 ==> n.y <= from.y)
            &&& spec_dist_sq(from, n) <= 2 * step * step
            &&& step * step <= spec_dist_sq(from, to) ==> ((dx >= 0 ==> n.x <= to.x) && (dx <= 0
                ==> n.x >= to.x) && (dy >= 0 ==> n.y <= to.y) && (dy <= 0 ==> n.y >= to.y))
            &&& ({
                // rounding loses under one unit per axis, so the step is
                // also (nearly) reached: |displacement| + (1, 1) beats it
                let ax = if n.x >= from.x { n.x - from.x } else { from.x - n.x };
                let ay = if n.y >= from.y { n.y - from.y } else { from.y - n.y };
                (ax + 1) * (ax + 1) + (ay + 1) * (ay + 1) > step * step
            })
        }),
{
    let dx = to.x - from.x;
    let dy = to.y - from.y;
    let d2 = dx * dx + dy * dy;
    assert(d2 == spec_dist_sq(from, to));
    assert(d2 >= 0) by (nonlinear_arith)
        requires
            d2 == dx * dx + dy * dy,
    ;
    lemma_int_sqrt_exists(d2);
    let m = int_sqrt(d2);
    assert(m >= 1) by (nonlinear_arith)
        requires
            is_int_sqrt(d2, m),
            d2 != 0,
            d2 == dx * dx + dy * dy,
    ;
    lemma_component_bounded_by_sqrt(dx, dy, m);
    lemma_scaled_component_bounded(dx, step, m);
    lemma_scaled_component_bounded(dy, step, m);
    if step * step <= d2 {
        assert(step <= m) by (nonlinear_arith)
            requires
                is_int_sqrt(d2, m),
                0 <= step,
                step * step <= d2,
        ;
    }
    crate::numeric::lemma_scaled_pair_reaches_step(dx, dy, step, m);
    let sx = scaled_component(dx, step, m);
    let sy = scaled_component(dy, step, m);
    let n = spec_chase_pos(from, to, step);
    assert(n.x == from.x + sx && n.y == from.y + sy);
    assert(spec_dist_sq(from, n) <= 2 * step * step) by (nonlinear_arith)
        requires
            n.x - from.x == sx,
            n.y - from.y == sy,
            -step <= sx <= step,
            -step <= sy <= step,
            spec_dist_sq(from, n) == (n.x - from.x) * (n.x - from.x) + (n.y - from.y) * (n.y
                - from.y),
    ;
}

} // verus!
