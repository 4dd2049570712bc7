use vstd::prelude::*;
use crate::tile::{Tile, TileType};
use crate::tilemap::{TileMap, TileMapHudge};
use crate::vector2d::{in_arena, in_world, spec_within, within_distance, Vector2D};

verus! {

/// Bound on a probe offset's coordinates; hitboxes are a few pixels, far
/// below it, and it keeps every absolute probe position representable.
pub const PROBE_LIMIT: i32 = 1_000_000;

/// Membership test over a discriminant list.
fn contains_kind(discriminants: &Vec<TileType>, kind: TileType) -> (r: bool)
    ensures
        r == discriminants@.contains(kind),
{
    let mut i: usize = 0;
    while i < discriminants.len()
        invariant
            0 <= i <= discriminants@.len(),
            forall|j: int| 0 <= j < i as int ==> discriminants@[j] != kind,
        decreases discriminants@.len() - i,
    {
        if discriminants[i] == kind {
            return true;
        }
        i = i + 1;
    }
    false
}

/// A body's center plus a set of probe offsets ("radars"): positions added
/// to the center for every blocking or proximity test.  `duplicate` hands
/// out the copy used for speculative move tests.
pub struct CollideBody {
    pub position: Vector2D,
    pub radars: Vec<Vector2D>,
}

impl CollideBody {
    /// Every probe offset is small.
    pub open spec fn probes_ok(self) -> bool {
        forall|i: int|
            0 <= i < self.radars@.len() ==> {
                &&& -(PROBE_LIMIT as int) <= (#[trigger] self.radars@[i]).x <= PROBE_LIMIT as int
                &&& -(PROBE_LIMIT as int) <= self.radars@[i].y <= PROBE_LIMIT as int
            }
    }

    /// The center is in the world and every probe offset is small.
    pub open spec fn wf(self) -> bool {
        &&& in_world(self.position)
        &&& self.probes_ok()
    }

    /// Absolute world position of probe `i`.
    pub open spec fn spec_probe_abs(self, i: int) -> Vector2D {
        Vector2D {
            x: (self.position.x + self.radars@[i].x) as i32,
            y: (self.position.y + self.radars@[i].y) as i32,
        }
    }

    /// Probe `i` hits terrain on the single map: either no tile exists at
    /// the probe (out of bounds counts as solid) or the tile's kind is a
    /// member of the discriminant set.
    pub open spec fn spec_probe_hits_map(
        self,
        tilemap: TileMap,
        discriminants: Seq<TileType>,
        i: int,
    ) -> bool {
        match tilemap.spec_tile_from_position(self.spec_probe_abs(i)) {
            None => true,
            Some(t) => discriminants.contains(t.kind),
        }
    }

    /// The body collides with the single map iff at least one probe hits.
    pub open spec fn spec_is_collide_map(
        self,
        tilemap: TileMap,
        discriminants: Seq<TileType>,
    ) -> bool {
        exists|i: int|
            0 <= i < self.radars@.len() && self.spec_probe_hits_map(tilemap, discriminants, i)
    }

    /// Probe `i` hits terrain on the chunk grid.
    pub open spec fn spec_probe_hits_grid(
        self,
        grid: TileMapHudge,
        discriminants: Seq<TileType>,
        i: int,
    ) -> bool {
        match grid.spec_tile_from_position(self.spec_probe_abs(i)) {
            None => true,
            Some(t) => discriminants.contains(t.kind),
        }
    }

    /// The body collides with the chunk grid iff at least one probe hits.
    pub open spec fn spec_is_collide_grid(
        self,
        grid: TileMapHudge,
        discriminants: Seq<TileType>,
    ) -> bool {
        exists|i: int|
            0 <= i < self.radars@.len() && self.spec_probe_hits_grid(grid, discriminants, i)
    }

    /// Some probe lies strictly within Euclidean distance `size` of
    /// `target` (a per-probe test, not a center-to-center test).
    pub open spec fn spec_is_collide_with_object(self, target: Vector2D, size: int) -> bool {
        exists|i: int|
            0 <= i < self.radars@.len() && spec_within(self.spec_probe_abs(i), target, size)
    }

    pub fn new(position: Vector2D, radars: Vec<Vector2D>) -> (r: CollideBody)
        requires
            in_world(position),
            forall|i: int|
                0 <= i < radars@.len() ==> {
                    &&& -(PROBE_LIMIT as int) <= (#[trigger] radars@[i]).x <= PROBE_LIMIT as int
                    &&& -(PROBE_LIMIT as int) <= radars@[i].y <= PROBE_LIMIT as int
                },
        ensures
            r.wf(),
            r.position == position,
            r.radars@ == radars@,
    {
        CollideBody { position, radars }
    }

    /// The four-probe preset at distance `taille` along the cardinal
    /// directions, in the construction order of `basic`: -Y, +X, +Y, -X.
    pub open spec fn has_basic_probes(self, taille: int) -> bool {
        &&& self.radars@.len() == 4
        &&& self.radars@[0].x == 0 && self.radars@[0].y == -taille
        &&& self.radars@[1].x == taille && self.radars@[1].y == 0
        &&& self.radars@[2].x == 0 && self.radars@[2].y == taille
        &&& self.radars@[3].x == -taille && self.radars@[3].y == 0
    }

    /// The default entity preset: four probes at distance `taille` along
    /// the cardinal directions, approximating a circular hitbox.
    pub fn basic(position: Vector2D, taille: i32) -> (r: CollideBody)
        requires
            in_world(position),
            0 <= taille <= PROBE_LIMIT,
        ensures
            r.wf(),
            r.position == position,
            r.has_basic_probes(taille as int),
    {
        let mut radars: Vec<Vector2D> = Vec::new();
        radars.push(Vector2D { x: 0, y: -taille });
        radars.push(Vector2D { x: taille, y: 0 });
        radars.push(Vector2D { x: 0, y: taille });
        radars.push(Vector2D { x: -taille, y: 0 });
        CollideBody { position, radars }
    }

    /// A copy sharing center and probes, for speculative move tests.
    pub fn duplicate(&self) -> (r: CollideBody)
        ensures
            r.position == self.position,
            r.radars@ == self.radars@,
    {
        let mut radars: Vec<Vector2D> = Vec::new();
        let mut i: usize = 0;
        while i < self.radars.len()
            invariant
                0 <= i <= self.radars@.len(),
                radars@ == self.radars@.subrange(0, i as int),
            decreases self.radars@.len() - i,
        {
            radars.push(self.radars[i]);
            proof {
                assert(radars@ =~= self.radars@.subrange(0, i + 1));
            }
            i = i + 1;
        }
        proof {
            assert(radars@ =~= self.radars@);
        }
        CollideBody { position: self.position, radars }
    }

    /// True iff some probe lies strictly within distance `size` of
    /// `position`.
    pub fn is_collide_with_object(&self, position: &Vector2D, size: u32) -> (r: bool)
        requires
            in_arena(self.position),
            self.probes_ok(),
        ensures
            r == self.spec_is_collide_with_object(*position, size as int),
    {
        let mut i: usize = 0;
        while i < self.radars.len()
            invariant
                0 <= i <= self.radars@.len(),
                in_arena(self.position),
                self.probes_ok(),
                forall|j: int|
                    0 <= j < i as int ==> !spec_within(
                        self.spec_probe_abs(j),
                        *position,
                        size as int,
                    ),
            decreases self.radars@.len() - i,
        {
            let radar = self.radars[i];
            let abs = Vector2D { x: self.position.x + radar.x, y: self.position.y + radar.y };
            if within_distance(&abs, position, size) {
                proof {
                    assert(abs == self.spec_probe_abs(i as int));
                }
                return true;
            }
            i = i + 1;
        }
        false
    }

    /// The tile (or absence of one) under each probe of the body, against
    /// the single map.
    pub fn collide_with(&self, tilemap: &TileMap) -> (r: Vec<Option<Tile>>)
        requires
            in_arena(self.position),
            self.probes_ok(),
            tilemap.wf(),
        ensures
            r@.len() == self.radars@.len(),
            forall|i: int|
                0 <= i < r@.len() ==> r@[i] == tilemap.spec_tile_from_position(
                    self.spec_probe_abs(i),
                ),
    {
        let mut out: Vec<Option<Tile>> = Vec::new();
        let mut i: usize = 0;
        while i < self.radars.len()
            invariant
                0 <= i <= self.radars@.len(),
                in_arena(self.position),
                self.probes_ok(),
                tilemap.wf(),
                out@.len() == i as int,
                forall|j: int|
                    0 <= j < i as int ==> out@[j] == tilemap.spec_tile_from_position(
                        self.spec_probe_abs(j),
                    ),
            decreases self.radars@.len() - i,
        {
            let radar = self.radars[i];
            let abs = Vector2D { x: self.position.x + radar.x, y: self.position.y + radar.y };
            out.push(tilemap.get_tile_from_position(&abs));
            i = i + 1;
        }
        out
    }

    /// Terrain-blocking test against the single map: true iff some probe
    /// lands outside the map or on a tile whose kind is in `discriminants`.
    pub fn is_collide(&self, tilemap: &TileMap, discriminants: Vec<TileType>) -> (r: bool)
        requires
            in_arena(self.position),
            self.probes_ok(),
            tilemap.wf(),
        ensures
            r == self.spec_is_collide_map(*tilemap, discriminants@),
    {
        let mut i: usize = 0;
        while i < self.radars.len()
            invariant
                0 <= i <= self.radars@.len(),
                in_arena(self.position),
                self.probes_ok(),
                tilemap.wf(),
                forall|j: int|
                    0 <= j < i as int ==> !self.spec_probe_hits_map(*tilemap, discriminants@, j),
            decreases self.radars@.len() - i,
        {
            let radar = self.radars[i];
            let abs = Vector2D { x: self.position.x + radar.x, y: self.position.y + radar.y };
            match tilemap.get_tile_from_position(&abs) {
                None => {
                    proof {
                        assert(self.spec_probe_hits_map(*tilemap, discriminants@, i as int));
                    }
                    return true;
                },
                Some(t) => {
                    if contains_kind(&discriminants, t.kind) {
                        proof {
                            assert(self.spec_probe_hits_map(*tilemap, discriminants@, i as int));
                        }
                        return true;
                    }
                },
            }
            i = i + 1;
        }
        false
    }

    /// The tile (or absence of one) under each probe, against the chunk
    /// grid.
    pub fn collide_with_tilemap_hudge(&self, tilemap: &TileMapHudge) -> (r: Vec<Option<Tile>>)
        requires
            in_arena(self.position),
            self.probes_ok(),
            tilemap.wf(),
        ensures
            r@.len() == self.radars@.len(),
            forall|i: int|
                0 <= i < r@.len() ==> r@[i] == tilemap.spec_tile_from_position(
                    self.spec_probe_abs(i),
                ),
    {
        let mut out: Vec<Option<Tile>> = Vec::new();
        let mut i: usize = 0;
        while i < self.radars.len()
            invariant
                0 <= i <= self.radars@.len(),
                in_arena(self.position),
                self.probes_ok(),
                tilemap.wf(),
                out@.len() == i as int,
                forall|j: int|
                    0 <= j < i as int ==> out@[j] == tilemap.spec_tile_from_position(
                        self.spec_probe_abs(j),
                    ),
            decreases self.radars@.len() - i,
        {
            let radar = self.radars[i];
            let abs = Vector2D { x: self.position.x + radar.x, y: self.position.y + radar.y };
            out.push(tilemap.get_tile_from_position(&abs));
            i = i + 1;
        }
        out
    }

    /// Terrain-blocking test against the chunk grid.
    pub fn is_collide_with_tilemap_hudge(
        &self,
        tilemap: &TileMapHudge,
        discriminants: Vec<TileType>,
    ) -> (r: bool)
        requires
            in_arena(self.position),
            self.probes_ok(),
            tilemap.wf(),
        ensures
            r == self.spec_is_collide_grid(*tilemap, discriminants@),
    {
        let mut i: usize = 0;
        while i < self.radars.len()
            invariant
                0 <= i <= self.radars@.len(),
                in_arena(self.position),
                self.probes_ok(),
                tilemap.wf(),
                forall|j: int|
                    0 <= j < i as int ==> !self.spec_probe_hits_grid(*tilemap, discriminants@, j),
            decreases self.radars@.len() - i,
        {
            let radar = self.radars[i];
            let abs = Vector2D { x: self.position.x + radar.x, y: self.position.y + radar.y };
            match tilemap.get_tile_from_position(&abs) {
                None => {
                    proof {
                        assert(self.spec_probe_hits_grid(*tilemap, discriminants@, i as int));
                    }
                    return true;
                },
                Some(t) => {
                    if contains_kind(&discriminants, t.kind) {
                        proof {
                            assert(self.spec_probe_hits_grid(*tilemap, discriminants@, i as int));
                        }
                        return true;
                    }
                },
            }
            i = i + 1;
        }
        false
    }
}

/// Collision only reads a body's center and its probe sequence: two bodies
/// agreeing on those agree on every terrain test.
pub proof fn lemma_collide_depends_on_view(
    a: CollideBody,
    b: CollideBody,
    tilemap: TileMap,
    discriminants: Seq<TileType>,
)
    requires
        a.position == b.position,
        a.radars@ == b.radars@,
    ensures
        a.spec_is_collide_map(tilemap, discriminants) == b.spec_is_collide_map(
            tilemap,
            discriminants,
        ),
{
    assert forall|i: int|
        0 <= i < a.radars@.len() implies a.spec_probe_hits_map(tilemap, discriminants, i)
        == b.spec_probe_hits_map(tilemap, discriminants, i) by {
        assert(a.spec_probe_abs(i) == b.spec_probe_abs(i));
    }
    if a.spec_is_collide_map(tilemap, discriminants) {
        let i = choose|i: int|
            0 <= i < a.radars@.len() && a.spec_probe_hits_map(tilemap, discriminants, i);
        assert(b.spec_probe_hits_map(tilemap, discriminants, i));
    }
    if b.spec_is_collide_map(tilemap, discriminants) {
        let i = choose|i: int|
            0 <= i < b.radars@.len() && b.spec_probe_hits_map(tilemap, discriminants, i);
        assert(a.spec_probe_hits_map(tilemap, discriminants, i));
    }
}

/// A body none of whose probes hits a wall on a well-formed map stands,
/// probes included, inside the map's bounding box (out-of-bounds probes
/// would count as hits), so its center is nearly in bounds too.
pub proof fn lemma_noncolliding_body_near_map(
    body: CollideBody,
    tilemap: TileMap,
    discriminants: Seq<TileType>,
)
    requires
        tilemap.wf(),
        body.probes_ok(),
        body.radars@.len() >= 1,
        -2_000_000_000 <= body.position.x <= 2_000_000_000,
        -2_000_000_000 <= body.position.y <= 2_000_000_000,
        !body.spec_is_collide_map(tilemap, discriminants),
    ensures
        -(PROBE_LIMIT as int) <= body.position.x <= tilemap.width() * (tilemap.tile_size as int)
            + PROBE_LIMIT as int,
        -(PROBE_LIMIT as int) <= body.position.y <= tilemap.height() * (tilemap.tile_size as int)
            + PROBE_LIMIT as int,
{
    assert(!body.spec_probe_hits_map(tilemap, discriminants, 0));
    let abs = body.spec_probe_abs(0);
    let ts = tilemap.tile_size as int;
    let ix = tilemap.spec_index_x(abs);
    let iy = tilemap.spec_index_y(abs);
    assert(tilemap.index_ok(ix, iy));
    crate::numeric::lemma_floor_div_ordering(abs.x as int, ts, 0);
    crate::numeric::lemma_floor_div_ordering(abs.y as int, ts, 0);
    crate::numeric::lemma_floor_div_ordering(abs.x as int, ts, tilemap.width());
    crate::numeric::lemma_floor_div_ordering(abs.y as int, ts, tilemap.height());
    assert(0 <= abs.x < tilemap.width() * ts);
    assert(0 <= abs.y < tilemap.height() * ts);
}

/// Law: a probe landing strictly outside the grid's bounding box is always
/// a hit, independent of the discriminant set, so the body collides.
pub proof fn lemma_probe_outside_always_hits(
    body: CollideBody,
    grid: TileMapHudge,
    discriminants: Seq<TileType>,
    i: int,
)
    requires
        body.wf(),
        grid.wf(),
        0 <= i < body.radars@.len(),
        !grid.pos_in_bounds(body.spec_probe_abs(i)),
    ensures
        body.spec_probe_hits_grid(grid, discriminants, i),
        body.spec_is_collide_grid(grid, discriminants),
{
    grid.lemma_tile_outside_is_none(body.spec_probe_abs(i));
    assert(body.spec_probe_hits_grid(grid, discriminants, i));
}

} // verus!
