use vstd::prelude::*;
use crate::numeric::floor_div;
use crate::rng::random_in_range;
use crate::tile::{Tile, TileType};
use crate::vector2d::Vector2D;

verus! {

/// Upper bound on a map's extent (tile count and pixel extent alike) along
/// either axis; it keeps every tile-index computation inside `i32`.
pub const MAP_EXTENT_LIMIT: i32 = 0x4000_0000;

/// The biome chosen from the generator's two draws: grass two times in
/// three, otherwise one of sand, snow and goo by a two-stage modulo choice
/// over the second draw from [0, 10).
pub open spec fn spec_biome_of(d3: int, d10: int) -> TileType {
    if d3 != 0 {
        TileType::Grass
    } else if d10 % 2 == 0 {
        TileType::Sand
    } else if d10 % 3 == 0 {
        TileType::Snow
    } else {
        TileType::Goo
    }
}

/// The kinds a biome draw can produce (everything but walls and wood).
pub open spec fn is_biome(t: TileType) -> bool {
    t == TileType::Grass || t == TileType::Sand || t == TileType::Snow || t == TileType::Goo
}

/// Cells forced to be walls by the generator, in chunk-local coordinates.
pub open spec fn spec_wall_cell(x: int, y: int) -> bool {
    x == 0 && y % 3 == 0 && x % 3 == 0
}

fn biome_of(d3: i32, d10: i32) -> (r: TileType)
    requires
        0 <= d3 < 3,
        0 <= d10 < 10,
    ensures
        r == spec_biome_of(d3 as int, d10 as int),
{
    if d3 != 0 {
        TileType::Grass
    } else if (d10 as u32) % 2 == 0 {
        TileType::Sand
    } else if (d10 as u32) % 3 == 0 {
        TileType::Snow
    } else {
        TileType::Goo
    }
}

/// A fixed-size rectangular grid of tiles with a tile-index origin baked
/// into each tile's position at construction.
pub struct TileMap {
    pub tiles: Vec<Vec<Tile>>,
    pub tile_size: u32,
}

impl TileMap {
    pub open spec fn height(self) -> int {
        self.tiles@.len() as int
    }

    pub open spec fn width(self) -> int {
        self.tiles@[0]@.len() as int
    }

    /// The tile-index origin of the map, as baked into its first tile.
    pub open spec fn origin(self) -> Vector2D {
        self.tiles@[0]@[0].pos
    }

    pub open spec fn rows_uniform(self) -> bool {
        forall|y: int|
            0 <= y < self.height() ==> (#[trigger] self.tiles@[y])@.len() == self.width()
    }

    /// Invariant: the tile at cell (x, y) carries position origin + (x, y).
    pub open spec fn positions_baked(self) -> bool {
        forall|y: int, x: int|
            0 <= y < self.height() && 0 <= x < self.width() ==> {
                &&& (#[trigger] self.tiles@[y]@[x]).pos.x == self.origin().x + x
                &&& self.tiles@[y]@[x].pos.y == self.origin().y + y
            }
    }

    pub open spec fn wf(self) -> bool {
        &&& 1 <= self.tile_size
        &&& 1 <= self.height()
        &&& 1 <= self.width()
        &&& self.rows_uniform()
        &&& self.width() * (self.tile_size as int) <= MAP_EXTENT_LIMIT as int
        &&& self.height() * (self.tile_size as int) <= MAP_EXTENT_LIMIT as int
        &&& 0 <= self.origin().x
        &&& 0 <= self.origin().y
        &&& self.origin().x + self.width() <= MAP_EXTENT_LIMIT as int
        &&& self.origin().y + self.height() <= MAP_EXTENT_LIMIT as int
        &&& self.positions_baked()
    }

    /// All cells carry `biome`, except the generator's forced wall cells.
    pub open spec fn generated_with(self, biome: TileType) -> bool {
        forall|y: int, x: int|
            0 <= y < self.height() && 0 <= x < self.width()
                ==> (#[trigger] self.tiles@[y]@[x]).kind == (if spec_wall_cell(x, y) {
                TileType::Wall
            } else {
                biome
            })
    }

    pub open spec fn index_ok(self, x: int, y: int) -> bool {
        0 <= x < self.width() && 0 <= y < self.height()
    }

    /// The tile-index cell that a position falls into: each coordinate is
    /// divided by the tile size, rounding toward minus infinity.
    pub open spec fn spec_index_x(self, pos: Vector2D) -> int {
        pos.x as int / self.tile_size as int
    }

    pub open spec fn spec_index_y(self, pos: Vector2D) -> int {
        pos.y as int / self.tile_size as int
    }

    /// Position-to-tile resolution: the tile whose cell contains `pos`, or
    /// nothing when the cell index lies outside the map.
    pub open spec fn spec_tile_from_position(self, pos: Vector2D) -> Option<Tile> {
        let ix = self.spec_index_x(pos);
        let iy = self.spec_index_y(pos);
        if self.index_ok(ix, iy) {
            Some(self.tiles@[iy]@[ix])
        } else {
            None
        }
    }

    /// Builds a `w` by `h` map from the two given generator draws: one
    /// biome for the whole map, walls at the forced cells, and positions
    /// offset by `from_coord` (or the zero origin).
    #[verifier::loop_isolation(false)]
    pub fn new_from_draws(
        w: u32,
        h: u32,
        tile_size: u32,
        from_coord: Option<Vector2D>,
        d3: i32,
        d10: i32,
    ) -> (r: TileMap)
        requires
            1 <= w,
            1 <= h,
            1 <= tile_size,
            w * tile_size <= MAP_EXTENT_LIMIT as int,
            h * tile_size <= MAP_EXTENT_LIMIT as int,
            from_coord matches Some(o) ==> 0 <= o.x && o.x + w <= MAP_EXTENT_LIMIT as int
                && 0 <= o.y && o.y + h <= MAP_EXTENT_LIMIT as int,
            0 <= d3 < 3,
            0 <= d10 < 10,
        ensures
            r.wf(),
            r.width() == w,
            r.height() == h,
            r.tile_size == tile_size,
            r.origin() == (match from_coord {
                Some(o) => o,
                None => Vector2D { x: 0, y: 0 },
            }),
            r.generated_with(spec_biome_of(d3 as int, d10 as int)),
    {
        let base: Vector2D = match from_coord {
            Some(o) => o,
            None => Vector2D { x: 0, y: 0 },
        };
        proof {
            vstd::arithmetic::mul::lemma_mul_inequality(1, w as int, tile_size as int);
            vstd::arithmetic::mul::lemma_mul_inequality(1, h as int, tile_size as int);
            vstd::arithmetic::mul::lemma_mul_is_commutative(w as int, tile_size as int);
            vstd::arithmetic::mul::lemma_mul_is_commutative(h as int, tile_size as int);
            vstd::arithmetic::mul::lemma_mul_inequality(1, tile_size as int, w as int);
            vstd::arithmetic::mul::lemma_mul_inequality(1, tile_size as int, h as int);
        }
        let biome = biome_of(d3, d10);
        let mut tiles: Vec<Vec<Tile>> = Vec::new();
        let mut y: u32 = 0;
        while y < h
            invariant
                y <= h,
                tiles@.len() == y as int,
                forall|yy: int|
                    0 <= yy < y as int ==> (#[trigger] tiles@[yy])@.len() == w as int,
                forall|yy: int, xx: int|
                    0 <= yy < y as int && 0 <= xx < w as int ==> {
                        &&& (#[trigger] tiles@[yy]@[xx]).pos.x == base.x + xx
                        &&& tiles@[yy]@[xx].pos.y == base.y + yy
                        &&& tiles@[yy]@[xx].kind == (if spec_wall_cell(xx, yy) {
                            TileType::Wall
                        } else {
                            biome
                        })
                    },
            decreases h - y,
        {
            let mut row: Vec<Tile> = Vec::new();
            let mut x: u32 = 0;
            while x < w
                invariant
                    x <= w,
                    row@.len() == x as int,
                    forall|xx: int|
                        0 <= xx < x as int ==> {
                            &&& (#[trigger] row@[xx]).pos.x == base.x + xx
                            &&& row@[xx].pos.y == base.y + y as int
                            &&& row@[xx].kind == (if spec_wall_cell(xx, y as int) {
                                TileType::Wall
                            } else {
                                biome
                            })
                        },
                decreases w - x,
            {
                let kind = if x == 0 && y % 3 == 0 && x % 3 == 0 {
                    TileType::Wall
                } else {
                    biome
                };
                let pos = Vector2D { x: base.x + x as i32, y: base.y + y as i32 };
                row.push(Tile { pos, kind });
                x = x + 1;
            }
            tiles.push(row);
            y = y + 1;
        }
        TileMap { tiles, tile_size }
    }

    /// Builds a map with a biome drawn from the ambient random source; the
    /// structure is fixed, the biome is one of the four drawable kinds.
    pub fn new(w: u32, h: u32, tile_size: u32, from_coord: Option<Vector2D>) -> (r: TileMap)
        requires
            1 <= w,
            1 <= h,
            1 <= tile_size,
            w * tile_size <= MAP_EXTENT_LIMIT as int,
            h * tile_size <= MAP_EXTENT_LIMIT as int,
            from_coord matches Some(o) ==> 0 <= o.x && o.x + w <= MAP_EXTENT_LIMIT as int
                && 0 <= o.y && o.y + h <= MAP_EXTENT_LIMIT as int,
        ensures
            r.wf(),
            r.width() == w,
            r.height() == h,
            r.tile_size == tile_size,
            r.origin() == (match from_coord {
                Some(o) => o,
                None => Vector2D { x: 0, y: 0 },
            }),
            exists|b: TileType| is_biome(b) && r.generated_with(b),
    {
        let d3 = random_in_range(0, 3);
        let d10 = random_in_range(0, 10);
        let r = TileMap::new_from_draws(w, h, tile_size, from_coord, d3, d10);
        proof {
            let b = spec_biome_of(d3 as int, d10 as int);
            assert(is_biome(b) && r.generated_with(b));
        }
        r
    }

    /// The tile-index cell containing `position` (possibly outside the map).
    pub fn get_indexes_from_position(&self, position: &Vector2D) -> (r: Vector2D)
        requires
            self.wf(),
        ensures
            r.x as int == self.spec_index_x(*position),
            r.y as int == self.spec_index_y(*position),
    {
        proof {
            vstd::arithmetic::mul::lemma_mul_inequality(1, self.width(), self.tile_size as int);
            vstd::arithmetic::mul::lemma_mul_is_commutative(self.width(), self.tile_size as int);
        }
        let ts = self.tile_size as i32;
        Vector2D { x: floor_div(position.x, ts), y: floor_div(position.y, ts) }
    }

    /// Whether (x, y) is a cell of this map.
    pub fn indexes_valid(&self, x: i32, y: i32) -> (r: bool)
        requires
            self.wf(),
        ensures
            r == self.index_ok(x as int, y as int),
    {
        x >= 0 && y >= 0 && (x as usize) < self.tiles[0].len() && (y as usize) < self.tiles.len()
    }

    /// The tile at cell `index`, or nothing when the index is out of range.
    pub fn get_tile_at(&self, index: &Vector2D) -> (r: Option<Tile>)
        requires
            self.wf(),
        ensures
            r == (if self.index_ok(index.x as int, index.y as int) {
                Some(self.tiles@[index.y as int]@[index.x as int])
            } else {
                None::<Tile>
            }),
    {
        if self.indexes_valid(index.x, index.y) {
            Some(self.tiles[index.y as usize][index.x as usize])
        } else {
            None
        }
    }

    /// The cell containing `position`, or nothing when it is off the map.
    pub fn get_indexes_from_position_strict(&self, position: &Vector2D) -> (r: Option<
        Vector2D,
    >)
        requires
            self.wf(),
        ensures
            r == (if self.index_ok(self.spec_index_x(*position), self.spec_index_y(*position)) {
                Some(Vector2D {
                    x: self.spec_index_x(*position) as i32,
                    y: self.spec_index_y(*position) as i32,
                })
            } else {
                None::<Vector2D>
            }),
    {
        let indexes = self.get_indexes_from_position(position);
        if self.indexes_valid(indexes.x, indexes.y) {
            Some(indexes)
        } else {
            None
        }
    }

    /// Position-to-tile resolution for this map alone.
    pub fn get_tile_from_position(&self, position: &Vector2D) -> (r: Option<Tile>)
        requires
            self.wf(),
        ensures
            r == self.spec_tile_from_position(*position),
    {
        match self.get_indexes_from_position_strict(position) {
            Some(indexes) => Some(self.tiles[indexes.y as usize][indexes.x as usize]),
            None => None,
        }
    }
}

/// A chunk holding one of the four drawable biomes (plus its forced walls).
pub open spec fn chunk_has_biome(ch: TileMap) -> bool {
    exists|b: TileType| is_biome(b) && ch.generated_with(b)
}

/// A grid of uniformly sized `TileMap` chunks forming the full playable
/// world; resolves world positions to chunks and tiles across chunk
/// boundaries.
pub struct TileMapHudge {
    pub tilemaps: Vec<Vec<TileMap>>,
    pub tile_size: u32,
    pub nb_tilemap_column: u32,
    pub nb_tilemap_line: u32,
    pub width_one_tilemap: u32,
    pub height_one_tilemap: u32,
}

impl TileMapHudge {
    pub open spec fn cols(self) -> int {
        self.nb_tilemap_column as int
    }

    pub open spec fn rows(self) -> int {
        self.nb_tilemap_line as int
    }

    pub open spec fn chunk_w(self) -> int {
        self.width_one_tilemap as int
    }

    pub open spec fn chunk_h(self) -> int {
        self.height_one_tilemap as int
    }

    /// Invariant: uniform chunk sizes, shared tile size, and the chunk at
    /// grid cell (c, r) owns the tile-index origin (c*chunk_w, r*chunk_h).
    pub open spec fn wf(self) -> bool {
        &&& 1 <= self.tile_size
        &&& 1 <= self.cols()
        &&& 1 <= self.rows()
        &&& 1 <= self.chunk_w()
        &&& 1 <= self.chunk_h()
        &&& self.tilemaps@.len() == self.rows()
        &&& forall|r: int|
            0 <= r < self.rows() ==> (#[trigger] self.tilemaps@[r])@.len() == self.cols()
        &&& (self.cols() * self.chunk_w()) * (self.tile_size as int) <= MAP_EXTENT_LIMIT as int
        &&& (self.rows() * self.chunk_h()) * (self.tile_size as int) <= MAP_EXTENT_LIMIT as int
        &&& forall|r: int, c: int|
            0 <= r < self.rows() && 0 <= c < self.cols() ==> {
                let ch = #[trigger] self.tilemaps@[r]@[c];
                &&& ch.wf()
                &&& ch.tile_size == self.tile_size
                &&& ch.width() == self.chunk_w()
                &&& ch.height() == self.chunk_h()
                &&& ch.origin().x == c * self.chunk_w()
                &&& ch.origin().y == r * self.chunk_h()
            }
    }

    /// Absolute tile index of a position (per axis, floored).
    pub open spec fn spec_tile_index_x(self, pos: Vector2D) -> int {
        pos.x as int / self.tile_size as int
    }

    pub open spec fn spec_tile_index_y(self, pos: Vector2D) -> int {
        pos.y as int / self.tile_size as int
    }

    /// Chunk index of a position: the tile index divided by this axis's own
    /// chunk dimension.
    pub open spec fn spec_chunk_index_x(self, pos: Vector2D) -> int {
        self.spec_tile_index_x(pos) / self.chunk_w()
    }

    pub open spec fn spec_chunk_index_y(self, pos: Vector2D) -> int {
        self.spec_tile_index_y(pos) / self.chunk_h()
    }

    pub open spec fn chunk_index_ok(self, cx: int, cy: int) -> bool {
        0 <= cx < self.cols() && 0 <= cy < self.rows()
    }

    /// Position-to-tile resolution across chunk boundaries: resolve the
    /// owning chunk, subtract its tile-index origin from the absolute tile
    /// index, and look the local cell up inside the chunk.
    pub open spec fn spec_tile_from_position(self, pos: Vector2D) -> Option<Tile> {
        let tx = self.spec_tile_index_x(pos);
        let ty = self.spec_tile_index_y(pos);
        let cx = tx / self.chunk_w();
        let cy = ty / self.chunk_h();
        if self.chunk_index_ok(cx, cy) {
            let ch = self.tilemaps@[cy]@[cx];
            let lx = tx - cx * self.chunk_w();
            let ly = ty - cy * self.chunk_h();
            if ch.index_ok(lx, ly) {
                Some(ch.tiles@[ly]@[lx])
            } else {
                None
            }
        } else {
            None
        }
    }

    /// Builds `w` by `h` chunks of `width_one` by `height_one` tiles, each
    /// chunk drawing its own biome from the ambient random source.
    #[verifier::loop_isolation(false)]
    pub fn new(w: u32, h: u32, tile_size: u32, width_one: u32, height_one: u32) -> (r:
        TileMapHudge)
        requires
            1 <= w,
            1 <= h,
            1 <= tile_size,
            1 <= width_one,
            1 <= height_one,
            (w * width_one) * tile_size <= MAP_EXTENT_LIMIT as int,
            (h * height_one) * tile_size <= MAP_EXTENT_LIMIT as int,
        ensures
            r.wf(),
            r.cols() == w,
            r.rows() == h,
            r.chunk_w() == width_one,
            r.chunk_h() == height_one,
            r.tile_size == tile_size,
            forall|rr: int, cc: int|
                0 <= rr < h as int && 0 <= cc < w as int ==> chunk_has_biome(
                    #[trigger] r.tilemaps@[rr]@[cc],
                ),
    {
        proof {
            assert(w * width_one <= MAP_EXTENT_LIMIT as int && width_one * tile_size
                <= MAP_EXTENT_LIMIT as int && h * height_one <= MAP_EXTENT_LIMIT as int
                && height_one * tile_size <= MAP_EXTENT_LIMIT as int) by (nonlinear_arith)
                requires
                    1 <= w,
                    1 <= h,
                    1 <= tile_size,
                    1 <= width_one,
                    1 <= height_one,
                    (w * width_one) * tile_size <= MAP_EXTENT_LIMIT as int,
                    (h * height_one) * tile_size <= MAP_EXTENT_LIMIT as int,
            ;
        }
        let mut tilemaps: Vec<Vec<TileMap>> = Vec::new();
        let mut line: u32 = 0;
        while line < h
            invariant
                line <= h,
                tilemaps@.len() == line as int,
                forall|rr: int|
                    0 <= rr < line as int ==> (#[trigger] tilemaps@[rr])@.len() == w as int,
                forall|rr: int, cc: int|
                    0 <= rr < line as int && 0 <= cc < w as int ==> {
                        let ch = #[trigger] tilemaps@[rr]@[cc];
                        &&& ch.wf()
                        &&& ch.tile_size == tile_size
                        &&& ch.width() == width_one as int
                        &&& ch.height() == height_one as int
                        &&& ch.origin().x == cc * width_one as int
                        &&& ch.origin().y == rr * height_one as int
                        &&& chunk_has_biome(ch)
                    },
            decreases h - line,
        {
            let mut row: Vec<TileMap> = Vec::new();
            let mut col: u32 = 0;
            while col < w
                invariant
                    col <= w,
                    row@.len() == col as int,
                    forall|cc: int|
                        0 <= cc < col as int ==> {
                            let ch = #[trigger] row@[cc];
                            &&& ch.wf()
                            &&& ch.tile_size == tile_size
                            &&& ch.width() == width_one as int
                            &&& ch.height() == height_one as int
                            &&& ch.origin().x == cc * width_one as int
                            &&& ch.origin().y == line as int * height_one as int
                            &&& chunk_has_biome(ch)
                        },
                decreases w - col,
            {
                proof {
                    assert(col * width_one >= 0 && col * width_one + width_one <= MAP_EXTENT_LIMIT
                        as int && line * height_one >= 0 && line * height_one + height_one
                        <= MAP_EXTENT_LIMIT as int) by (nonlinear_arith)
                        requires
                            0 <= col < w,
                            0 <= line < h,
                            1 <= width_one,
                            1 <= height_one,
                            1 <= tile_size,
                            (w * width_one) * tile_size <= MAP_EXTENT_LIMIT as int,
                            (h * height_one) * tile_size <= MAP_EXTENT_LIMIT as int,
                    ;
                }
                let ox: u32 = col * width_one;
                let oy: u32 = line * height_one;
                let chunk = TileMap::new(
                    width_one,
                    height_one,
                    tile_size,
                    Some(Vector2D { x: ox as i32, y: oy as i32 }),
                );
                row.push(chunk);
                col = col + 1;
            }
            tilemaps.push(row);
            line = line + 1;
        }
        TileMapHudge {
            tilemaps,
            tile_size,
            nb_tilemap_column: w,
            nb_tilemap_line: h,
            width_one_tilemap: width_one,
            height_one_tilemap: height_one,
        }
    }

    /// The chunk-grid cell that a position falls into (possibly outside the
    /// grid); each axis uses its own chunk dimension.
    pub fn get_tilemap_index_from_position(&self, position: &Vector2D) -> (r: Vector2D)
        requires
            self.wf(),
        ensures
            r.x as int == self.spec_chunk_index_x(*position),
            r.y as int == self.spec_chunk_index_y(*position),
    {
        proof {
            assert(self.tile_size as int <= MAP_EXTENT_LIMIT as int && self.chunk_w()
                <= MAP_EXTENT_LIMIT as int && self.chunk_h() <= MAP_EXTENT_LIMIT as int)
                by (nonlinear_arith)
                requires
                    1 <= self.tile_size,
                    1 <= self.cols(),
                    1 <= self.rows(),
                    1 <= self.chunk_w(),
                    1 <= self.chunk_h(),
                    (self.cols() * self.chunk_w()) * (self.tile_size as int) <= MAP_EXTENT_LIMIT
                        as int,
                    (self.rows() * self.chunk_h()) * (self.tile_size as int) <= MAP_EXTENT_LIMIT
                        as int,
            ;
        }
        let ts = self.tile_size as i32;
        let index_tile_x = floor_div(position.x, ts);
        let index_tile_y = floor_div(position.y, ts);
        let index_tilemap_x = floor_div(index_tile_x, self.width_one_tilemap as i32);
        let index_tilemap_y = floor_div(index_tile_y, self.height_one_tilemap as i32);
        Vector2D { x: index_tilemap_x, y: index_tilemap_y }
    }

    /// Whether (x, y) is a cell of the chunk grid.
    pub fn indexes_tilemap_valid(&self, x: i32, y: i32) -> (r: bool)
        requires
            self.wf(),
        ensures
            r == self.chunk_index_ok(x as int, y as int),
    {
        proof {
            assert(self.cols() <= MAP_EXTENT_LIMIT as int && self.rows() <= MAP_EXTENT_LIMIT
                as int) by (nonlinear_arith)
                requires
                    1 <= self.tile_size,
                    1 <= self.cols(),
                    1 <= self.rows(),
                    1 <= self.chunk_w(),
                    1 <= self.chunk_h(),
                    (self.cols() * self.chunk_w()) * (self.tile_size as int) <= MAP_EXTENT_LIMIT
                        as int,
                    (self.rows() * self.chunk_h()) * (self.tile_size as int) <= MAP_EXTENT_LIMIT
                        as int,
            ;
        }
        x >= 0 && y >= 0 && x < self.nb_tilemap_column as i32 && y < self.nb_tilemap_line as i32
    }

    /// The chunk at a grid cell known to be valid.
    pub fn get_tilemap_from_index(&self, index: &Vector2D) -> (r: &TileMap)
        requires
            self.wf(),
            self.chunk_index_ok(index.x as int, index.y as int),
        ensures
            *r == self.tilemaps@[index.y as int]@[index.x as int],
    {
        &self.tilemaps[index.y as usize][index.x as usize]
    }

    /// The chunk owning `position`, or nothing when the position falls
    /// outside the grid.
    pub fn get_tilemap_from_position(&self, position: &Vector2D) -> (r: Option<&TileMap>)
        requires
            self.wf(),
        ensures
            r is Some <==> self.chunk_index_ok(
                self.spec_chunk_index_x(*position),
                self.spec_chunk_index_y(*position),
            ),
            r matches Some(ch) ==> *ch == self.tilemaps@[self.spec_chunk_index_y(
                *position,
            )]@[self.spec_chunk_index_x(*position)],
    {
        let index_current = self.get_tilemap_index_from_position(position);
        if self.indexes_tilemap_valid(index_current.x, index_current.y) {
            Some(self.get_tilemap_from_index(&index_current))
        } else {
            None
        }
    }

    /// The grid's bounding box in world coordinates: `cols*chunk_w` by
    /// `rows*chunk_h` tiles of `tile_size` pixels, anchored at the origin.
    pub open spec fn pos_in_bounds(self, pos: Vector2D) -> bool {
        &&& 0 <= pos.x < (self.cols() * self.chunk_w()) * (self.tile_size as int)
        &&& 0 <= pos.y < (self.rows() * self.chunk_h()) * (self.tile_size as int)
    }

    /// Law: a position strictly outside the grid's bounding box resolves to
    /// no tile.
    pub proof fn lemma_tile_outside_is_none(self, pos: Vector2D)
        requires
            self.wf(),
            !self.pos_in_bounds(pos),
        ensures
            self.spec_tile_from_position(pos) is None,
    {
        let ts = self.tile_size as int;
        let w1 = self.chunk_w();
        let h1 = self.chunk_h();
        let tx = self.spec_tile_index_x(pos);
        let ty = self.spec_tile_index_y(pos);
        if pos.x < 0 {
            crate::numeric::lemma_floor_div_ordering(pos.x as int, ts, 0);
            crate::numeric::lemma_floor_div_ordering(tx, w1, 0);
        } else if pos.x >= (self.cols() * w1) * ts {
            crate::numeric::lemma_floor_div_ordering(pos.x as int, ts, self.cols() * w1);
            crate::numeric::lemma_floor_div_ordering(tx, w1, self.cols());
            assert(self.cols() * w1 * ts == (self.cols() * w1) * ts);
            assert(self.cols() * w1 <= tx ==> self.cols() <= tx / w1) by {
                crate::numeric::lemma_floor_div_ordering(tx, w1, self.cols());
            }
        } else if pos.y < 0 {
            crate::numeric::lemma_floor_div_ordering(pos.y as int, ts, 0);
            crate::numeric::lemma_floor_div_ordering(ty, h1, 0);
        } else {
            crate::numeric::lemma_floor_div_ordering(pos.y as int, ts, self.rows() * h1);
            crate::numeric::lemma_floor_div_ordering(ty, h1, self.rows());
        }
    }

    /// Law: a position inside the bounding box always resolves to a tile.
    pub proof fn lemma_tile_inside_is_some(self, pos: Vector2D)
        requires
            self.wf(),
            self.pos_in_bounds(pos),
        ensures
            self.spec_tile_from_position(pos) is Some,
            self.chunk_index_ok(self.spec_chunk_index_x(pos), self.spec_chunk_index_y(pos)),
    {
        let ts = self.tile_size as int;
        let w1 = self.chunk_w();
        let h1 = self.chunk_h();
        let tx = self.spec_tile_index_x(pos);
        let ty = self.spec_tile_index_y(pos);
        let cx = self.spec_chunk_index_x(pos);
        let cy = self.spec_chunk_index_y(pos);
        crate::numeric::lemma_floor_div_ordering(pos.x as int, ts, 0);
        crate::numeric::lemma_floor_div_ordering(pos.y as int, ts, 0);
        crate::numeric::lemma_floor_div_ordering(pos.x as int, ts, self.cols() * w1);
        crate::numeric::lemma_floor_div_ordering(pos.y as int, ts, self.rows() * h1);
        crate::numeric::lemma_floor_div_ordering(tx, w1, 0);
        crate::numeric::lemma_floor_div_ordering(ty, h1, 0);
        crate::numeric::lemma_floor_div_ordering(tx, w1, self.cols());
        crate::numeric::lemma_floor_div_ordering(ty, h1, self.rows());
        crate::numeric::lemma_floor_div_bounds(tx, w1);
        crate::numeric::lemma_floor_div_bounds(ty, h1);
        assert(self.chunk_index_ok(cx, cy));
        let ch = self.tilemaps@[cy]@[cx];
        assert(ch.index_ok(tx - cx * w1, ty - cy * h1)) by {
            vstd::arithmetic::mul::lemma_mul_is_commutative(cx, w1);
            vstd::arithmetic::mul::lemma_mul_is_commutative(cy, h1);
        }
    }

    /// Law: for an in-bounds position, resolving a tile through the grid
    /// equals resolving the owning chunk and asking it for the position
    /// relative to the chunk's world-space origin.
    pub proof fn lemma_grid_tile_matches_chunk(self, pos: Vector2D)
        requires
            self.wf(),
            self.pos_in_bounds(pos),
        ensures
            ({
                let cx = self.spec_chunk_index_x(pos);
                let cy = self.spec_chunk_index_y(pos);
                let ch = self.tilemaps@[cy]@[cx];
                let local = Vector2D {
                    x: (pos.x - (cx * self.chunk_w()) * (self.tile_size as int)) as i32,
                    y: (pos.y - (cy * self.chunk_h()) * (self.tile_size as int)) as i32,
                };
                self.spec_tile_from_position(pos) == ch.spec_tile_from_position(local)
            }),
    {
        self.lemma_tile_inside_is_some(pos);
        let ts = self.tile_size as int;
        let w1 = self.chunk_w();
        let h1 = self.chunk_h();
        let tx = self.spec_tile_index_x(pos);
        let ty = self.spec_tile_index_y(pos);
        let cx = self.spec_chunk_index_x(pos);
        let cy = self.spec_chunk_index_y(pos);
        let ch = self.tilemaps@[cy]@[cx];
        crate::numeric::lemma_floor_div_bounds(pos.x as int, ts);
        crate::numeric::lemma_floor_div_bounds(pos.y as int, ts);
        crate::numeric::lemma_floor_div_bounds(tx, w1);
        crate::numeric::lemma_floor_div_bounds(ty, h1);
        let rx = pos.x - ts * tx;
        let ry = pos.y - ts * ty;
        let lpx = pos.x - (cx * w1) * ts;
        let lpy = pos.y - (cy * h1) * ts;
        assert(0 <= lpx < w1 * ts && lpx == (tx - cx * w1) * ts + rx && 0 <= lpy < h1 * ts && lpy
            == (ty - cy * h1) * ts + ry && w1 * ts <= MAP_EXTENT_LIMIT as int && h1 * ts
            <= MAP_EXTENT_LIMIT as int) by (nonlinear_arith)
            requires
                1 <= ts,
                1 <= w1,
                1 <= h1,
                1 <= self.cols(),
                1 <= self.rows(),
                (self.cols() * w1) * ts <= MAP_EXTENT_LIMIT as int,
                (self.rows() * h1) * ts <= MAP_EXTENT_LIMIT as int,
                ts * tx <= pos.x < ts * tx + ts,
                ts * ty <= pos.y < ts * ty + ts,
                w1 * cx <= tx < w1 * cx + w1,
                h1 * cy <= ty < h1 * cy + h1,
                rx == pos.x - ts * tx,
                ry == pos.y - ts * ty,
                lpx == pos.x - (cx * w1) * ts,
                lpy == pos.y - (cy * h1) * ts,
        ;
        vstd::arithmetic::div_mod::lemma_fundamental_div_mod_converse(lpx, ts, tx - cx * w1, rx);
        vstd::arithmetic::div_mod::lemma_fundamental_div_mod_converse(lpy, ts, ty - cy * h1, ry);
        let local = Vector2D { x: lpx as i32, y: lpy as i32 };
        assert(ch.spec_index_x(local) == tx - cx * w1);
        assert(ch.spec_index_y(local) == ty - cy * h1);
        assert(ch.index_ok(tx - cx * w1, ty - cy * h1)) by {
            vstd::arithmetic::mul::lemma_mul_is_commutative(cx, w1);
            vstd::arithmetic::mul::lemma_mul_is_commutative(cy, h1);
        }
    }

    /// Position-to-tile resolution across the whole grid.
    pub fn get_tile_from_position(&self, position: &Vector2D) -> (r: Option<Tile>)
        requires
            self.wf(),
        ensures
            r == self.spec_tile_from_position(*position),
    {
        let index_tm = self.get_tilemap_index_from_position(position);
        match self.get_tilemap_from_position(position) {
            Some(tilemap) => {
                let ts = self.tile_size as i32;
                proof {
                    assert(self.tile_size as int <= MAP_EXTENT_LIMIT as int) by (nonlinear_arith)
                        requires
                            1 <= self.tile_size,
                            1 <= self.cols(),
                            1 <= self.chunk_w(),
                            (self.cols() * self.chunk_w()) * (self.tile_size as int)
                                <= MAP_EXTENT_LIMIT as int,
                    ;
                }
                let index_x = floor_div(position.x, ts);
                let index_y = floor_div(position.y, ts);
                proof {
                    let w1 = self.chunk_w();
                    let h1 = self.chunk_h();
                    crate::numeric::lemma_floor_div_bounds(index_x as int, w1);
                    crate::numeric::lemma_floor_div_bounds(index_y as int, h1);
                    crate::numeric::lemma_floor_div_ordering(index_x as int, w1, 0);
                    crate::numeric::lemma_floor_div_ordering(index_y as int, h1, 0);
                    vstd::arithmetic::mul::lemma_mul_is_commutative(index_tm.x as int, w1);
                    vstd::arithmetic::mul::lemma_mul_is_commutative(index_tm.y as int, h1);
                }
                let real_index = Vector2D {
                    x: index_x - index_tm.x * (self.width_one_tilemap as i32),
                    y: index_y - index_tm.y * (self.height_one_tilemap as i32),
                };
                tilemap.get_tile_at(&real_index)
            },
            None => None,
        }
    }
}

} // verus!
