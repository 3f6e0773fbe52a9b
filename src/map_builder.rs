//! Fluent construction of a map: sizes, projection, padding and overhang
//! mode, then the tiles, then the derived geometry.
use vstd::prelude::*;

use crate::map::{MapIndexer, TileMap};
use crate::map_uniform::{MapError, MapUniform};
use crate::math::{det2, IVec2, UVec2};
use crate::overhang::underhang_directions;
use crate::tile_projection::TileProjection;

verus! {

/// Builder of a `TileMap`. Starts with the identity projection, no padding, and
/// the perspective overhang mode with both over- and underhangs.
pub struct MapBuilder<A, U> {
    pub map: TileMap<A, U>,
}

impl<A, U> MapBuilder<A, U> {
    /// The configuration is in range.
    pub open spec fn wf(&self) -> bool {
        self.map.map_uniform.wf()
    }

    /// The map that `build` makes from this configuration, as far as the
    /// configuration decides it.
    pub open spec fn built(&self, m: TileMap<A, U>) -> bool {
        let c = self.map;
        &&& self.built_geometry(m)
        &&& m.atlas_texture == c.atlas_texture
        &&& m.pattern_atlas_texture == c.pattern_atlas_texture
        &&& m.user_data == c.user_data
    }

    /// The geometry and overhang configuration of `m` are those that this
    /// configuration decides, derived values included.
    pub open spec fn built_geometry(&self, m: TileMap<A, U>) -> bool {
        let c = self.map;
        &&& m.wf()
        &&& m.map_uniform == (MapUniform {
            world_size: m.map_uniform.world_size,
            world_offset: m.map_uniform.world_offset,
            inverse_projection: m.map_uniform.inverse_projection,
            inverse_projection_den: m.map_uniform.inverse_projection_den,
            ..c.map_uniform
        })
        &&& m.map_uniform.bounds_derived()
        &&& m.map_uniform.inverse_derived()
        &&& m.perspective_defs@ == underhang_directions(
            c.map_uniform.projection,
            c.force_underhangs@,
        )
        &&& m.perspective_underhangs == c.perspective_underhangs
        &&& m.perspective_overhangs == c.perspective_overhangs
        &&& m.dominance_overhangs == c.dominance_overhangs
        &&& m.force_underhangs == c.force_underhangs
    }

    /// A builder for a map of `map_size` tiles, each `tile_size` pixels,
    /// drawn from the given atlas.
    pub fn new(map_size: UVec2, atlas_texture: A, tile_size: UVec2) -> (r: Self)
        where
            U: Default,
        requires
            map_size.x <= 65536,
            map_size.y <= 65536,
            map_size.x * map_size.y <= usize::MAX,
            1 <= tile_size.x <= 65536,
            1 <= tile_size.y <= 65536,
        ensures
            r.wf(),
            r.map.map_uniform == MapUniform::new_spec(map_size, tile_size),
            r.map.atlas_texture == atlas_texture,
            r.map.pattern_atlas_texture.is_none(),
            r.map.perspective_overhangs,
            r.map.perspective_underhangs,
            !r.map.dominance_overhangs,
            r.map.force_underhangs@.len() == 0,
            r.map.perspective_defs@.len() == 0,
    {
        Self::custom(map_size, atlas_texture, tile_size, U::default())
    }

    /// As `new`, with the given user data.
    pub fn custom(map_size: UVec2, atlas_texture: A, tile_size: UVec2, user_data: U) -> (r: Self)
        requires
            map_size.x <= 65536,
            map_size.y <= 65536,
            map_size.x * map_size.y <= usize::MAX,
            1 <= tile_size.x <= 65536,
            1 <= tile_size.y <= 65536,
        ensures
            r.wf(),
            r.map.map_uniform == MapUniform::new_spec(map_size, tile_size),
            r.map.atlas_texture == atlas_texture,
            r.map.pattern_atlas_texture.is_none(),
            r.map.user_data == user_data,
            r.map.perspective_overhangs,
            r.map.perspective_underhangs,
            !r.map.dominance_overhangs,
            r.map.force_underhangs@.len() == 0,
            r.map.perspective_defs@.len() == 0,
    {
        MapBuilder {
            map: TileMap {
                map_uniform: MapUniform::new(map_size, tile_size),
                user_data,
                tiles: MapIndexer::new(UVec2 { x: 0, y: 0 }),
                atlas_texture,
                pattern_atlas_texture: None,
                perspective_defs: Vec::new(),
                perspective_underhangs: true,
                perspective_overhangs: true,
                dominance_overhangs: false,
                force_underhangs: Vec::new(),
            },
        }
    }

    /// Use pattern tiles from a second atlas, `size_factor` times the tile
    /// size, with `n_pattern_indices` indices.
    pub fn with_pattern_tiles(self, pattern_atlas: A, size_factor: u32, n_pattern_indices: u32) -> (r:
        Self)
        requires
            self.wf(),
        ensures
            r.wf(),
            r.map == (TileMap {
                map_uniform: MapUniform {
                    atlas_tile_size_factor: size_factor as i32,
                    n_pattern_indices,
                    ..self.map.map_uniform
                },
                pattern_atlas_texture: Some(pattern_atlas),
                ..self.map
            }),
    {
        let mut s = self;
        s.map.map_uniform.atlas_tile_size_factor = size_factor as i32;
        s.map.pattern_atlas_texture = Some(pattern_atlas);
        s.map.map_uniform.n_pattern_indices = n_pattern_indices;
        s
    }

    /// Use the given user data.
    pub fn with_user_data(self, new_user_data: U) -> (r: Self)
        requires
            self.wf(),
        ensures
            r.wf(),
            r.map == (TileMap { user_data: new_user_data, ..self.map }),
    {
        let mut s = self;
        s.map.user_data = new_user_data;
        s
    }

    /// Render with the given projection instead of the identity.
    pub fn with_projection(self, projection: TileProjection) -> (r: Self)
        requires
            self.wf(),
            projection.in_range(),
        ensures
            r.wf(),
            r.map == (TileMap {
                map_uniform: MapUniform {
                    projection: projection.projection,
                    projection_den: projection.denominator,
                    tile_anchor_point: projection.tile_anchor_point,
                    ..self.map.map_uniform
                },
                ..self.map
            }),
    {
        let mut s = self;
        s.map.map_uniform.set_projection(projection);
        s
    }

    /// The atlas padding: `inner` between tiles, `topleft` before the first
    /// row and column, `bottomright` after the last. They decide the atlas
    /// tile count, which must come out whole.
    pub fn with_padding(self, inner: UVec2, topleft: UVec2, bottomright: UVec2) -> (r: Self)
        requires
            self.wf(),
        ensures
            r.wf(),
            r.map == (TileMap {
                map_uniform: MapUniform {
                    inner_padding: inner,
                    outer_padding_topleft: topleft,
                    outer_padding_bottomright: bottomright,
                    ..self.map.map_uniform
                },
                ..self.map
            }),
    {
        let mut s = self;
        s.map.map_uniform.inner_padding = inner;
        s.map.map_uniform.outer_padding_topleft = topleft;
        s.map.map_uniform.outer_padding_bottomright = bottomright;
        s
    }

    /// Dominance mode: a tile with a higher index is drawn over its
    /// lower-indexed neighbors, in the atlas's padding area.
    pub fn with_dominance_overhang(self) -> (r: Self)
        requires
            self.wf(),
        ensures
            r.wf(),
            r.map == (TileMap {
                dominance_overhangs: true,
                perspective_overhangs: false,
                perspective_underhangs: false,
                ..self.map
            }),
    {
        let mut s = self;
        s.map.dominance_overhangs = true;
        s.map.perspective_overhangs = false;
        s.map.perspective_underhangs = false;
        s
    }

    /// Perspective mode: overlap follows the projected depth of neighbor
    /// directions.
    pub fn with_perspective_overhang(self) -> (r: Self)
        requires
            self.wf(),
        ensures
            r.wf(),
            r.map == (TileMap {
                dominance_overhangs: false,
                perspective_overhangs: true,
                perspective_underhangs: true,
                ..self.map
            }),
    {
        let mut s = self;
        s.map.dominance_overhangs = false;
        s.map.perspective_overhangs = true;
        s.map.perspective_underhangs = true;
        s
    }

    /// Perspective mode with the given underhang directions (e.g. `(-1,
    /// 1)`) instead of those of the projection; overhangs are the opposite
    /// directions.
    pub fn with_forced_underhangs(self, underhangs: Vec<IVec2>) -> (r: Self)
        requires
            self.wf(),
        ensures
            r.wf(),
            r.map == (TileMap {
                dominance_overhangs: false,
                perspective_overhangs: true,
                perspective_underhangs: true,
                force_underhangs: underhangs,
                ..self.map
            }),
    {
        let mut s = self;
        s.map.dominance_overhangs = false;
        s.map.perspective_underhangs = true;
        s.map.perspective_overhangs = true;
        s.map.force_underhangs = underhangs;
        s
    }

    /// Set the three overhang flags directly.
    pub fn with_overhangs(self, dominance: bool, perspective_under: bool, perspective_over: bool) -> (r:
        Self)
        requires
            self.wf(),
        ensures
            r.wf(),
            r.map == (TileMap {
                dominance_overhangs: dominance,
                perspective_underhangs: perspective_under,
                perspective_overhangs: perspective_over,
                ..self.map
            }),
    {
        let mut s = self;
        s.map.dominance_overhangs = dominance;
        s.map.perspective_underhangs = perspective_under;
        s.map.perspective_overhangs = perspective_over;
        s
    }

    /// Derive the inverse projection, the underhang directions and the
    /// bounding box of the configured map `map`, whose tiles are set.
    fn finish(map: TileMap<A, U>, config: Ghost<Self>) -> (r: Result<TileMap<A, U>, MapError>)
        requires
            map.wf(),
            map == (TileMap { tiles: map.tiles, ..config@.map }),
        ensures
            r.is_ok() <==> det2(config@.map.map_uniform.projection) != 0,
            r.is_err() ==> r == Err::<TileMap<A, U>, MapError>(MapError::SingularProjection),
            r.is_ok() ==> config@.built(r.unwrap()) && r.unwrap().tiles == map.tiles,
    {
        let mut map = map;
        match map.update_inverse_projection() {
            Ok(()) => {
                map.map_uniform.update_world_size();
                Ok(map)
            },
            Err(e) => Err(e),
        }
    }

    /// The configured map with a grid of its size, every cell 0.
    fn with_empty_grid(self) -> (r: TileMap<A, U>)
        requires
            self.wf(),
        ensures
            r.wf(),
            r == (TileMap { tiles: r.tiles, ..self.map }),
            r.tiles.cells() == Seq::new(
                (self.map.map_uniform.map_size.x * self.map.map_uniform.map_size.y) as nat,
                |i: int| 0u32,
            ),
    {
        let mut map = self.map;
        map.tiles = MapIndexer::new(map.map_uniform.map_size);
        map
    }

    /// Build the map, every cell 0. Fails when the projection is singular.
    pub fn build(self) -> (r: Result<TileMap<A, U>, MapError>)
        requires
            self.wf(),
        ensures
            r.is_ok() <==> det2(self.map.map_uniform.projection) != 0,
            r.is_err() ==> r == Err::<TileMap<A, U>, MapError>(MapError::SingularProjection),
            r.is_ok() ==> self.built(r.unwrap()) && forall|x: int, y: int| #[trigger]
                r.unwrap().tile(x, y) == 0,
    {
        let ghost config = self;
        let map = self.with_empty_grid();
        let r = Self::finish(map, Ghost(config));
        proof {
            if r.is_ok() {
                let m = r.unwrap();
                assert forall|x: int, y: int| #[trigger] m.tile(x, y) == 0 by {
                    let w = m.map_uniform.map_size.x as int;
                    let h = m.map_uniform.map_size.y as int;
                    if 0 <= x < w && 0 <= y < h {
                        crate::map::lemma_cell_index_inside(w, h, x, y);
                    }
                }
            }
        }
        r
    }

    /// Build the map and hand the indexer of its tiles, every cell 0, to
    /// `initializer` before the geometry is derived (the geometry does not
    /// depend on the tiles). The map holds the tiles as the initializer left
    /// them. Fails when the projection is singular.
    pub fn build_and_initialize<F: FnOnce(&mut MapIndexer)>(self, initializer: F) -> (r: Result<
        TileMap<A, U>,
        MapError,
    >)
        requires
            self.wf(),
            forall|i: &mut MapIndexer|
                i.dims() == self.map.map_uniform.map_size && i.cells() == Seq::new(
                    (self.map.map_uniform.map_size.x * self.map.map_uniform.map_size.y) as nat,
                    |k: int| 0u32,
                ) ==> #[trigger] initializer.requires((i,)),
            forall|i: &mut MapIndexer| #[trigger]
                initializer.ensures((i,), ()) ==> final(i).dims() == i.dims()
                    && final(i).cells().len() == i.cells().len(),
        ensures
            r.is_ok() <==> det2(self.map.map_uniform.projection) != 0,
            r.is_err() ==> r == Err::<TileMap<A, U>, MapError>(MapError::SingularProjection),
            r.is_ok() ==> self.built(r.unwrap()),
            r.is_ok() ==> exists|i: &mut MapIndexer|
                i.dims() == self.map.map_uniform.map_size && i.cells() == Seq::new(
                    (self.map.map_uniform.map_size.x * self.map.map_uniform.map_size.y) as nat,
                    |k: int| 0u32,
                ) && #[trigger] initializer.ensures((i,), ()) && r.unwrap().tiles == *final(i),
    {
        let ghost config = self;
        let mut map = self.with_empty_grid();
        initializer(&mut map.tiles);
        Self::finish(map, Ghost(config))
    }

    /// Build the map with tile `f((x, y))` at each cell `(x, y)`, the cells
    /// visited row by row. Fails when the projection is singular.
    pub fn build_and_set<F: FnMut(UVec2) -> u32>(self, mut initializer: F) -> (r: Result<
        TileMap<A, U>,
        MapError,
    >)
        requires
            self.wf(),
            forall|c: UVec2| initializer.requires((c,)),
        ensures
            r.is_ok() <==> det2(self.map.map_uniform.projection) != 0,
            r.is_err() ==> r == Err::<TileMap<A, U>, MapError>(MapError::SingularProjection),
            r.is_ok() ==> self.built(r.unwrap()) && forall|x: int, y: int|
                0 <= x < self.map.map_uniform.map_size.x && 0 <= y < self.map.map_uniform.map_size.y
                    ==> initializer.ensures(
                    (UVec2 { x: x as u32, y: y as u32 },),
                    #[trigger] r.unwrap().tile(x, y),
                ),
    {
        let ghost config = self;
        let ghost f0 = initializer;
        let mut map = self.with_empty_grid();
        let sx = map.map_uniform.map_size.x;
        let sy = map.map_uniform.map_size.y;
        let ghost w = sx as int;
        let ghost h = sy as int;
        let mut y: u32 = 0;
        while y < sy
            invariant
                map.wf(),
                map == (TileMap { tiles: map.tiles, ..config.map }),
                sx == config.map.map_uniform.map_size.x,
                sy == config.map.map_uniform.map_size.y,
                w == sx,
                h == sy,
                y <= sy,
                forall|c: UVec2| initializer.requires((c,)),
                initializer == f0,
                forall|cx: int, cy: int|
                    0 <= cx < w && 0 <= cy < y ==> initializer.ensures(
                        (UVec2 { x: cx as u32, y: cy as u32 },),
                        #[trigger] map.tiles.tile(cx, cy),
                    ),
            decreases sy - y,
        {
            let mut x: u32 = 0;
            while x < sx
                invariant
                    map.wf(),
                    map == (TileMap { tiles: map.tiles, ..config.map }),
                    sx == config.map.map_uniform.map_size.x,
                    sy == config.map.map_uniform.map_size.y,
                    w == sx,
                    h == sy,
                    y < sy,
                    x <= sx,
                    forall|c: UVec2| initializer.requires((c,)),
                    initializer == f0,
                    forall|cx: int, cy: int|
                        (0 <= cx < w && 0 <= cy < y) || (0 <= cx < x && cy == y)
                            ==> initializer.ensures(
                        (UVec2 { x: cx as u32, y: cy as u32 },),
                        #[trigger] map.tiles.tile(cx, cy),
                    ),
                decreases sx - x,
            {
                let v = initializer(UVec2 { x, y });
                let ghost before = map.tiles;
                map.tiles.set(x, y, v);
                proof {
                    assert forall|cx: int, cy: int|
                        (0 <= cx < w && 0 <= cy < y) || (0 <= cx < x + 1 && cy == y)
                            implies initializer.ensures(
                            (UVec2 { x: cx as u32, y: cy as u32 },),
                            #[trigger] map.tiles.tile(cx, cy),
                        ) by {
                        assert(map.tiles.tile(cx, cy) == if cx == x && cy == y {
                            v
                        } else {
                            before.tile(cx, cy)
                        });
                    }
                }
                x = x + 1;
            }
            y = y + 1;
        }
        let ghost filled = map.tiles;
        let r = Self::finish(map, Ghost(config));
        proof {
            if r.is_ok() {
                let m = r.unwrap();
                assert forall|x: int, y: int|
                    0 <= x < w && 0 <= y < h implies initializer.ensures(
                        (UVec2 { x: x as u32, y: y as u32 },),
                        #[trigger] m.tile(x, y),
                    ) by {
                    assert(m.tile(x, y) == filled.tile(x, y));
                }
            }
        }
        r
    }
}

} // verus!
