//! A map: its geometry, its grid of tile indices, its atlas, and its overhang
//! configuration.
use vstd::prelude::*;

use crate::map_builder::MapBuilder;
use crate::map_uniform::{MapError, MapUniform};
use crate::math::{bounded_point2, bounded_point3, IVec2, Point2, Point3, Q2, Q3, UVec2};
use crate::overhang::{derive_underhangs, underhang_directions, Direction};

verus! {

/// User data handed to the renderer when a map carries none of its own.
#[derive(Debug, Clone, Copy, Default, PartialEq, Eq, Structural)]
pub struct DefaultUserData {
    pub x: u32,
}

/// A map: geometry, tile indices (one per cell, row-major, 0 meaning no
/// tile), the atlas holding the tile images (`A` is the host's handle to
/// it), and the overhang mode.
#[derive(Debug, Clone)]
pub struct TileMap<A, U = DefaultUserData> {
    /// Sizes, projection and derived geometry.
    pub map_uniform: MapUniform,
    pub user_data: U,
    /// The tile indices; its size is the map's size.
    pub tiles: MapIndexer,
    pub atlas_texture: A,
    pub pattern_atlas_texture: Option<A>,
    /// Derived underhang directions, for the perspective mode.
    pub perspective_defs: Vec<Direction>,
    pub perspective_underhangs: bool,
    pub perspective_overhangs: bool,
    pub dominance_overhangs: bool,
    /// Directions treated as underhangs regardless of depth; none means the
    /// projection decides.
    pub force_underhangs: Vec<IVec2>,
}

/// What distinguishes one map's rendering pipeline from another's.
#[derive(Debug, Clone, PartialEq, Eq, Hash)]
pub struct MapKey {
    pub perspective_defs: Vec<Direction>,
    pub perspective_underhangs: bool,
    pub perspective_overhangs: bool,
    pub dominance_overhangs: bool,
}

/// Row-major position of cell `(x, y)` in a grid `w` cells wide.
pub open spec fn cell_index(w: int, x: int, y: int) -> int {
    y * w + x
}

/// A cell inside a `w` by `h` grid has its index inside the grid.
pub proof fn lemma_cell_index_inside(w: int, h: int, x: int, y: int)
    requires
        0 <= x < w,
        0 <= y < h,
    ensures
        0 <= cell_index(w, x, y) < w * h,
{
    assert(0 <= y * w + x < w * h) by (nonlinear_arith)
        requires
            0 <= x < w,
            0 <= y < h,
    ;
}

/// Distinct cells have distinct indices.
pub proof fn lemma_cell_index_distinct(w: int, x1: int, y1: int, x2: int, y2: int)
    requires
        0 <= x1 < w,
        0 <= x2 < w,
        0 <= y1,
        0 <= y2,
        x1 != x2 || y1 != y2,
    ensures
        cell_index(w, x1, y1) != cell_index(w, x2, y2),
{
    if y1 == y2 {
    } else if y1 < y2 {
        assert(y1 * w + x1 < y2 * w + x2) by (nonlinear_arith)
            requires
                0 <= x1 < w,
                0 <= x2,
                y1 < y2,
        ;
    } else {
        assert(y2 * w + x2 < y1 * w + x1) by (nonlinear_arith)
            requires
                0 <= x2 < w,
                0 <= x1,
                y2 < y1,
        ;
    }
}

/// Renderer flags for the overhang modes that are on, then one flag per
/// underhang direction.
pub open spec fn spec_shader_defs(key: MapKey) -> Seq<Seq<char>> {
    let under: Seq<Seq<char>> = if key.perspective_underhangs {
        seq!["PERSPECTIVE_UNDERHANGS"@]
    } else {
        seq![]
    };
    let over: Seq<Seq<char>> = if key.perspective_overhangs {
        seq!["PERSPECTIVE_OVERHANGS"@]
    } else {
        seq![]
    };
    let dominance: Seq<Seq<char>> = if key.dominance_overhangs {
        seq!["DOMINANCE_OVERHANGS"@]
    } else {
        seq![]
    };
    under + over + dominance + key.perspective_defs@.map_values(|d: Direction| d.spec_def_name())
}

impl MapKey {
    /// The flags that select this map's rendering pipeline variant.
    pub fn shader_defs(&self) -> (r: Vec<String>)
        ensures
            r@.map_values(|s: String| s@) == spec_shader_defs(*self),
    {
        let mut defs: Vec<String> = Vec::new();
        if self.perspective_underhangs {
            defs.push("PERSPECTIVE_UNDERHANGS".to_owned());
        }
        if self.perspective_overhangs {
            defs.push("PERSPECTIVE_OVERHANGS".to_owned());
        }
        if self.dominance_overhangs {
            defs.push("DOMINANCE_OVERHANGS".to_owned());
        }
        let ghost flags = defs@.map_values(|s: String| s@);
        let mut i: usize = 0;
        while i < self.perspective_defs.len()
            invariant
                i <= self.perspective_defs.len(),
                defs@.map_values(|s: String| s@) == flags + self.perspective_defs@.take(
                    i as int,
                ).map_values(|d: Direction| d.spec_def_name()),
            decreases self.perspective_defs.len() - i,
        {
            let name = self.perspective_defs[i].def_name();
            let ghost before = defs@;
            defs.push(name);
            proof {
                let d = self.perspective_defs@[i as int];
                let done = self.perspective_defs@.take(i as int);
                assert(self.perspective_defs@.take(i as int + 1) =~= done.push(d));
                assert(done.push(d).map_values(|d: Direction| d.spec_def_name()) =~= done.map_values(
                    |d: Direction| d.spec_def_name(),
                ).push(d.spec_def_name()));
                assert(defs@.map_values(|s: String| s@) =~= before.map_values(|s: String| s@).push(
                    name@,
                ));
                assert(defs@.map_values(|s: String| s@) =~= flags + self.perspective_defs@.take(
                    i as int + 1,
                ).map_values(|d: Direction| d.spec_def_name()));
            }
            i = i + 1;
        }
        proof {
            assert(self.perspective_defs@.take(self.perspective_defs.len() as int)
                =~= self.perspective_defs@);
            assert(flags =~= {
                let k = *self;
                let under: Seq<Seq<char>> = if k.perspective_underhangs {
                    seq!["PERSPECTIVE_UNDERHANGS"@]
                } else {
                    seq![]
                };
                let over: Seq<Seq<char>> = if k.perspective_overhangs {
                    seq!["PERSPECTIVE_OVERHANGS"@]
                } else {
                    seq![]
                };
                let dominance: Seq<Seq<char>> = if k.dominance_overhangs {
                    seq!["DOMINANCE_OVERHANGS"@]
                } else {
                    seq![]
                };
                under + over + dominance
            });
        }
        defs
    }
}

impl<A, U> TileMap<A, U> {
    /// The geometry is in range and the grid has one cell per tile position.
    pub open spec fn wf(&self) -> bool {
        &&& self.map_uniform.wf()
        &&& self.tiles.wf()
        &&& self.tiles.dims() == self.map_uniform.map_size
    }

    /// Tile index at `(x, y)`: the stored one inside the grid, 0 outside.
    pub open spec fn tile(&self, x: int, y: int) -> u32 {
        self.tiles.tile(x, y)
    }

    /// Whether the geometry is in range and the grid has one cell per tile
    /// position.
    pub fn is_wf(&self) -> (r: bool)
        ensures
            r == self.wf(),
    {
        self.map_uniform.is_wf() && self.tiles.is_wf() && self.tiles.size()
            == self.map_uniform.map_size
    }

    /// The tile indices, row by row.
    pub fn map_texture(&self) -> (r: &Vec<u32>)
        ensures
            r@ == self.tiles.cells(),
    {
        self.tiles.map_texture()
    }

    /// A builder for a map of `map_size` tiles, each `tile_size` pixels, drawn
    /// from the given atlas.
    pub fn builder(map_size: UVec2, atlas_texture: A, tile_size: UVec2) -> (r: MapBuilder<A, U>)
        where
            U: Default,
        requires
            map_size.x <= 65536,
            map_size.y <= 65536,
            map_size.x * map_size.y <= usize::MAX,
            1 <= tile_size.x <= 65536,
            1 <= tile_size.y <= 65536,
        ensures
            r.wf(),
            r.map.map_uniform == MapUniform::new_spec(map_size, tile_size),
            r.map.atlas_texture == atlas_texture,
            r.map.pattern_atlas_texture.is_none(),
            r.map.perspective_overhangs,
            r.map.perspective_underhangs,
            !r.map.dominance_overhangs,
            r.map.force_underhangs@.len() == 0,
            r.map.perspective_defs@.len() == 0,
    {
        MapBuilder::new(map_size, atlas_texture, tile_size)
    }

    /// An indexer that reads and writes this map's tiles.
    pub fn indexer_mut(&mut self) -> (r: &mut MapIndexer)
        ensures
            *r == old(self).tiles,
            *final(self) == (TileMap { tiles: *final(r), ..*old(self) }),
    {
        &mut self.tiles
    }

    /// Dimensions of this map, in tiles.
    pub fn map_size(&self) -> (r: UVec2)
        ensures
            r == self.map_uniform.map_size,
    {
        self.map_uniform.map_size()
    }

    /// Size of the map's bounding box in local units, overhang margin
    /// included.
    pub fn world_size(&self) -> (r: Point2)
        ensures
            r == self.map_uniform.world_size,
    {
        self.map_uniform.world_size()
    }

    /// Local position of a map position on the map's plane: map position
    /// `(0.5, 0.5)` is the center of tile `(0, 0)`.
    pub fn map_to_local(&self, map_position: Point2) -> (r: Point2)
        requires
            self.map_uniform.wf(),
            bounded_point2(map_position),
        ensures
            ({
                let l = self.map_uniform.spec_map_to_local(
                    Q3 { x: map_position.x as int, y: map_position.y as int, z: 0, den: map_position.den as int },
                );
                r@ == (Q2 { x: l.x, y: l.y, den: l.den })
            }),
            r.den > 0,
    {
        self.map_uniform.map_to_local(map_position.extend()).xy()
    }

    /// As `map_to_local`, keeping the projected depth of the position (not
    /// in general the depth of the drawn mesh).
    pub fn map_to_local_3d(&self, map_position: Point3) -> (r: Point3)
        requires
            self.map_uniform.wf(),
            bounded_point3(map_position),
        ensures
            r@ == self.map_uniform.spec_map_to_local(map_position@),
            r.den > 0,
    {
        self.map_uniform.map_to_local(map_position)
    }

    /// Map position of a local position, on the map's plane.
    pub fn local_to_map(&self, local: Point2) -> (r: Point2)
        requires
            self.map_uniform.wf(),
            bounded_point2(local),
        ensures
            ({
                let m = self.map_uniform.spec_local_to_map(local@);
                r@ == (Q2 { x: m.x, y: m.y, den: m.den })
            }),
            r.den > 0,
    {
        self.map_uniform.local_to_map(local).xy()
    }

    /// Use the sizes of the atlas (and of the pattern atlas) once the host
    /// has them. Answers `Ok(false)` while the atlas, or a pattern atlas that
    /// the map needs, is not available yet, or when the atlas size is
    /// unchanged; `Ok(true)` when the size was taken and the atlas tile count
    /// derived; an error, changing nothing, when the atlas does not hold a
    /// whole number of tiles.
    pub fn update(&mut self, atlas_size: Option<UVec2>, pattern_atlas_size: Option<UVec2>) -> (r:
        Result<bool, MapError>)
        requires
            old(self).wf(),
        ensures
            final(self).wf(),
            (atlas_size.is_none() || (old(self).map_uniform.n_pattern_indices > 0
                && pattern_atlas_size.is_none())) ==> r == Ok::<bool, MapError>(false)
                && *final(self) == *old(self),
            atlas_size.is_some() && (old(self).map_uniform.n_pattern_indices == 0
                || pattern_atlas_size.is_some()) ==> ({
                let u = old(self).map_uniform;
                &&& *final(self) == (TileMap { map_uniform: final(self).map_uniform, ..*old(self) })
                &&& (atlas_size.unwrap() == u.atlas_size ==> r == Ok::<bool, MapError>(false)
                    && final(self).map_uniform == u)
                &&& (atlas_size.unwrap() != u.atlas_size ==> (r.is_ok() <==> u.atlas_fits(
                    atlas_size.unwrap(),
                )))
                &&& (r.is_ok() && atlas_size.unwrap() != u.atlas_size ==> r == Ok::<
                    bool,
                    MapError,
                >(true) && final(self).map_uniform == u.with_atlas(atlas_size.unwrap()))
                &&& (r.is_err() ==> final(self).map_uniform == u && r == Err::<bool, MapError>(
                    MapError::NonIntegralTileCount {
                        columns_num: u.columns_num(atlas_size.unwrap()) as i64,
                        columns_den: u.columns_den() as i64,
                        rows_num: u.rows_num(atlas_size.unwrap()) as i64,
                        rows_den: u.rows_den() as i64,
                    },
                ))
            }),
    {
        let atlas = match atlas_size {
            Some(a) => a,
            None => return Ok(false),
        };
        if self.map_uniform.n_pattern_indices > 0 && pattern_atlas_size.is_none() {
            return Ok(false);
        }
        self.map_uniform.update_atlas_size(atlas)
    }

    /// Derive the inverse projection and the underhang directions: with no
    /// forced underhangs, the neighbor directions whose one-step projection
    /// has negative depth; otherwise those that the forced directions point
    /// along. A singular projection is refused, changing nothing.
    pub fn update_inverse_projection(&mut self) -> (r: Result<(), MapError>)
        requires
            old(self).wf(),
        ensures
            final(self).wf(),
            r.is_ok() <==> crate::math::det2(old(self).map_uniform.projection) != 0,
            r.is_ok() ==> final(self).map_uniform.inverse_derived()
                && final(self).perspective_defs@ == underhang_directions(
                old(self).map_uniform.projection,
                old(self).force_underhangs@,
            ),
            r.is_ok() ==> final(self).map_uniform == (MapUniform {
                inverse_projection: final(self).map_uniform.inverse_projection,
                inverse_projection_den: final(self).map_uniform.inverse_projection_den,
                ..old(self).map_uniform
            }),
            r.is_err() ==> r == Err::<(), MapError>(MapError::SingularProjection)
                && final(self).map_uniform == old(self).map_uniform
                && final(self).perspective_defs == old(self).perspective_defs,
            *final(self) == (TileMap {
                map_uniform: final(self).map_uniform,
                perspective_defs: final(self).perspective_defs,
                ..*old(self)
            }),
    {
        match self.map_uniform.update_inverse_projection() {
            Ok(()) => {
                self.perspective_defs = derive_underhangs(
                    &self.map_uniform.projection,
                    &self.force_underhangs,
                );
                Ok(())
            },
            Err(e) => Err(e),
        }
    }

    /// The pipeline key of this map.
    pub fn key(&self) -> (r: MapKey)
        ensures
            r.perspective_defs@ == self.perspective_defs@,
            r.perspective_underhangs == self.perspective_underhangs,
            r.perspective_overhangs == self.perspective_overhangs,
            r.dominance_overhangs == self.dominance_overhangs,
    {
        MapKey {
            perspective_defs: self.perspective_defs.clone(),
            perspective_underhangs: self.perspective_underhangs,
            perspective_overhangs: self.perspective_overhangs,
            dominance_overhangs: self.dominance_overhangs,
        }
    }
}

/// The tiles of one map: a grid of tile indices, row-major, 0 meaning no
/// tile. Reads outside the grid give 0 and writes outside it are ignored, so
/// neighborhoods at the map's edge can be visited without bounds checks. The
/// grid's size never changes.
#[derive(Debug, Clone)]
pub struct MapIndexer {
    map_size: UVec2,
    map_texture: Vec<u32>,
}

impl MapIndexer {
    /// Size of the grid, in tiles.
    pub closed spec fn dims(&self) -> UVec2 {
        self.map_size
    }

    /// Tile indices, row by row.
    pub closed spec fn cells(&self) -> Seq<u32> {
        self.map_texture@
    }

    /// One cell per tile position.
    pub open spec fn wf(&self) -> bool {
        &&& self.cells().len() == self.dims().x * self.dims().y
        &&& self.dims().x * self.dims().y <= usize::MAX
    }

    /// Tile index at `(x, y)`: the stored one inside the grid, 0 outside.
    pub open spec fn tile(&self, x: int, y: int) -> u32 {
        let w = self.dims().x as int;
        let h = self.dims().y as int;
        if 0 <= x < w && 0 <= y < h {
            self.cells()[cell_index(w, x, y)]
        } else {
            0
        }
    }

    /// A grid of the given size, every cell 0.
    pub fn new(map_size: UVec2) -> (r: MapIndexer)
        requires
            map_size.x * map_size.y <= usize::MAX,
        ensures
            r.wf(),
            r.dims() == map_size,
            r.cells() == Seq::new((map_size.x * map_size.y) as nat, |i: int| 0u32),
    {
        let n = map_size.x as usize * map_size.y as usize;
        let mut cells: Vec<u32> = Vec::new();
        while cells.len() < n
            invariant
                cells.len() <= n,
                forall|i: int| 0 <= i < cells.len() ==> cells@[i] == 0,
            decreases n - cells.len(),
        {
            cells.push(0);
        }
        let r = MapIndexer { map_size, map_texture: cells };
        proof {
            assert(r.map_texture@ =~= Seq::new((map_size.x * map_size.y) as nat, |i: int| 0u32));
        }
        r
    }

    /// Whether there is one cell per tile position.
    pub fn is_wf(&self) -> (r: bool)
        ensures
            r == self.wf(),
    {
        proof {
            crate::math::lemma_mul_within(self.map_size.x as int, self.map_size.y as int, u32::MAX as int, u32::MAX as int);
        }
        let n = self.map_size.x as u64 * self.map_size.y as u64;
        n <= usize::MAX as u64 && self.map_texture.len() as u64 == n
    }

    /// The tile indices, row by row.
    pub fn map_texture(&self) -> (r: &Vec<u32>)
        ensures
            r@ == self.cells(),
    {
        &self.map_texture
    }

    /// Size of the grid, in tiles.
    pub fn size(&self) -> (r: UVec2)
        ensures
            r == self.dims(),
    {
        self.map_size
    }

    /// Tile at `(x, y)`; 0 outside the map.
    pub fn at(&self, x: u32, y: u32) -> (r: u32)
        requires
            self.wf(),
        ensures
            r == self.tile(x as int, y as int),
    {
        let size = self.map_size;
        if x >= size.x || y >= size.y {
            return 0;
        }
        proof {
            lemma_cell_index_inside(size.x as int, size.y as int, x as int, y as int);
        }
        let idx = y as usize * size.x as usize + x as usize;
        self.map_texture[idx]
    }

    /// Tile at `i`; 0 outside the map.
    pub fn at_uvec(&self, i: UVec2) -> (r: u32)
        requires
            self.wf(),
        ensures
            r == self.tile(i.x as int, i.y as int),
    {
        self.at(i.x, i.y)
    }

    /// Tile at `i`, which may lie on any side of the map; 0 outside it.
    pub fn at_ivec(&self, i: IVec2) -> (r: u32)
        requires
            self.wf(),
        ensures
            r == self.tile(i.x as int, i.y as int),
    {
        if i.x < 0 || i.y < 0 || i.x > u32::MAX as i64 || i.y > u32::MAX as i64 {
            return 0;
        }
        self.at(i.x as u32, i.y as u32)
    }

    /// Set the tile at `(x, y)`; nothing changes outside the map.
    pub fn set(&mut self, x: u32, y: u32, v: u32)
        requires
            old(self).wf(),
        ensures
            final(self).dims() == old(self).dims(),
            final(self).cells().len() == old(self).cells().len(),
            forall|cx: int, cy: int| #[trigger]
                final(self).tile(cx, cy) == if cx == x && cy == y && x < old(self).dims().x && y
                    < old(self).dims().y {
                    v
                } else {
                    old(self).tile(cx, cy)
                },
    {
        let size = self.map_size;
        if x >= size.x || y >= size.y {
            return;
        }
        let ghost w = size.x as int;
        proof {
            lemma_cell_index_inside(w, size.y as int, x as int, y as int);
        }
        let idx = y as usize * size.x as usize + x as usize;
        let ghost before = *self;
        self.map_texture.set(idx, v);
        proof {
            assert forall|cx: int, cy: int| #[trigger]
                self.tile(cx, cy) == if cx == x && cy == y { v } else { before.tile(cx, cy) } by {
                if 0 <= cx < w && 0 <= cy < size.y && (cx != x || cy != y) {
                    lemma_cell_index_distinct(w, cx, cy, x as int, y as int);
                    lemma_cell_index_inside(w, size.y as int, cx, cy);
                }
            }
        }
    }

    /// Set the tile at `i`; nothing changes outside the map.
    pub fn set_uvec(&mut self, i: UVec2, v: u32)
        requires
            old(self).wf(),
        ensures
            final(self).dims() == old(self).dims(),
            final(self).cells().len() == old(self).cells().len(),
            forall|cx: int, cy: int| #[trigger]
                final(self).tile(cx, cy) == if cx == i.x && cy == i.y && i.x < old(self).dims().x
                    && i.y < old(self).dims().y {
                    v
                } else {
                    old(self).tile(cx, cy)
                },
    {
        self.set(i.x, i.y, v)
    }
}

} // verus!
