//! The geometry of one map: sizes, projection, and what is derived from them
//! (bounding box, offset, inverse projection, atlas tile count). These are the
//! values a renderer reads to look tiles up.
use vstd::prelude::*;

use crate::math::{
    apply_row, bounded_point2, bounded_point3, det2, lemma_mul_positive, lemma_mul_within,
    mat3_within, ratio_le, same_ratio, row_x, row_y, row_z, Mat2, Mat3, Point2, Point3, Q2, Q3, UVec2, MAX_POSITION,
};
use vstd::arithmetic::mul::{
    lemma_mul_is_associative, lemma_mul_is_commutative, lemma_mul_is_distributive_add,
    lemma_mul_is_distributive_add_other_way, lemma_mul_is_distributive_sub,
    lemma_mul_is_distributive_sub_other_way, lemma_mul_unary_negation,
};
use crate::tile_projection::{identity, spec_identity, TileProjection, MAX_PROJECTION};

verus! {

/// Largest map dimension, in tiles, and largest tile dimension, in pixels.
pub const MAX_EXTENT: u32 = 65536;

/// Largest magnitude of a world offset numerator.
pub const MAX_OFFSET: i128 = 8796093022208;

/// Reasons a map's configuration cannot be used.
#[derive(Debug, Clone, Copy, PartialEq, Eq, Structural)]
pub enum MapError {
    /// The atlas does not hold a whole number of tiles (within 1/100) along
    /// some axis: `columns_num / columns_den` columns and `rows_num /
    /// rows_den` rows were computed.
    NonIntegralTileCount { columns_num: i64, columns_den: i64, rows_num: i64, rows_den: i64 },
    /// The projection's planar part has determinant zero, so local positions
    /// cannot be mapped back.
    SingularProjection,
}

/// Sizes, projection and derived geometry of a map.
#[derive(Debug, Clone, Copy, PartialEq, Eq, Structural)]
pub struct MapUniform {
    /// Size of the map, in tiles.
    pub map_size: UVec2,
    /// Size of the tile atlas, in pixels; zero until the atlas is known.
    pub atlas_size: UVec2,
    /// Size of each tile, in pixels.
    pub tile_size: UVec2,
    /// Padding between tiles in the atlas.
    pub inner_padding: UVec2,
    /// Padding at the atlas's top left.
    pub outer_padding_topleft: UVec2,
    /// Padding at the atlas's bottom right.
    pub outer_padding_bottomright: UVec2,
    /// Relative anchor point in a tile.
    pub tile_anchor_point: Point2,
    /// Map position to tile units: `projection / projection_den`.
    pub projection: Mat3,
    pub projection_den: i64,
    /// Bound on the index levels considered in dominance mode.
    pub max_overhang_levels: u32,
    /// Scale factor of pattern tiles in the atlas.
    pub atlas_tile_size_factor: i32,
    /// Number of pattern tile indices; zero when no pattern atlas is used.
    pub n_pattern_indices: u32,
    /// (derived) Size of the projected map, one tile larger than its bounding
    /// box so that overhangs at the edges stay visible.
    pub world_size: Point2,
    /// (derived) Translation that centers the bounding box on the origin.
    pub world_offset: Point2,
    /// (derived) Number of tile columns and rows in the atlas.
    pub n_tiles: UVec2,
    /// (derived) Local tile units to map position, planar part only:
    /// `inverse_projection / inverse_projection_den`.
    pub inverse_projection: Mat2,
    pub inverse_projection_den: i64,
}

/// Smallest of four values.
pub open spec fn min4(a: int, b: int, c: int, d: int) -> int {
    let ab = if a <= b { a } else { b };
    let cd = if c <= d { c } else { d };
    if ab <= cd { ab } else { cd }
}

/// Largest of four values.
pub open spec fn max4(a: int, b: int, c: int, d: int) -> int {
    let ab = if a >= b { a } else { b };
    let cd = if c >= d { c } else { d };
    if ab >= cd { ab } else { cd }
}

/// `num / den` lies within 1/100 of an integer, for `den > 0`.
pub open spec fn near_integral(num: int, den: int) -> bool {
    let a = if num < 0 { -num } else { num };
    let r = a % den;
    100 * r <= den || 100 * (den - r) <= den
}

/// The integer nearest to `num / den` (halves round up), clamped to the
/// `u32` range: the tile count that a count within 1/100 of it stands for.
pub open spec fn whole_tiles(num: int, den: int) -> int {
    let n = (2 * num + den) / (2 * den);
    if num < 0 {
        0
    } else if n > u32::MAX {
        u32::MAX as int
    } else {
        n
    }
}

/// Smallest of four values.
fn min4_i128(a: i128, b: i128, c: i128, d: i128) -> (r: i128)
    ensures
        r == min4(a as int, b as int, c as int, d as int),
{
    let ab = if a <= b { a } else { b };
    let cd = if c <= d { c } else { d };
    if ab <= cd { ab } else { cd }
}

/// Largest of four values.
fn max4_i128(a: i128, b: i128, c: i128, d: i128) -> (r: i128)
    ensures
        r == max4(a as int, b as int, c as int, d as int),
{
    let ab = if a >= b { a } else { b };
    let cd = if c >= d { c } else { d };
    if ab >= cd { ab } else { cd }
}

/// The integer nearest to `num / den` when `num / den` lies within 1/100 of
/// it.
pub fn tile_count(num: i64, den: i64) -> (r: Option<u32>)
    requires
        1 <= den <= 8589934592,
        -17179869184 <= num <= 17179869184,
    ensures
        r.is_some() <==> near_integral(num as int, den as int),
        r.is_some() ==> r == Some(whole_tiles(num as int, den as int) as u32),
{
    let a: i64 = if num < 0 { -num } else { num };
    let rem = a % den;
    if 100 * rem <= den || 100 * (den - rem) <= den {
        if num < 0 {
            Some(0)
        } else {
            let n = (2 * num + den) / (2 * den);
            if n > u32::MAX as i64 {
                Some(u32::MAX)
            } else {
                Some(n as u32)
            }
        }
    } else {
        None
    }
}

impl MapUniform {
    /// Configuration values lie within the ranges that keep every exact
    /// computation inside `i128`: map sides and tile sides at most 65536,
    /// their product within `usize`, projection entries within [-256, 256]
    /// over a denominator in [1, 256]. These bounds are machine limits of
    /// the exact arithmetic, not rules of the tilemap.
    pub open spec fn wf(&self) -> bool {
        &&& self.map_size.x <= MAX_EXTENT
        &&& self.map_size.y <= MAX_EXTENT
        &&& self.map_size.x * self.map_size.y <= usize::MAX
        &&& 1 <= self.tile_size.x <= MAX_EXTENT
        &&& 1 <= self.tile_size.y <= MAX_EXTENT
        &&& 1 <= self.projection_den <= MAX_PROJECTION
        &&& mat3_within(self.projection, MAX_PROJECTION as int)
        &&& 1 <= self.world_offset.den <= 512
        &&& -MAX_OFFSET <= self.world_offset.x <= MAX_OFFSET
        &&& -MAX_OFFSET <= self.world_offset.y <= MAX_OFFSET
        &&& -65536 <= self.inverse_projection.x_axis_x <= 65536
        &&& -65536 <= self.inverse_projection.x_axis_y <= 65536
        &&& -65536 <= self.inverse_projection.y_axis_x <= 65536
        &&& -65536 <= self.inverse_projection.y_axis_y <= 65536
        &&& 1 <= self.inverse_projection_den <= 131072
    }

    /// `projection * p`, scaled by the tile size, plus the world offset.
    /// The depth is the projected depth alone.
    pub open spec fn spec_map_to_local(&self, p: Q3) -> Q3 {
        let m = self.projection;
        let q = self.projection_den as int;
        let od = self.world_offset.den as int;
        Q3 {
            x: row_x(m, p.x, p.y, p.z) * self.tile_size.x * od + self.world_offset.x * q * p.den,
            y: row_y(m, p.x, p.y, p.z) * self.tile_size.y * od + self.world_offset.y * q * p.den,
            z: row_z(m, p.x, p.y, p.z) * od,
            den: q * p.den * od,
        }
    }

    /// `inverse_projection * ((l - world_offset) / tile_size)`, at depth zero.
    pub open spec fn spec_local_to_map(&self, l: Q2) -> Q3 {
        let n = self.inverse_projection;
        let od = self.world_offset.den as int;
        let tx = self.tile_size.x as int;
        let ty = self.tile_size.y as int;
        let dx = l.x * od - self.world_offset.x * l.den;
        let dy = l.y * od - self.world_offset.y * l.den;
        Q3 {
            x: n.x_axis_x * dx * ty + n.y_axis_x * dy * tx,
            y: n.x_axis_y * dx * ty + n.y_axis_y * dy * tx,
            z: 0,
            den: l.den * od * tx * ty * self.inverse_projection_den,
        }
    }

    /// Horizontal pixel position (over `projection_den`) of a projected
    /// map corner, before the offset.
    pub open spec fn corner_x(&self, cx: int, cy: int) -> int {
        row_x(self.projection, cx, cy, 0) * self.tile_size.x
    }

    /// Vertical counterpart of `corner_x`.
    pub open spec fn corner_y(&self, cx: int, cy: int) -> int {
        row_y(self.projection, cx, cy, 0) * self.tile_size.y
    }

    pub open spec fn low_x(&self) -> int {
        let w = self.map_size.x as int;
        let h = self.map_size.y as int;
        min4(self.corner_x(0, 0), self.corner_x(w, 0), self.corner_x(0, h), self.corner_x(w, h))
    }

    pub open spec fn low_y(&self) -> int {
        let w = self.map_size.x as int;
        let h = self.map_size.y as int;
        min4(self.corner_y(0, 0), self.corner_y(w, 0), self.corner_y(0, h), self.corner_y(w, h))
    }

    pub open spec fn high_x(&self) -> int {
        let w = self.map_size.x as int;
        let h = self.map_size.y as int;
        max4(self.corner_x(0, 0), self.corner_x(w, 0), self.corner_x(0, h), self.corner_x(w, h))
    }

    pub open spec fn high_y(&self) -> int {
        let w = self.map_size.x as int;
        let h = self.map_size.y as int;
        max4(self.corner_y(0, 0), self.corner_y(w, 0), self.corner_y(0, h), self.corner_y(w, h))
    }

    /// Bounding box of the projected corners, grown by one tile.
    pub open spec fn spec_world_size(&self) -> Q2 {
        let q = self.projection_den as int;
        Q2 {
            x: self.high_x() - self.low_x() + self.tile_size.x * q,
            y: self.high_y() - self.low_y() + self.tile_size.y * q,
            den: q,
        }
    }

    /// `-world_size / 2 - low + tile_size / 2`, which centers the grown
    /// bounding box on the origin: `-(low + high) / 2`.
    pub open spec fn spec_world_offset(&self) -> Q2 {
        Q2 {
            x: -(self.high_x() + self.low_x()),
            y: -(self.high_y() + self.low_y()),
            den: 2 * self.projection_den,
        }
    }

    /// The bounding box and offset have been derived from the current sizes
    /// and projection.
    pub open spec fn bounds_derived(&self) -> bool {
        &&& self.world_size@ == self.spec_world_size()
        &&& self.world_offset@ == self.spec_world_offset()
    }

    /// `projection_den * adj / det` with the sign moved to the numerator, so
    /// that the denominator is `|det|`.
    pub open spec fn spec_inverse(&self) -> (Mat2, int) {
        let m = self.projection;
        let q = self.projection_den as int;
        let det = det2(m);
        let (a, b, c, d) = (q * m.x_axis.x, q * m.y_axis.x, q * m.x_axis.y, q * m.y_axis.y);
        if det < 0 {
            (
                Mat2 {
                    x_axis_x: (-d) as i64,
                    x_axis_y: c as i64,
                    y_axis_x: b as i64,
                    y_axis_y: (-a) as i64,
                },
                -det,
            )
        } else {
            (
                Mat2 {
                    x_axis_x: d as i64,
                    x_axis_y: (-c) as i64,
                    y_axis_x: (-b) as i64,
                    y_axis_y: a as i64,
                },
                det,
            )
        }
    }

    /// The inverse projection has been derived, and exists.
    pub open spec fn inverse_derived(&self) -> bool {
        &&& det2(self.projection) != 0
        &&& self.inverse_projection == self.spec_inverse().0
        &&& self.inverse_projection_den == self.spec_inverse().1
    }

    /// Columns of the atlas: `(atlas - paddings + inner) / (inner + tile)`.
    pub open spec fn columns_num(&self, atlas: UVec2) -> int {
        atlas.x - self.outer_padding_topleft.x - self.outer_padding_bottomright.x
            + self.inner_padding.x
    }

    pub open spec fn columns_den(&self) -> int {
        self.inner_padding.x + self.tile_size.x
    }

    /// Rows of the atlas, as `columns_num` for the other axis.
    pub open spec fn rows_num(&self, atlas: UVec2) -> int {
        atlas.y - self.outer_padding_topleft.y - self.outer_padding_bottomright.y
            + self.inner_padding.y
    }

    pub open spec fn rows_den(&self) -> int {
        self.inner_padding.y + self.tile_size.y
    }

    /// This geometry with the given atlas size and the tile count derived
    /// from it.
    pub open spec fn with_atlas(&self, atlas: UVec2) -> MapUniform {
        MapUniform {
            atlas_size: atlas,
            n_tiles: UVec2 {
                x: whole_tiles(self.columns_num(atlas), self.columns_den()) as u32,
                y: whole_tiles(self.rows_num(atlas), self.rows_den()) as u32,
            },
            ..*self
        }
    }

    /// The atlas holds a whole number of tiles along both axes.
    pub open spec fn atlas_fits(&self, atlas: UVec2) -> bool {
        &&& near_integral(self.columns_num(atlas), self.columns_den())
        &&& near_integral(self.rows_num(atlas), self.rows_den())
    }

    /// Geometry with the given sizes, the identity projection, no padding and
    /// nothing derived yet.
    pub open spec fn new_spec(map_size: UVec2, tile_size: UVec2) -> MapUniform {
        let p = spec_identity();
        let zero = UVec2 { x: 0, y: 0 };
        MapUniform {
            map_size,
            atlas_size: zero,
            tile_size,
            inner_padding: zero,
            outer_padding_topleft: zero,
            outer_padding_bottomright: zero,
            tile_anchor_point: p.tile_anchor_point,
            projection: p.projection,
            projection_den: p.denominator,
            max_overhang_levels: 0,
            atlas_tile_size_factor: 0,
            n_pattern_indices: 0,
            world_size: Point2 { x: 0, y: 0, den: 1 },
            world_offset: Point2 { x: 0, y: 0, den: 1 },
            n_tiles: zero,
            inverse_projection: Mat2 { x_axis_x: 0, x_axis_y: 0, y_axis_x: 0, y_axis_y: 0 },
            inverse_projection_den: 1,
        }
    }

    /// Geometry with the given sizes, the identity projection, no padding and
    /// nothing derived yet.
    pub fn new(map_size: UVec2, tile_size: UVec2) -> (r: MapUniform)
        requires
            map_size.x <= MAX_EXTENT,
            map_size.y <= MAX_EXTENT,
            map_size.x * map_size.y <= usize::MAX,
            1 <= tile_size.x <= MAX_EXTENT,
            1 <= tile_size.y <= MAX_EXTENT,
        ensures
            r.wf(),
            r == Self::new_spec(map_size, tile_size),
    {
        let p = identity();
        let zero = UVec2 { x: 0, y: 0 };
        MapUniform {
            map_size,
            atlas_size: zero,
            tile_size,
            inner_padding: zero,
            outer_padding_topleft: zero,
            outer_padding_bottomright: zero,
            tile_anchor_point: p.tile_anchor_point,
            projection: p.projection,
            projection_den: p.denominator,
            max_overhang_levels: 0,
            atlas_tile_size_factor: 0,
            n_pattern_indices: 0,
            world_size: Point2 { x: 0, y: 0, den: 1 },
            world_offset: Point2 { x: 0, y: 0, den: 1 },
            n_tiles: zero,
            inverse_projection: Mat2 { x_axis_x: 0, x_axis_y: 0, y_axis_x: 0, y_axis_y: 0 },
            inverse_projection_den: 1,
        }
    }

    /// Use the given projection; derived values are left for the caller to
    /// recompute.
    pub fn set_projection(&mut self, projection: TileProjection)
        requires
            old(self).wf(),
            projection.in_range(),
        ensures
            final(self).wf(),
            *final(self) == (MapUniform {
                projection: projection.projection,
                projection_den: projection.denominator,
                tile_anchor_point: projection.tile_anchor_point,
                ..*old(self)
            }),
    {
        self.projection = projection.projection;
        self.projection_den = projection.denominator;
        self.tile_anchor_point = projection.tile_anchor_point;
    }

    /// Local position of a map position: `projection * p`, scaled by the tile
    /// size, plus the world offset. The depth is that of the projection alone,
    /// usable for "further away is less" ordering.
    pub fn map_to_local(&self, p: Point3) -> (r: Point3)
        requires
            self.wf(),
            bounded_point3(p),
        ensures
            r@ == self.spec_map_to_local(p@),
            r.den > 0,
    {
        let m = self.projection;
        let q = self.projection_den as i128;
        let od = self.world_offset.den;
        let tx = self.tile_size.x as i128;
        let ty = self.tile_size.y as i128;
        let rx = apply_row(m.x_axis.x, m.y_axis.x, m.z_axis.x, p);
        let ry = apply_row(m.x_axis.y, m.y_axis.y, m.z_axis.y, p);
        let rz = apply_row(m.x_axis.z, m.y_axis.z, m.z_axis.z, p);
        proof {
            let b40 = 3 * 1099511627776int;
            lemma_mul_within(rx as int, tx as int, b40, 65536);
            lemma_mul_within(ry as int, ty as int, b40, 65536);
            lemma_mul_within(rx * tx, od as int, b40 * 65536, 512);
            lemma_mul_within(ry * ty, od as int, b40 * 65536, 512);
            lemma_mul_within(self.world_offset.x as int, q as int, MAX_OFFSET as int, 256);
            lemma_mul_within(self.world_offset.y as int, q as int, MAX_OFFSET as int, 256);
            lemma_mul_within(
                self.world_offset.x * q,
                p.den as int,
                MAX_OFFSET * 256,
                MAX_POSITION as int,
            );
            lemma_mul_within(
                self.world_offset.y * q,
                p.den as int,
                MAX_OFFSET * 256,
                MAX_POSITION as int,
            );
            lemma_mul_within(rz as int, od as int, b40, 512);
            lemma_mul_within(q as int, p.den as int, 256, MAX_POSITION as int);
            lemma_mul_within(q * p.den, od as int, 256 * MAX_POSITION, 512);
            lemma_mul_positive(q as int, p.den as int);
            lemma_mul_positive(q * p.den, od as int);
        }
        Point3 {
            x: rx * tx * od + self.world_offset.x * q * p.den,
            y: ry * ty * od + self.world_offset.y * q * p.den,
            z: rz * od,
            den: q * p.den * od,
        }
    }

    /// Map position of a local position: `inverse_projection * ((l -
    /// world_offset) / tile_size)`. Depth is not recovered from a planar
    /// position: the result always lies on the map's plane, depth zero.
    pub fn local_to_map(&self, l: Point2) -> (r: Point3)
        requires
            self.wf(),
            bounded_point2(l),
        ensures
            r@ == self.spec_local_to_map(l@),
            r.den > 0,
    {
        let n = self.inverse_projection;
        let od = self.world_offset.den;
        let tx = self.tile_size.x as i128;
        let ty = self.tile_size.y as i128;
        let g = self.inverse_projection_den as i128;
        proof {
            lemma_mul_within(l.x as int, od as int, MAX_POSITION as int, 512);
            lemma_mul_within(l.y as int, od as int, MAX_POSITION as int, 512);
            lemma_mul_within(
                self.world_offset.x as int,
                l.den as int,
                MAX_OFFSET as int,
                MAX_POSITION as int,
            );
            lemma_mul_within(
                self.world_offset.y as int,
                l.den as int,
                MAX_OFFSET as int,
                MAX_POSITION as int,
            );
        }
        let dx = l.x * od - self.world_offset.x * l.den;
        let dy = l.y * od - self.world_offset.y * l.den;
        proof {
            let bd = MAX_POSITION * 512 + MAX_OFFSET * MAX_POSITION;
            lemma_mul_within(n.x_axis_x as int, dx as int, 65536, bd);
            lemma_mul_within(n.y_axis_x as int, dy as int, 65536, bd);
            lemma_mul_within(n.x_axis_y as int, dx as int, 65536, bd);
            lemma_mul_within(n.y_axis_y as int, dy as int, 65536, bd);
            lemma_mul_within(n.x_axis_x * dx, ty as int, 65536 * bd, 65536);
            lemma_mul_within(n.y_axis_x * dy, tx as int, 65536 * bd, 65536);
            lemma_mul_within(n.x_axis_y * dx, ty as int, 65536 * bd, 65536);
            lemma_mul_within(n.y_axis_y * dy, tx as int, 65536 * bd, 65536);
            lemma_mul_within(l.den as int, od as int, MAX_POSITION as int, 512);
            lemma_mul_within(l.den * od, tx as int, MAX_POSITION * 512, 65536);
            lemma_mul_within(l.den * od * tx, ty as int, MAX_POSITION * 512 * 65536, 65536);
            lemma_mul_within(
                l.den * od * tx * ty,
                g as int,
                MAX_POSITION * 512 * 65536 * 65536,
                131072,
            );
            lemma_mul_positive(l.den as int, od as int);
            lemma_mul_positive(l.den * od, tx as int);
            lemma_mul_positive(l.den * od * tx, ty as int);
            lemma_mul_positive(l.den * od * tx * ty, g as int);
        }
        Point3 {
            x: n.x_axis_x as i128 * dx * ty + n.y_axis_x as i128 * dy * tx,
            y: n.x_axis_y as i128 * dx * ty + n.y_axis_y as i128 * dy * tx,
            z: 0,
            den: l.den * od * tx * ty * g,
        }
    }

    /// Pixel position (over `projection_den`) of the projected map corner
    /// `(cx, cy)`, before the offset.
    fn corner(&self, cx: u32, cy: u32) -> (r: (i128, i128))
        requires
            self.wf(),
            cx <= MAX_EXTENT,
            cy <= MAX_EXTENT,
        ensures
            r.0 == self.corner_x(cx as int, cy as int),
            r.1 == self.corner_y(cx as int, cy as int),
            -2199023255552 <= r.0 <= 2199023255552,
            -2199023255552 <= r.1 <= 2199023255552,
    {
        let m = self.projection;
        let tx = self.tile_size.x as i128;
        let ty = self.tile_size.y as i128;
        proof {
            lemma_mul_within(m.x_axis.x as int, cx as int, 256, 65536);
            lemma_mul_within(m.y_axis.x as int, cy as int, 256, 65536);
            lemma_mul_within(m.x_axis.y as int, cx as int, 256, 65536);
            lemma_mul_within(m.y_axis.y as int, cy as int, 256, 65536);
        }
        let rx = m.x_axis.x as i128 * cx as i128 + m.y_axis.x as i128 * cy as i128;
        let ry = m.x_axis.y as i128 * cx as i128 + m.y_axis.y as i128 * cy as i128;
        proof {
            lemma_mul_within(rx as int, tx as int, 33554432int, 65536);
            lemma_mul_within(ry as int, ty as int, 33554432int, 65536);
        }
        (rx * tx, ry * ty)
    }

    /// Derive the bounding box and offset: project the four map corners, take
    /// their per-axis extremes, grow the box by one tile, and center it.
    pub fn update_world_size(&mut self)
        requires
            old(self).wf(),
        ensures
            final(self).wf(),
            final(self).bounds_derived(),
            *final(self) == (MapUniform {
                world_size: final(self).world_size,
                world_offset: final(self).world_offset,
                ..*old(self)
            }),
    {
        let w = self.map_size.x;
        let h = self.map_size.y;
        let c0 = self.corner(0, 0);
        let c1 = self.corner(w, 0);
        let c2 = self.corner(0, h);
        let c3 = self.corner(w, h);
        let lx = min4_i128(c0.0, c1.0, c2.0, c3.0);
        let ly = min4_i128(c0.1, c1.1, c2.1, c3.1);
        let hx = max4_i128(c0.0, c1.0, c2.0, c3.0);
        let hy = max4_i128(c0.1, c1.1, c2.1, c3.1);
        let q = self.projection_den as i128;
        proof {
            lemma_mul_within(self.tile_size.x as int, q as int, 65536, 256);
            lemma_mul_within(self.tile_size.y as int, q as int, 65536, 256);
        }
        self.world_size = Point2 {
            x: hx - lx + self.tile_size.x as i128 * q,
            y: hy - ly + self.tile_size.y as i128 * q,
            den: q,
        };
        self.world_offset = Point2 { x: -(hx + lx), y: -(hy + ly), den: 2 * q };
    }

    /// Derive the inverse of the projection's planar part. A singular
    /// projection is refused and leaves the geometry as it was.
    pub fn update_inverse_projection(&mut self) -> (r: Result<(), MapError>)
        requires
            old(self).wf(),
        ensures
            final(self).wf(),
            r.is_ok() <==> det2(old(self).projection) != 0,
            r.is_ok() ==> final(self).inverse_derived(),
            r.is_ok() ==> *final(self) == (MapUniform {
                inverse_projection: final(self).inverse_projection,
                inverse_projection_den: final(self).inverse_projection_den,
                ..*old(self)
            }),
            r.is_err() ==> r == Err::<(), MapError>(MapError::SingularProjection) && *final(self)
                == *old(self),
    {
        let m = self.projection;
        let q = self.projection_den;
        proof {
            lemma_mul_within(m.x_axis.x as int, m.y_axis.y as int, 256, 256);
            lemma_mul_within(m.y_axis.x as int, m.x_axis.y as int, 256, 256);
            lemma_mul_within(q as int, m.x_axis.x as int, 256, 256);
            lemma_mul_within(q as int, m.x_axis.y as int, 256, 256);
            lemma_mul_within(q as int, m.y_axis.x as int, 256, 256);
            lemma_mul_within(q as int, m.y_axis.y as int, 256, 256);
        }
        let det = m.x_axis.x * m.y_axis.y - m.y_axis.x * m.x_axis.y;
        if det == 0 {
            return Err(MapError::SingularProjection);
        }
        let (a, b, c, d) = (q * m.x_axis.x, q * m.y_axis.x, q * m.x_axis.y, q * m.y_axis.y);
        if det < 0 {
            self.inverse_projection = Mat2 { x_axis_x: -d, x_axis_y: c, y_axis_x: b, y_axis_y: -a };
            self.inverse_projection_den = -det;
        } else {
            self.inverse_projection = Mat2 { x_axis_x: d, x_axis_y: -c, y_axis_x: -b, y_axis_y: a };
            self.inverse_projection_den = det;
        }
        Ok(())
    }

    /// Use a new atlas size. Unchanged, it is a no-op answering `false`.
    /// Otherwise the atlas must hold a whole number of tiles (within 1/100)
    /// along each axis given tile size and paddings: then the size and tile
    /// count are stored and the answer is `true`; if not, nothing changes and
    /// the computed counts are reported.
    pub fn update_atlas_size(&mut self, atlas_size: UVec2) -> (r: Result<bool, MapError>)
        requires
            old(self).wf(),
        ensures
            final(self).wf(),
            old(self).atlas_size == atlas_size ==> r == Ok::<bool, MapError>(false)
                && *final(self) == *old(self),
            old(self).atlas_size != atlas_size ==> (r.is_ok()
                <==> old(self).atlas_fits(atlas_size)),
            old(self).atlas_size != atlas_size && r.is_ok() ==> r == Ok::<bool, MapError>(true)
                && *final(self) == old(self).with_atlas(atlas_size),
            r.is_err() ==> *final(self) == *old(self) && r == Err::<bool, MapError>(
                MapError::NonIntegralTileCount {
                    columns_num: old(self).columns_num(atlas_size) as i64,
                    columns_den: old(self).columns_den() as i64,
                    rows_num: old(self).rows_num(atlas_size) as i64,
                    rows_den: old(self).rows_den() as i64,
                },
            ),
    {
        if self.atlas_size == atlas_size {
            return Ok(false);
        }
        let cn = atlas_size.x as i64 - self.outer_padding_topleft.x as i64
            - self.outer_padding_bottomright.x as i64 + self.inner_padding.x as i64;
        let cd = self.inner_padding.x as i64 + self.tile_size.x as i64;
        let rn = atlas_size.y as i64 - self.outer_padding_topleft.y as i64
            - self.outer_padding_bottomright.y as i64 + self.inner_padding.y as i64;
        let rd = self.inner_padding.y as i64 + self.tile_size.y as i64;
        let columns = tile_count(cn, cd);
        let rows = tile_count(rn, rd);
        match (columns, rows) {
            (Some(x), Some(y)) => {
                self.atlas_size = atlas_size;
                self.n_tiles = UVec2 { x, y };
                Ok(true)
            },
            _ => Err(
                MapError::NonIntegralTileCount {
                    columns_num: cn,
                    columns_den: cd,
                    rows_num: rn,
                    rows_den: rd,
                },
            ),
        }
    }

    /// Whether the configuration is within the ranges of `wf`.
    pub fn is_wf(&self) -> (r: bool)
        ensures
            r == self.wf(),
    {
        let m = self.projection;
        let e = |v: i64| -> (r: bool)
            ensures
                r == (-256 <= v <= 256),
            { -256 <= v && v <= 256 };
        let inv = self.inverse_projection;
        let f = |v: i64| -> (r: bool)
            ensures
                r == (-65536 <= v <= 65536),
            { -65536 <= v && v <= 65536 };
        if self.map_size.x > MAX_EXTENT || self.map_size.y > MAX_EXTENT {
            return false;
        }
        proof {
            lemma_mul_within(self.map_size.x as int, self.map_size.y as int, 65536, 65536);
        }
        (self.map_size.x as u64) * (self.map_size.y as u64) <= usize::MAX as u64 && 1 <= self.tile_size.x
            && self.tile_size.x <= MAX_EXTENT && 1 <= self.tile_size.y && self.tile_size.y
            <= MAX_EXTENT && 1 <= self.projection_den && self.projection_den <= MAX_PROJECTION && e(
            m.x_axis.x,
        ) && e(m.x_axis.y) && e(m.x_axis.z) && e(m.y_axis.x) && e(m.y_axis.y) && e(m.y_axis.z) && e(
            m.z_axis.x,
        ) && e(m.z_axis.y) && e(m.z_axis.z) && 1 <= self.world_offset.den
            && self.world_offset.den <= 512 && -MAX_OFFSET <= self.world_offset.x
            && self.world_offset.x <= MAX_OFFSET && -MAX_OFFSET <= self.world_offset.y
            && self.world_offset.y <= MAX_OFFSET && f(inv.x_axis_x) && f(inv.x_axis_y) && f(
            inv.y_axis_x,
        ) && f(inv.y_axis_y) && 1 <= self.inverse_projection_den && self.inverse_projection_den
            <= 131072
    }

    /// Size of the map, in tiles.
    pub fn map_size(&self) -> (r: UVec2)
        ensures
            r == self.map_size,
    {
        self.map_size
    }

    /// Size of the map's bounding box in local units, overhang margin included.
    pub fn world_size(&self) -> (r: Point2)
        ensures
            r == self.world_size,
    {
        self.world_size
    }
}

/// `l` lies in the box `[-world_size / 2, world_size / 2]` on both axes.
pub open spec fn inside_world(u: MapUniform, l: Q3) -> bool {
    let ws = u.world_size@;
    &&& ratio_le(-ws.x, 2 * ws.den, l.x, l.den)
    &&& ratio_le(l.x, l.den, ws.x, 2 * ws.den)
    &&& ratio_le(-ws.y, 2 * ws.den, l.y, l.den)
    &&& ratio_le(l.y, l.den, ws.y, 2 * ws.den)
}

proof fn lemma_centered_shift(p: int, lo: int, hi: int, q: int) by (nonlinear_arith)
    ensures
        p * (2 * q) + -(hi + lo) * q * 1 == (2 * p - hi - lo) * q,
{
}

/// One axis of the corner containment: a projected coordinate `p` between
/// the extremes `lo` and `hi`, shifted by the centering offset, lies within
/// half the grown box.
proof fn lemma_centered_axis(p: int, lo: int, hi: int, t: int, q: int)
    requires
        lo <= p <= hi,
        t >= 1,
        q >= 1,
    ensures
        ratio_le(-(hi - lo + t * q), 2 * q, p * (2 * q) + -(hi + lo) * q * 1, q * 1 * (2 * q)),
        ratio_le(p * (2 * q) + -(hi + lo) * q * 1, q * 1 * (2 * q), hi - lo + t * q, 2 * q),
{
    let a = 2 * p - hi - lo;
    let b = hi - lo + t * q;
    assert(t * q >= 1) by (nonlinear_arith)
        requires
            t >= 1,
            q >= 1,
    ;
    assert(-b <= a <= b);
    lemma_centered_shift(p, lo, hi, q);
    assert(q * 1 * (2 * q) == 2 * q * q) by (nonlinear_arith);
    assert(-b * (2 * q * q) <= a * q * (2 * q)) by (nonlinear_arith)
        requires
            -b <= a,
            q >= 1,
    ;
    assert(a * q * (2 * q) <= b * (2 * q * q)) by (nonlinear_arith)
        requires
            a <= b,
            q >= 1,
    ;
}

/// Bounding-box containment: each of the four map corners `(0, 0)`, `(W, 0)`,
/// `(0, H)` and `(W, H)`, taken to local coordinates, lies inside
/// `[-world_size / 2, world_size / 2]`, once the bounds have been derived.
pub proof fn lemma_corners_inside_world(u: MapUniform, cx: int, cy: int)
    requires
        u.wf(),
        u.bounds_derived(),
        cx == 0 || cx == u.map_size.x,
        cy == 0 || cy == u.map_size.y,
    ensures
        inside_world(u, u.spec_map_to_local(Q3 { x: cx, y: cy, z: 0, den: 1 })),
{
    let q = u.projection_den as int;
    let px = u.corner_x(cx, cy);
    let py = u.corner_y(cx, cy);
    assert(u.low_x() <= px <= u.high_x());
    assert(u.low_y() <= py <= u.high_y());
    lemma_centered_axis(px, u.low_x(), u.high_x(), u.tile_size.x as int, q);
    lemma_centered_axis(py, u.low_y(), u.high_y(), u.tile_size.y as int, q);
}

/// `l` lies in the box `[-(world_size - tile_size) / 2, (world_size -
/// tile_size) / 2]` on both axes: the bounding box without its margin.
pub open spec fn inside_bounds(u: MapUniform, l: Q3) -> bool {
    let ws = u.world_size@;
    let bx = ws.x - u.tile_size.x * ws.den;
    let by = ws.y - u.tile_size.y * ws.den;
    &&& ratio_le(-bx, 2 * ws.den, l.x, l.den)
    &&& ratio_le(l.x, l.den, bx, 2 * ws.den)
    &&& ratio_le(-by, 2 * ws.den, l.y, l.den)
    &&& ratio_le(l.y, l.den, by, 2 * ws.den)
}

/// `a x` for `0 <= x <= w s` lies between `s` times the smaller and the
/// larger of `0` and `a w`.
proof fn lemma_scaled_between(a: int, x: int, w: int, s: int)
    requires
        0 <= x <= w * s,
        s > 0,
    ensures
        (if a * w < 0 { a * w } else { 0 }) * s <= a * x,
        a * x <= (if a * w > 0 { a * w } else { 0 }) * s,
{
    assert(w >= 0) by (nonlinear_arith)
        requires
            0 <= w * s,
            s > 0,
    ;
    if a >= 0 {
        assert(0 <= a * x <= a * w * s && a * w >= 0) by (nonlinear_arith)
            requires
                a >= 0,
                0 <= x <= w * s,
                w >= 0,
        ;
    } else {
        assert(a * w * s <= a * x <= 0 && a * w <= 0) by (nonlinear_arith)
            requires
                a < 0,
                0 <= x <= w * s,
                w >= 0,
        ;
    }
}

/// Multiplying by a positive `t` keeps the sign.
proof fn lemma_sign_kept(a: int, t: int) by (nonlinear_arith)
    requires
        t > 0,
    ensures
        (a < 0) == (a * t < 0),
        (a > 0) == (a * t > 0),
{
}

proof fn lemma_combine_low(ma: int, mb: int, x: int, y: int, s: int, t: int) by (nonlinear_arith)
    requires
        ma * s <= x,
        mb * s <= y,
        t > 0,
    ensures
        (ma * t + mb * t) * s <= (x + y) * t,
{
}

proof fn lemma_combine_high(ma: int, mb: int, x: int, y: int, s: int, t: int) by (nonlinear_arith)
    requires
        x <= ma * s,
        y <= mb * s,
        t > 0,
    ensures
        (x + y) * t <= (ma * t + mb * t) * s,
{
}

/// A linear form `(a x + b y) t` over `[0, w s] x [0, h s]` lies between
/// `s` times the least and the greatest of its values at the corners.
proof fn lemma_row_between(a: int, b: int, x: int, y: int, w: int, h: int, s: int, t: int)
    requires
        0 <= x <= w * s,
        0 <= y <= h * s,
        s > 0,
        t > 0,
    ensures
        min4(0, (a * w) * t, (b * h) * t, (a * w + b * h) * t) * s <= (a * x + b * y) * t,
        (a * x + b * y) * t <= max4(0, (a * w) * t, (b * h) * t, (a * w + b * h) * t) * s,
{
    let aw = a * w;
    let bh = b * h;
    lemma_scaled_between(a, x, w, s);
    lemma_scaled_between(b, y, h, s);
    lemma_sign_kept(aw, t);
    lemma_sign_kept(bh, t);
    lemma_mul_is_distributive_add_other_way(t, aw, bh);
    lemma_mul_is_distributive_add_other_way(t, a * x, b * y);
    let ma = if aw < 0 { aw } else { 0 };
    let mb = if bh < 0 { bh } else { 0 };
    let xa = if aw > 0 { aw } else { 0 };
    let xb = if bh > 0 { bh } else { 0 };
    lemma_combine_low(ma, mb, a * x, b * y, s, t);
    lemma_combine_high(xa, xb, a * x, b * y, s, t);
    assert(min4(0, aw * t, bh * t, (aw + bh) * t) == ma * t + mb * t);
    assert(max4(0, aw * t, bh * t, (aw + bh) * t) == xa * t + xb * t);
}

/// One axis of the inner containment: a projected coordinate `p` (over `s`)
/// between `s lo` and `s hi`, shifted by the centering offset, lies within
/// half the box without its margin.
proof fn lemma_inner_axis(p: int, lo: int, hi: int, s: int, q: int)
    requires
        lo * s <= p <= hi * s,
        s >= 1,
        q >= 1,
    ensures
        ratio_le(-(hi - lo), 2 * q, p * (2 * q) + -(hi + lo) * q * s, q * s * (2 * q)),
        ratio_le(p * (2 * q) + -(hi + lo) * q * s, q * s * (2 * q), hi - lo, 2 * q),
{
    let c = 2 * p - (hi + lo) * s;
    let d = (hi - lo) * s;
    assert(-d <= c <= d) by (nonlinear_arith)
        requires
            lo * s <= p <= hi * s,
            c == 2 * p - (hi + lo) * s,
            d == (hi - lo) * s,
    ;
    assert(p * (2 * q) + -(hi + lo) * q * s == c * q) by (nonlinear_arith)
        requires
            c == 2 * p - (hi + lo) * s,
    ;
    assert(-(hi - lo) * (q * s * (2 * q)) == -d * (2 * q * q)) by (nonlinear_arith)
        requires
            d == (hi - lo) * s,
    ;
    assert((hi - lo) * (q * s * (2 * q)) == d * (2 * q * q)) by (nonlinear_arith)
        requires
            d == (hi - lo) * s,
    ;
    assert(-d * (2 * q * q) <= c * q * (2 * q)) by (nonlinear_arith)
        requires
            -d <= c,
            q >= 1,
    ;
    assert(c * q * (2 * q) <= d * (2 * q * q)) by (nonlinear_arith)
        requires
            c <= d,
            q >= 1,
    ;
}

/// Bounding-box containment over the whole map: every map position `p` in
/// `[0, W] x [0, H]`, taken to local coordinates, lies inside the box
/// `[-(world_size - tile_size) / 2, (world_size - tile_size) / 2]`, so the
/// box spanned by the four corners covers the projected map.
pub proof fn lemma_map_inside_world(u: MapUniform, p: Q3)
    requires
        u.wf(),
        u.bounds_derived(),
        p.den > 0,
        p.z == 0,
        0 <= p.x <= u.map_size.x * p.den,
        0 <= p.y <= u.map_size.y * p.den,
    ensures
        inside_bounds(u, u.spec_map_to_local(p)),
{
    let m = u.projection;
    let q = u.projection_den as int;
    let w = u.map_size.x as int;
    let h = u.map_size.y as int;
    let tx = u.tile_size.x as int;
    let ty = u.tile_size.y as int;
    lemma_row_between(m.x_axis.x as int, m.y_axis.x as int, p.x, p.y, w, h, p.den, tx);
    lemma_row_between(m.x_axis.y as int, m.y_axis.y as int, p.x, p.y, w, h, p.den, ty);
    let rx0 = row_x(m, 0, 0, 0);
    let ry0 = row_y(m, 0, 0, 0);
    assert(rx0 == 0 && ry0 == 0);
    assert(rx0 * tx == 0 && ry0 * ty == 0) by (nonlinear_arith)
        requires
            rx0 == 0,
            ry0 == 0,
    ;
    assert(u.corner_x(0, 0) == 0);
    assert(u.corner_x(w, 0) == (m.x_axis.x * w) * tx);
    assert(u.corner_x(0, h) == (m.y_axis.x * h) * tx);
    assert(u.corner_x(w, h) == (m.x_axis.x * w + m.y_axis.x * h) * tx);
    assert(u.corner_y(0, 0) == 0);
    assert(u.low_x() == min4(0, (m.x_axis.x * w) * tx, (m.y_axis.x * h) * tx, (m.x_axis.x * w
        + m.y_axis.x * h) * tx));
    assert(u.high_x() == max4(0, (m.x_axis.x * w) * tx, (m.y_axis.x * h) * tx, (m.x_axis.x * w
        + m.y_axis.x * h) * tx));
    assert(u.low_y() == min4(0, (m.x_axis.y * w) * ty, (m.y_axis.y * h) * ty, (m.x_axis.y * w
        + m.y_axis.y * h) * ty));
    assert(u.high_y() == max4(0, (m.x_axis.y * w) * ty, (m.y_axis.y * h) * ty, (m.x_axis.y * w
        + m.y_axis.y * h) * ty));
    let px = row_x(m, p.x, p.y, p.z) * tx;
    let py = row_y(m, p.x, p.y, p.z) * ty;
    assert(px == (m.x_axis.x * p.x + m.y_axis.x * p.y) * tx);
    assert(py == (m.x_axis.y * p.x + m.y_axis.y * p.y) * ty);
    lemma_inner_axis(px, u.low_x(), u.high_x(), p.den, q);
    lemma_inner_axis(py, u.low_y(), u.high_y(), p.den, q);
}

/// The inverse's entries are the exact values of `spec_inverse`'s formulas.
proof fn lemma_inverse_entries(u: MapUniform)
    requires
        u.wf(),
    ensures
        ({
            let m = u.projection;
            let q = u.projection_den as int;
            let s: int = if det2(m) < 0 { -1 } else { 1 };
            let inv = u.spec_inverse().0;
            &&& inv.x_axis_x == s * q * m.y_axis.y
            &&& inv.x_axis_y == -s * q * m.x_axis.y
            &&& inv.y_axis_x == -s * q * m.y_axis.x
            &&& inv.y_axis_y == s * q * m.x_axis.x
            &&& u.spec_inverse().1 == s * det2(m)
        }),
{
    let m = u.projection;
    let q = u.projection_den as int;
    let s: int = if det2(m) < 0 { -1 } else { 1 };
    lemma_mul_within(q, m.x_axis.x as int, 256, 256);
    lemma_mul_within(q, m.x_axis.y as int, 256, 256);
    lemma_mul_within(q, m.y_axis.x as int, 256, 256);
    lemma_mul_within(q, m.y_axis.y as int, 256, 256);
    lemma_sign_scale(s, q, m.x_axis.x as int);
    lemma_sign_scale(s, q, m.x_axis.y as int);
    lemma_sign_scale(s, q, m.y_axis.x as int);
    lemma_sign_scale(s, q, m.y_axis.y as int);
    let det = det2(m);
    if det < 0 {
        assert(s * det == -det) by (nonlinear_arith)
            requires
                s == -1,
        ;
    } else {
        assert(s * det == det) by (nonlinear_arith)
            requires
                s == 1,
        ;
    }
}

/// Scaling by a sign `s` and then by `q` is scaling by `q` and then by `s`.
proof fn lemma_sign_scale(s: int, q: int, v: int) by (nonlinear_arith)
    ensures
        s * q * v == s * (q * v),
        -s * q * v == -(s * (q * v)),
{
}

/// The offset cancels: `l * od - offset * den` for `l = a * t * od + offset
/// * q * s` and `den = q * s * od` is `a * t * od * od`.
proof fn lemma_offset_cancels(a: int, t: int, od: int, o: int, q: int, s: int)
    ensures
        (a * t * od + o * q * s) * od - o * (q * s * od) == a * t * od * od,
{
    lemma_mul_is_distributive_add_other_way(od, a * t * od, o * q * s);
    lemma_mul_is_associative(o, q * s, od);
    lemma_mul_is_associative(o, q, s);
}

/// `d (a x + b y) - b (c x + d y) = (a d - b c) x` and its counterpart for y.
proof fn lemma_adjugate_core(a: int, b: int, c: int, d: int, x: int, y: int)
    ensures
        d * (a * x + b * y) - b * (c * x + d * y) == (a * d - b * c) * x,
        -c * (a * x + b * y) + a * (c * x + d * y) == (a * d - b * c) * y,
{
    lemma_mul_is_distributive_add(d, a * x, b * y);
    lemma_mul_is_distributive_add(b, c * x, d * y);
    lemma_mul_is_distributive_add(c, a * x, b * y);
    lemma_mul_is_distributive_add(a, c * x, d * y);
    lemma_mul_unary_negation(c, a * x + b * y);
    lemma_swap_factor(d, b, y);
    lemma_swap_factor(c, a, x);
    lemma_mul_is_associative(d, a, x);
    lemma_mul_is_associative(b, c, x);
    lemma_mul_is_associative(c, b, y);
    lemma_mul_is_associative(a, d, y);
    lemma_mul_is_commutative(d, a);
    lemma_mul_is_commutative(c, b);
    lemma_mul_is_distributive_sub_other_way(x, a * d, b * c);
    lemma_mul_is_distributive_sub_other_way(y, a * d, b * c);
}

/// `u (v w) = v (u w)`.
proof fn lemma_swap_factor(u: int, v: int, w: int) by (nonlinear_arith)
    ensures
        u * (v * w) == v * (u * w),
{
}

/// The adjugate, scaled by `s q`, undoes the planar map
/// `(x, y) -> (a x + b y, c x + d y)` up to the factor `s q (a d - b c)`.
proof fn lemma_adjugate(a: int, b: int, c: int, d: int, x: int, y: int, s: int, q: int)
    ensures
        s * q * d * (a * x + b * y) + -s * q * b * (c * x + d * y) == s * q * (a * d - b * c) * x,
        -s * q * c * (a * x + b * y) + s * q * a * (c * x + d * y) == s * q * (a * d - b * c) * y,
{
    let sq = s * q;
    let a1 = a * x + b * y;
    let a2 = c * x + d * y;
    let det = a * d - b * c;
    lemma_adjugate_core(a, b, c, d, x, y);
    lemma_mul_unary_negation(s, q);
    lemma_mul_unary_negation(sq, b);
    lemma_mul_unary_negation(sq, c);
    lemma_mul_unary_negation(sq * b, a2);
    lemma_mul_unary_negation(sq * c, a1);
    lemma_mul_is_associative(sq, d, a1);
    lemma_mul_is_associative(sq, b, a2);
    lemma_mul_is_associative(sq, c, a1);
    lemma_mul_is_associative(sq, a, a2);
    lemma_mul_is_distributive_sub(sq, d * a1, b * a2);
    lemma_mul_is_distributive_sub(sq, a * a2, c * a1);
    lemma_mul_is_associative(sq, det, x);
    lemma_mul_is_associative(sq, det, y);
    lemma_mul_unary_negation(c, a1);
}

/// `n (v t w) u = (n v) (t u w)`: regrouping a product of five factors.
proof fn lemma_regroup(n: int, v: int, t: int, w: int, u: int) by (nonlinear_arith)
    ensures
        n * (v * t * w) * u == (n * v) * (t * u * w),
{
}

/// The planar inverse undoes the planar projection on one axis.
proof fn lemma_inverse_axis(
    n1: int,
    n2: int,
    v1: int,
    v2: int,
    alpha: int,
    k: int,
    tx: int,
    ty: int,
    od: int,
)
    requires
        n1 * v1 + n2 * v2 == k * alpha,
    ensures
        n1 * (v1 * tx * od * od) * ty + n2 * (v2 * ty * od * od) * tx == k * alpha * (tx * ty * (
        od * od)),
{
    let w = od * od;
    lemma_mul_is_associative(v1 * tx, od, od);
    lemma_mul_is_associative(v2 * ty, od, od);
    lemma_regroup(n1, v1, tx, w, ty);
    lemma_regroup(n2, v2, ty, w, tx);
    lemma_mul_is_commutative(ty, tx);
    lemma_mul_is_distributive_add_other_way(tx * ty * w, n1 * v1, n2 * v2);
}

/// Cross-multiplied, `k x P / (q sd (od od) t1 t2 g)` is `x / sd` when
/// `k = s q det`, `g = s det` and `P = t1 t2 (od od)`.
proof fn lemma_cross(k: int, x: int, t1: int, t2: int, od: int, sd: int, q: int, s: int, det: int, g: int)
    requires
        k == s * q * det,
        g == s * det,
    ensures
        k * x * (t1 * t2 * (od * od)) * sd == x * (q * sd * od * od * t1 * t2 * g),
{
    let w = od * od;
    let p = t1 * t2 * w;
    assert(q * sd * od * od * t1 * t2 * g == sd * (q * g * p)) by {
        lemma_mul_is_associative(q * sd, od, od);
        lemma_cross_core(q, sd, w, t1, t2, g);
    }
    assert(k == q * g) by {
        lemma_mul_is_commutative(s, q);
        lemma_mul_is_associative(q, s, det);
    }
    lemma_cross_tail(k, x, p, sd);
}

proof fn lemma_cross_core(q: int, sd: int, w: int, t1: int, t2: int, g: int)
    ensures
        q * sd * w * t1 * t2 * g == sd * (q * g * (t1 * t2 * w)),
{
    lemma_four_factors(q * sd, w, t1, t2);
    lemma_move_factor(q, sd, t1 * t2 * w, g);
}

/// `a w x y = a (x y w)`.
proof fn lemma_four_factors(a: int, w: int, x: int, y: int) by (nonlinear_arith)
    ensures
        a * w * x * y == a * (x * y * w),
{
}

/// `(q s p) g = s (q g p)`.
proof fn lemma_move_factor(q: int, s: int, p: int, g: int) by (nonlinear_arith)
    ensures
        q * s * p * g == s * (q * g * p),
{
}

proof fn lemma_cross_tail(k: int, x: int, p: int, sd: int) by (nonlinear_arith)
    ensures
        k * x * p * sd == x * (sd * (k * p)),
{
}

/// Round trip: for a map position `p` on the map's plane, taking it to local
/// coordinates and back gives `p` again, exactly, whenever the inverse
/// projection has been derived (for the rectangular and the axonometric
/// projections alike, and for any other invertible one).
pub proof fn lemma_round_trip(u: MapUniform, p: Q3)
    requires
        u.wf(),
        u.inverse_derived(),
        p.z == 0,
        p.den > 0,
    ensures
        ({
            let l = u.spec_map_to_local(p);
            let r = u.spec_local_to_map(Q2 { x: l.x, y: l.y, den: l.den });
            &&& r.z == 0
            &&& r.den > 0
            &&& same_ratio(r.x, r.den, p.x, p.den)
            &&& same_ratio(r.y, r.den, p.y, p.den)
        }),
{
    let m = u.projection;
    let q = u.projection_den as int;
    let od = u.world_offset.den as int;
    let tx = u.tile_size.x as int;
    let ty = u.tile_size.y as int;
    let det = det2(m);
    let s: int = if det < 0 { -1 } else { 1 };
    let g = s * det;
    let l = u.spec_map_to_local(p);
    let r = u.spec_local_to_map(Q2 { x: l.x, y: l.y, den: l.den });
    let a1 = row_x(m, p.x, p.y, p.z);
    let a2 = row_y(m, p.x, p.y, p.z);
    let n = u.inverse_projection;
    let k = s * q * det;
    lemma_inverse_entries(u);
    lemma_offset_cancels(a1, tx, od, u.world_offset.x as int, q, p.den);
    lemma_offset_cancels(a2, ty, od, u.world_offset.y as int, q, p.den);
    lemma_adjugate(
        m.x_axis.x as int,
        m.y_axis.x as int,
        m.x_axis.y as int,
        m.y_axis.y as int,
        p.x,
        p.y,
        s,
        q,
    );
    assert(a1 == m.x_axis.x * p.x + m.y_axis.x * p.y);
    assert(a2 == m.x_axis.y * p.x + m.y_axis.y * p.y);
    assert(n.x_axis_x * a1 + n.y_axis_x * a2 == k * p.x);
    assert(n.x_axis_y * a1 + n.y_axis_y * a2 == k * p.y);
    lemma_inverse_axis(n.x_axis_x as int, n.y_axis_x as int, a1, a2, p.x, k, tx, ty, od);
    lemma_inverse_axis(n.x_axis_y as int, n.y_axis_y as int, a1, a2, p.y, k, tx, ty, od);
    assert(r.x == k * p.x * (tx * ty * (od * od)));
    assert(r.y == k * p.y * (tx * ty * (od * od)));
    assert(g > 0);
    lemma_mul_positive(q, p.den);
    lemma_mul_positive(q * p.den, od);
    lemma_mul_positive(q * p.den * od, od);
    lemma_mul_positive(q * p.den * od * od, tx);
    lemma_mul_positive(q * p.den * od * od * tx, ty);
    lemma_mul_positive(q * p.den * od * od * tx * ty, g);
    lemma_cross(k, p.x, tx, ty, od, p.den, q, s, det, g);
    lemma_cross(k, p.y, tx, ty, od, p.den, q, s, det, g);
}

} // verus!
