//! How map coordinates relate to local coordinates.
use vstd::prelude::*;

use crate::math::{det2, mat3_within, Int3, Mat3, Point2};

verus! {

/// Largest magnitude of a projection entry, and of its denominator.
pub const MAX_PROJECTION: i64 = 256;

/// A linear map from map coordinates to tile units, and where in a tile the
/// map origin lands.
///
/// The projection is `projection / denominator`, normalized to the tile
/// dimensions: `1` means one full tile width or height. Its third row is the
/// depth of a map position ("further away" is less).
#[derive(Debug, Clone, Copy, PartialEq, Eq, Structural)]
pub struct TileProjection {
    pub projection: Mat3,
    pub denominator: i64,
    /// Relative anchor point in a tile: `(0, 0)` is top left, `(1, 1)` is
    /// bottom right.
    pub tile_anchor_point: Point2,
}

impl TileProjection {
    /// The projection's entries and denominator fit the conversions' exact
    /// `i128` arithmetic: entries within `[-256, 256]`, denominator in
    /// `[1, 256]`. This is a machine limit of that arithmetic, not a rule of
    /// projections.
    pub open spec fn in_range(&self) -> bool {
        &&& 1 <= self.denominator <= MAX_PROJECTION
        &&& mat3_within(self.projection, MAX_PROJECTION as int)
    }
}

/// Renders every tile as-is in a rectangular grid: `diag(1, -1, 1)`, which
/// flips y so that row 0 is at the top, anchored at the tile's top left.
pub open spec fn spec_identity() -> TileProjection {
    TileProjection {
        projection: Mat3 {
            x_axis: Int3 { x: 1, y: 0, z: 0 },
            y_axis: Int3 { x: 0, y: -1 as i64, z: 0 },
            z_axis: Int3 { x: 0, y: 0, z: 1 },
        },
        denominator: 1,
        tile_anchor_point: Point2 { x: 0, y: 0, den: 1 },
    }
}

/// Diamond-shaped tiles of an axonometric (e.g. isometric) view: the map x
/// axis goes from the anchor down to the tile's bottom center, the y axis up
/// to its top center. The columns are `(1/2, -1/2, 1/2)`, `(1/2, 1/2, -1/2)`
/// and `(0, -1, 0)`, so depth grows along x and shrinks along y. The anchor
/// is the tile's left point, vertically centered: `(0, 1/2)`.
pub open spec fn spec_axonometric() -> TileProjection {
    TileProjection {
        projection: Mat3 {
            x_axis: Int3 { x: 1, y: -1 as i64, z: 1 },
            y_axis: Int3 { x: 1, y: 1, z: -1 as i64 },
            z_axis: Int3 { x: 0, y: -2 as i64, z: 0 },
        },
        denominator: 2,
        tile_anchor_point: Point2 { x: 0, y: 1, den: 2 },
    }
}

/// The rectangular projection, `spec_identity`.
pub fn identity() -> (r: TileProjection)
    ensures
        r == spec_identity(),
        r.in_range(),
{
    TileProjection {
        projection: Mat3 {
            x_axis: Int3 { x: 1, y: 0, z: 0 },
            y_axis: Int3 { x: 0, y: -1, z: 0 },
            z_axis: Int3 { x: 0, y: 0, z: 1 },
        },
        denominator: 1,
        tile_anchor_point: Point2 { x: 0, y: 0, den: 1 },
    }
}

/// The axonometric projection, `spec_axonometric`.
pub fn axonometric() -> (r: TileProjection)
    ensures
        r == spec_axonometric(),
        r.in_range(),
{
    TileProjection {
        projection: Mat3 {
            x_axis: Int3 { x: 1, y: -1, z: 1 },
            y_axis: Int3 { x: 1, y: 1, z: -1 },
            z_axis: Int3 { x: 0, y: -2, z: 0 },
        },
        denominator: 2,
        tile_anchor_point: Point2 { x: 0, y: 1, den: 2 },
    }
}

/// Both built-in projections are invertible on the map's plane, so local
/// positions map back to map positions under either.
pub proof fn lemma_builtin_projections_invertible()
    ensures
        det2(spec_identity().projection) == -1,
        det2(spec_axonometric().projection) == 2,
{
}

} // verus!
