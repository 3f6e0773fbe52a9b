//! Which neighbors of a tile a renderer resamples: the perspective rule (a
//! neighbor direction whose projected depth is negative is an underhang), the
//! explicitly forced underhang directions, and the tie-break rules of the
//! dominance mode.
use vstd::prelude::*;

use crate::math::{lemma_mul_positive, row_z, IVec2, Mat3, Q3};
use crate::map_uniform::MapUniform;

verus! {

/// One of the eight neighbor directions of a grid cell, named by the sign of
/// its x and y steps: `Z` zero, `N` negative, `P` positive.
#[derive(Debug, Clone, Copy, PartialEq, Eq, Hash, Structural)]
pub enum Direction {
    ZN,
    NN,
    NZ,
    NP,
    ZP,
    PP,
    PZ,
    PN,
}

/// The eight neighbor directions, in the order in which they are examined.
pub open spec fn all_directions() -> Seq<Direction> {
    seq![
        Direction::ZN,
        Direction::NN,
        Direction::NZ,
        Direction::NP,
        Direction::ZP,
        Direction::PP,
        Direction::PZ,
        Direction::PN,
    ]
}

impl Direction {
    /// The grid step of this direction.
    pub open spec fn spec_offset(self) -> (int, int) {
        match self {
            Direction::ZN => (0, -1),
            Direction::NN => (-1, -1),
            Direction::NZ => (-1, 0),
            Direction::NP => (-1, 1),
            Direction::ZP => (0, 1),
            Direction::PP => (1, 1),
            Direction::PZ => (1, 0),
            Direction::PN => (1, -1),
        }
    }

    /// The grid step of this direction.
    pub fn offset(&self) -> (r: IVec2)
        ensures
            r.x == self.spec_offset().0,
            r.y == self.spec_offset().1,
    {
        match self {
            Direction::ZN => IVec2 { x: 0, y: -1 },
            Direction::NN => IVec2 { x: -1, y: -1 },
            Direction::NZ => IVec2 { x: -1, y: 0 },
            Direction::NP => IVec2 { x: -1, y: 1 },
            Direction::ZP => IVec2 { x: 0, y: 1 },
            Direction::PP => IVec2 { x: 1, y: 1 },
            Direction::PZ => IVec2 { x: 1, y: 0 },
            Direction::PN => IVec2 { x: 1, y: -1 },
        }
    }
}

impl Direction {
    /// Name of the renderer flag that marks this direction as an underhang.
    pub open spec fn spec_def_name(self) -> Seq<char> {
        match self {
            Direction::ZN => "PERSPECTIVE_UNDER_ZN"@,
            Direction::NN => "PERSPECTIVE_UNDER_NN"@,
            Direction::NZ => "PERSPECTIVE_UNDER_NZ"@,
            Direction::NP => "PERSPECTIVE_UNDER_NP"@,
            Direction::ZP => "PERSPECTIVE_UNDER_ZP"@,
            Direction::PP => "PERSPECTIVE_UNDER_PP"@,
            Direction::PZ => "PERSPECTIVE_UNDER_PZ"@,
            Direction::PN => "PERSPECTIVE_UNDER_PN"@,
        }
    }

    /// Name of the renderer flag that marks this direction as an underhang.
    pub fn def_name(&self) -> (r: String)
        ensures
            r@ == self.spec_def_name(),
    {
        match self {
            Direction::ZN => "PERSPECTIVE_UNDER_ZN".to_owned(),
            Direction::NN => "PERSPECTIVE_UNDER_NN".to_owned(),
            Direction::NZ => "PERSPECTIVE_UNDER_NZ".to_owned(),
            Direction::NP => "PERSPECTIVE_UNDER_NP".to_owned(),
            Direction::ZP => "PERSPECTIVE_UNDER_ZP".to_owned(),
            Direction::PP => "PERSPECTIVE_UNDER_PP".to_owned(),
            Direction::PZ => "PERSPECTIVE_UNDER_PZ".to_owned(),
            Direction::PN => "PERSPECTIVE_UNDER_PN".to_owned(),
        }
    }
}

/// The direction at position `i` of `all_directions`.
fn direction_at(i: usize) -> (r: Direction)
    requires
        i < 8,
    ensures
        r == all_directions()[i as int],
{
    if i == 0 {
        Direction::ZN
    } else if i == 1 {
        Direction::NN
    } else if i == 2 {
        Direction::NZ
    } else if i == 3 {
        Direction::NP
    } else if i == 4 {
        Direction::ZP
    } else if i == 5 {
        Direction::PP
    } else if i == 6 {
        Direction::PZ
    } else {
        Direction::PN
    }
}

/// Projected depth (times the projection's denominator) of one step in
/// direction `d` on the map's plane.
pub open spec fn depth(m: Mat3, d: Direction) -> int {
    row_z(m, d.spec_offset().0, d.spec_offset().1, 0)
}

/// The underhangs among the first `n` directions: those of negative depth,
/// in order.
pub open spec fn perspective_underhangs(m: Mat3, n: nat) -> Seq<Direction>
    decreases n,
{
    if n == 0 {
        seq![]
    } else {
        let prev = perspective_underhangs(m, (n - 1) as nat);
        let d = all_directions()[n - 1];
        if depth(m, d) < 0 {
            prev.push(d)
        } else {
            prev
        }
    }
}

/// `f` points the same way as direction `d`: parallel, not opposite, and
/// nonzero.
pub open spec fn same_ray(f: IVec2, d: Direction) -> bool {
    let (dx, dy) = d.spec_offset();
    f.x * dy == f.y * dx && f.x * dx + f.y * dy > 0
}

/// The directions among the first `n` that `f` points along, in order.
pub open spec fn rays_of(f: IVec2, n: nat) -> Seq<Direction>
    decreases n,
{
    if n == 0 {
        seq![]
    } else {
        let prev = rays_of(f, (n - 1) as nat);
        let d = all_directions()[n - 1];
        if same_ray(f, d) {
            prev.push(d)
        } else {
            prev
        }
    }
}

/// The directions that the forced underhangs `forced` select, forced
/// direction by forced direction.
pub open spec fn forced_underhangs(forced: Seq<IVec2>) -> Seq<Direction>
    decreases forced.len(),
{
    if forced.len() == 0 {
        seq![]
    } else {
        forced_underhangs(forced.drop_last()) + rays_of(forced.last(), 8)
    }
}

/// The underhang directions for a projection: with no forced directions,
/// those whose projected depth is negative; otherwise those that the forced
/// directions point along.
pub open spec fn underhang_directions(m: Mat3, forced: Seq<IVec2>) -> Seq<Direction> {
    if forced.len() == 0 {
        perspective_underhangs(m, 8)
    } else {
        forced_underhangs(forced)
    }
}

/// Whether `f` points along direction `d`.
fn points_along(f: IVec2, d: Direction) -> (r: bool)
    ensures
        r == same_ray(f, d),
{
    let o = d.offset();
    let (fx, fy, dx, dy) = (f.x as i128, f.y as i128, o.x as i128, o.y as i128);
    proof {
        assert(-1 <= dx <= 1 && -1 <= dy <= 1);
        assert(fx * dy == if dy == 0 { 0 } else if dy == 1 { fx as int } else { -fx }) by (
        nonlinear_arith)
            requires
                -1 <= dy <= 1,
        ;
        assert(fy * dx == if dx == 0 { 0 } else if dx == 1 { fy as int } else { -fy }) by (
        nonlinear_arith)
            requires
                -1 <= dx <= 1,
        ;
        assert(fx * dx == if dx == 0 { 0 } else if dx == 1 { fx as int } else { -fx }) by (
        nonlinear_arith)
            requires
                -1 <= dx <= 1,
        ;
        assert(fy * dy == if dy == 0 { 0 } else if dy == 1 { fy as int } else { -fy }) by (
        nonlinear_arith)
            requires
                -1 <= dy <= 1,
        ;
    }
    fx * dy == fy * dx && fx * dx + fy * dy > 0
}

/// Projected depth of one step in direction `d`.
fn step_depth(m: &Mat3, d: Direction) -> (r: i128)
    ensures
        r == depth(*m, d),
{
    let o = d.offset();
    let (a, b, dx, dy) = (m.x_axis.z as i128, m.y_axis.z as i128, o.x as i128, o.y as i128);
    proof {
        assert(a * dx == if dx == 0 { 0 } else if dx == 1 { a as int } else { -a }) by (
        nonlinear_arith)
            requires
                -1 <= dx <= 1,
        ;
        assert(b * dy == if dy == 0 { 0 } else if dy == 1 { b as int } else { -b }) by (
        nonlinear_arith)
            requires
                -1 <= dy <= 1,
        ;
    }
    a * dx + b * dy
}

/// Derive the underhang directions: with `force_underhangs` empty, each
/// neighbor direction whose one-step projection has negative depth, in the
/// order of `all_directions`; otherwise, for each forced direction in turn,
/// the neighbor directions it points along.
pub fn derive_underhangs(projection: &Mat3, force_underhangs: &Vec<IVec2>) -> (r: Vec<Direction>)
    requires
        -256 <= projection.x_axis.z <= 256,
        -256 <= projection.y_axis.z <= 256,
    ensures
        r@ == underhang_directions(*projection, force_underhangs@),
{
    let mut defs: Vec<Direction> = Vec::new();
    if force_underhangs.len() == 0 {
        let mut i: usize = 0;
        while i < 8
            invariant
                i <= 8,
                -256 <= projection.x_axis.z <= 256,
                -256 <= projection.y_axis.z <= 256,
                defs@ == perspective_underhangs(*projection, i as nat),
            decreases 8 - i,
        {
            let d = direction_at(i);
            if step_depth(projection, d) < 0 {
                defs.push(d);
            }
            i = i + 1;
        }
    } else {
        let mut k: usize = 0;
        while k < force_underhangs.len()
            invariant
                k <= force_underhangs.len(),
                defs@ == forced_underhangs(force_underhangs@.take(k as int)),
            decreases force_underhangs.len() - k,
        {
            let f = force_underhangs[k];
            let ghost before = defs@;
            let mut i: usize = 0;
            while i < 8
                invariant
                    i <= 8,
                    k < force_underhangs.len(),
                    f == force_underhangs@[k as int],
                    defs@ == before + rays_of(f, i as nat),
                decreases 8 - i,
            {
                let d = direction_at(i);
                if points_along(f, d) {
                    defs.push(d);
                }
                i = i + 1;
            }
            proof {
                let t = force_underhangs@.take(k as int + 1);
                assert(t.drop_last() =~= force_underhangs@.take(k as int));
                assert(t.last() == f);
            }
            k = k + 1;
        }
        proof {
            assert(force_underhangs@.take(force_underhangs.len() as int) =~= force_underhangs@);
        }
    }
    defs
}

/// Dominance mode: a neighbor's tile is drawn over the current one when its
/// index is strictly higher, by at most `max_levels`.
pub open spec fn spec_dominates(current: u32, neighbor: u32, max_levels: u32) -> bool {
    current < neighbor && neighbor - current <= max_levels
}

/// Whether, in dominance mode, the neighbor's tile `neighbor` is drawn over
/// the tile `current`.
pub fn dominates(current: u32, neighbor: u32, max_levels: u32) -> (r: bool)
    ensures
        r == spec_dominates(current, neighbor, max_levels),
{
    current < neighbor && neighbor - current <= max_levels
}

/// The tile drawn where a pixel falls into the corner shared by the current
/// cell, its right and bottom neighbors and the diagonal one: the largest of
/// the four indices, so that the diagonal wins only against all three
/// others.
pub fn diagonal_winner(current: u32, right: u32, bottom: u32, diagonal: u32) -> (r: u32)
    ensures
        r >= current && r >= right && r >= bottom && r >= diagonal,
        r == current || r == right || r == bottom || r == diagonal,
{
    let a = if current >= right { current } else { right };
    let b = if bottom >= diagonal { bottom } else { diagonal };
    if a >= b { a } else { b }
}

/// The perspective rule is the sign of the local depth: one step in
/// direction `d`, taken to local coordinates, has negative depth exactly when
/// `depth` is negative.
pub proof fn lemma_depth_sign(u: MapUniform, d: Direction)
    requires
        u.wf(),
    ensures
        u.spec_map_to_local(Q3 { x: d.spec_offset().0, y: d.spec_offset().1, z: 0, den: 1 }).z < 0
            <==> depth(u.projection, d) < 0,
{
    let od = u.world_offset.den as int;
    let z = depth(u.projection, d);
    if z < 0 {
        lemma_mul_positive(-z, od);
        assert((-z) * od == -(z * od)) by (nonlinear_arith);
    } else if z > 0 {
        lemma_mul_positive(z, od);
    }
}

/// With the rectangular projection and nothing forced, there are no
/// underhangs: every step has depth zero.
pub proof fn lemma_identity_has_no_underhangs()
    ensures
        underhang_directions(crate::tile_projection::spec_identity().projection, seq![]) == Seq::<
            Direction,
        >::empty(),
{
    let m = crate::tile_projection::spec_identity().projection;
    reveal_with_fuel(perspective_underhangs, 9);
    assert(perspective_underhangs(m, 8) =~= Seq::<Direction>::empty());
}

/// With the axonometric projection and nothing forced, the underhangs are
/// exactly the steps toward smaller x or larger y that lower the depth:
/// `NZ`, `NP` and `ZP`, in that order.
pub proof fn lemma_axonometric_underhangs()
    ensures
        underhang_directions(crate::tile_projection::spec_axonometric().projection, seq![])
            == seq![Direction::NZ, Direction::NP, Direction::ZP],
{
    let m = crate::tile_projection::spec_axonometric().projection;
    assert(m.x_axis.z == 1 && m.y_axis.z == -1 && m.z_axis.z == 0);
    assert(all_directions()[0] == Direction::ZN);
    assert(depth(m, Direction::ZN) == 1);
    assert(all_directions()[1] == Direction::NN);
    assert(depth(m, Direction::NN) == 0);
    assert(perspective_underhangs(m, 0) =~= seq![]);
    assert(perspective_underhangs(m, 1) =~= seq![]);
    assert(perspective_underhangs(m, 2) =~= seq![]);
    assert(perspective_underhangs(m, 3) =~= seq![Direction::NZ]);
    assert(perspective_underhangs(m, 4) =~= seq![Direction::NZ, Direction::NP]);
    assert(perspective_underhangs(m, 5) =~= seq![Direction::NZ, Direction::NP, Direction::ZP]);
    assert(perspective_underhangs(m, 6) =~= seq![Direction::NZ, Direction::NP, Direction::ZP]);
    assert(perspective_underhangs(m, 7) =~= seq![Direction::NZ, Direction::NP, Direction::ZP]);
    assert(perspective_underhangs(m, 8) =~= seq![Direction::NZ, Direction::NP, Direction::ZP]);
}

} // verus!
