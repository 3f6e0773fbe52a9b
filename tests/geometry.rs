use fast_tilemap::map::{DefaultUserData, MapIndexer, TileMap};
use fast_tilemap::map_builder::MapBuilder;
use fast_tilemap::map_uniform::{tile_count, MapError};
use fast_tilemap::math::{IVec2, Point2, Point3, UVec2};
use fast_tilemap::overhang::{derive_underhangs, diagonal_winner, dominates, Direction};
use fast_tilemap::tile_projection::{axonometric, identity, TileProjection};

fn uvec(x: u32, y: u32) -> UVec2 {
    UVec2 { x, y }
}

fn builder(w: u32, h: u32) -> MapBuilder<(), DefaultUserData> {
    TileMap::<(), DefaultUserData>::builder(uvec(w, h), (), uvec(16, 16))
}

/// `p` denotes the rational point `(x, y)`.
fn is_point(p: Point2, x: i128, y: i128) -> bool {
    p.x == x * p.den && p.y == y * p.den
}

/// `p` and `q` denote the same rational point.
fn same_point(p: Point2, q: Point2) -> bool {
    p.x * q.den == q.x * p.den && p.y * q.den == q.y * p.den
}

fn build_with(projection: TileProjection) -> TileMap<(), DefaultUserData> {
    builder(10, 10).with_projection(projection).build().unwrap()
}

#[test]
fn end_to_end_ten_by_ten() {
    let mut map = builder(10, 10)
        .with_projection(identity())
        .build_and_initialize(|m: &mut MapIndexer| m.set(5, 5, 7))
        .unwrap();
    let idx = map.indexer_mut();
    for y in 0..10 {
        for x in 0..10 {
            let expected = if x == 5 && y == 5 { 7 } else { 0 };
            assert_eq!(idx.at(x, y), expected);
        }
    }
    // 160 pixels of map plus one 16-pixel tile of margin on each axis.
    assert!(is_point(map.world_size(), 176, 176));
    // (5.5, 5.5) is the center of tile (5, 5): the tile spans local x in
    // [0, 16] and local y in [-16, 0].
    let center = map.map_to_local(Point2::new(11, 11, 2));
    assert!(is_point(center, 8, -8));
}

#[test]
fn atlas_of_nine_by_nine_tiles() {
    let mut map = build_with(identity());
    assert_eq!(map.update(Some(uvec(144, 144)), None), Ok(true));
    assert_eq!(map.map_uniform.n_tiles, uvec(9, 9));
    assert_eq!(map.map_uniform.atlas_size, uvec(144, 144));
    // The same size again changes nothing.
    assert_eq!(map.update(Some(uvec(144, 144)), None), Ok(false));
}

#[test]
fn atlas_with_half_a_tile_is_refused() {
    let mut map = build_with(identity());
    let before = map.map_uniform;
    let r = map.update(Some(uvec(136, 144)), None);
    assert_eq!(
        r,
        Err(MapError::NonIntegralTileCount {
            columns_num: 136,
            columns_den: 16,
            rows_num: 144,
            rows_den: 16
        })
    );
    assert_eq!(map.map_uniform, before);
}

#[test]
fn atlas_with_padding() {
    // 2 + 4 * 16 + 3 * 1 + 3 = 72 pixels: four tiles with one pixel between.
    let mut map = builder(4, 4)
        .with_padding(uvec(1, 1), uvec(2, 2), uvec(3, 3))
        .build()
        .unwrap();
    assert_eq!(map.update(Some(uvec(72, 72)), None), Ok(true));
    assert_eq!(map.map_uniform.n_tiles, uvec(4, 4));
}

#[test]
fn atlas_not_loaded_yet() {
    let mut map = build_with(identity());
    assert_eq!(map.update(None, None), Ok(false));
    assert_eq!(map.map_uniform.atlas_size, uvec(0, 0));
}

#[test]
fn pattern_atlas_awaited() {
    let mut map = builder(4, 4).with_pattern_tiles((), 2, 3).build().unwrap();
    assert_eq!(map.update(Some(uvec(64, 64)), None), Ok(false));
    assert_eq!(map.update(Some(uvec(64, 64)), Some(uvec(32, 32))), Ok(true));
    assert_eq!(map.map_uniform.n_tiles, uvec(4, 4));
}

#[test]
fn tile_count_tolerance() {
    assert_eq!(tile_count(144, 16), Some(9));
    assert_eq!(tile_count(136, 16), None);
    // 9.01 and 8.99 are within 1/100 of 9, which is the count.
    assert_eq!(tile_count(901, 100), Some(9));
    assert_eq!(tile_count(899, 100), Some(9));
    assert_eq!(tile_count(902, 100), None);
    assert_eq!(tile_count(-16, 16), Some(0));
}

#[test]
fn reads_outside_the_grid_are_zero() {
    let (w, h) = (6u32, 4u32);
    let mut map = builder(w, h)
        .build_and_set(|c: UVec2| c.x + 10 * c.y + 1)
        .unwrap();
    let mut idx = map.indexer_mut();
    assert_eq!(idx.at(w, 0), 0);
    assert_eq!(idx.at(0, h), 0);
    assert_eq!(idx.at(w + 5, h + 5), 0);
    assert_eq!(idx.at_ivec(IVec2 { x: -1, y: 0 }), 0);
    idx.set(w, 0, 99);
    idx.set(0, h, 99);
    idx.set(w + 5, h + 5, 99);
    for y in 0..h {
        for x in 0..w {
            assert_eq!(idx.at(x, y), x + 10 * y + 1);
        }
    }
    assert_eq!(idx.at_uvec(uvec(w - 1, 0)), w);
    assert_eq!(idx.at_ivec(IVec2 { x: 0, y: 1 }), 11);
}

#[test]
fn set_writes_one_cell() {
    let mut map = builder(3, 3).build().unwrap();
    let mut idx = map.indexer_mut();
    idx.set_uvec(uvec(2, 1), 5);
    assert_eq!(idx.size(), uvec(3, 3));
    for y in 0..3 {
        for x in 0..3 {
            assert_eq!(idx.at(x, y), if (x, y) == (2, 1) { 5 } else { 0 });
        }
    }
    assert_eq!(*map.map_texture(), vec![0, 0, 0, 0, 0, 5, 0, 0, 0]);
}

#[test]
fn round_trip_identity() {
    let map = build_with(identity());
    for (x, y, den) in [(11, 11, 2), (0, 0, 1), (3, 7, 1), (19, 1, 2)] {
        let p = Point2::new(x, y, den);
        let back = map.local_to_map(map.map_to_local(p));
        assert!(same_point(back, p));
    }
}

#[test]
fn round_trip_axonometric() {
    let map = build_with(axonometric());
    for (x, y, den) in [(11, 11, 2), (0, 0, 1), (3, 7, 1), (19, 1, 2), (1, 2, 3)] {
        let p = Point2::new(x, y, den);
        let back = map.local_to_map(map.map_to_local(p));
        assert!(same_point(back, p));
    }
}

#[test]
fn axonometric_world_size() {
    let map = build_with(axonometric());
    // Corners project to x in [0, 10] tiles and y in [-5, 5] tiles; a tile
    // is 16 by 16 pixels.
    assert!(is_point(map.world_size(), 176, 176));
    // The map origin sits at the left point of the diamond.
    let origin = map.map_to_local(Point2::new(0, 0, 1));
    assert!(is_point(origin, -80, 0));
}

#[test]
fn corners_inside_world_box() {
    for projection in [identity(), axonometric()] {
        let map = builder(7, 3).with_projection(projection).build().unwrap();
        let ws = map.world_size();
        let s = map.map_size();
        for (cx, cy) in [(0, 0), (s.x, 0), (0, s.y), (s.x, s.y)] {
            let l = map.map_to_local(Point2::new(cx as i128, cy as i128, 1));
            // |l| <= ws / 2 on both axes.
            assert!((2 * l.x * ws.den).abs() <= ws.x * l.den);
            assert!((2 * l.y * ws.den).abs() <= ws.y * l.den);
        }
    }
}

#[test]
fn identity_has_no_underhangs() {
    let map = build_with(identity());
    assert!(map.perspective_defs.is_empty());
}

#[test]
fn axonometric_underhangs() {
    let map = build_with(axonometric());
    assert_eq!(
        map.perspective_defs,
        vec![Direction::NZ, Direction::NP, Direction::ZP]
    );
    let key = map.key();
    assert_eq!(key.perspective_defs, map.perspective_defs);
    assert!(key.perspective_underhangs && key.perspective_overhangs);
    assert!(!key.dominance_overhangs);
}

#[test]
fn forced_underhangs() {
    let map = builder(4, 4)
        .with_forced_underhangs(vec![IVec2 { x: -1, y: 1 }, IVec2 { x: 2, y: 0 }, IVec2 { x: 0, y: 0 }])
        .build()
        .unwrap();
    assert_eq!(map.perspective_defs, vec![Direction::NP, Direction::PZ]);
    let repeated = derive_underhangs(&identity().projection, &vec![IVec2 { x: 0, y: -3 }, IVec2 { x: 0, y: -1 }]);
    assert_eq!(repeated, vec![Direction::ZN, Direction::ZN]);
}

#[test]
fn overhang_modes() {
    let b = builder(2, 2).with_dominance_overhang();
    assert!(b.map.dominance_overhangs && !b.map.perspective_overhangs && !b.map.perspective_underhangs);
    let b = b.with_perspective_overhang();
    assert!(!b.map.dominance_overhangs && b.map.perspective_overhangs && b.map.perspective_underhangs);
    let b = b.with_overhangs(true, false, true);
    assert!(b.map.dominance_overhangs && !b.map.perspective_underhangs && b.map.perspective_overhangs);
    let b = b.with_user_data(DefaultUserData { x: 4 });
    assert_eq!(b.map.user_data, DefaultUserData { x: 4 });
}

#[test]
fn singular_projection_is_refused() {
    let mut flat = identity();
    flat.projection.y_axis.y = 0;
    let r = builder(4, 4).with_projection(flat).build();
    assert!(matches!(r, Err(MapError::SingularProjection)));
}

#[test]
fn depth_of_axonometric_positions() {
    let map = build_with(axonometric());
    // Depth grows along x and shrinks along y: (1, 0) is half a unit deep.
    let d = map.map_to_local_3d(Point3::new(1, 0, 0, 1));
    assert_eq!(2 * d.z, d.den);
    let d = map.map_to_local_3d(Point3::new(0, 1, 0, 1));
    assert_eq!(-2 * d.z, d.den);
}

#[test]
fn shader_flags_of_axonometric_map() {
    let map = build_with(axonometric());
    let defs = map.key().shader_defs();
    assert_eq!(
        defs,
        vec![
            "PERSPECTIVE_UNDERHANGS".to_string(),
            "PERSPECTIVE_OVERHANGS".to_string(),
            "PERSPECTIVE_UNDER_NZ".to_string(),
            "PERSPECTIVE_UNDER_NP".to_string(),
            "PERSPECTIVE_UNDER_ZP".to_string(),
        ]
    );
}

#[test]
fn shader_flags_of_dominance_map() {
    let map = builder(3, 3).with_dominance_overhang().build().unwrap();
    assert_eq!(map.key().shader_defs(), vec!["DOMINANCE_OVERHANGS".to_string()]);
    assert_eq!(Direction::PN.def_name(), "PERSPECTIVE_UNDER_PN");
    assert_eq!(Direction::ZN.offset(), IVec2 { x: 0, y: -1 });
}

#[test]
fn dominance_rules() {
    assert!(dominates(2, 3, 1));
    assert!(!dominates(2, 4, 1));
    assert!(!dominates(3, 3, 5));
    assert!(!dominates(4, 3, 5));
    assert_eq!(diagonal_winner(1, 2, 3, 4), 4);
    assert_eq!(diagonal_winner(1, 5, 3, 4), 5);
    assert_eq!(diagonal_winner(6, 5, 3, 4), 6);
    assert_eq!(diagonal_winner(0, 0, 7, 4), 7);
}

#[test]
fn local_origin_is_map_center() {
    let map = build_with(identity());
    let center = map.local_to_map(Point2::from_ints(0, 0));
    assert!(is_point(center, 5, 5));
    let axo = build_with(axonometric());
    let center = axo.local_to_map(Point2::from_ints(0, 0));
    assert!(is_point(center, 5, 5));
}

#[test]
fn empty_map() {
    let mut map = builder(0, 0).build().unwrap();
    assert!(map.map_texture().is_empty());
    // Only the one tile of margin remains.
    assert!(is_point(map.world_size(), 16, 16));
    let idx = map.indexer_mut();
    assert_eq!(idx.at(0, 0), 0);
}

#[test]
fn build_and_set_with_state() {
    let mut count = 0u32;
    let mut map = builder(3, 2)
        .build_and_set(|_c: UVec2| {
            count += 1;
            count
        })
        .unwrap();
    let idx = map.indexer_mut();
    assert_eq!(idx.at(0, 0), 1);
    assert_eq!(idx.at(2, 0), 3);
    assert_eq!(idx.at(0, 1), 4);
    assert_eq!(idx.at(2, 1), 6);
}

#[test]
fn projected_map_inside_bounds() {
    for projection in [identity(), axonometric()] {
        let map = builder(7, 3).with_projection(projection).build().unwrap();
        let ws = map.world_size();
        for y2 in 0..=6 {
            for x2 in 0..=14 {
                let l = map.map_to_local(Point2::new(x2, y2, 2));
                // |l| <= (ws - tile) / 2 on both axes.
                assert!((2 * l.x * ws.den).abs() <= (ws.x - 16 * ws.den) * l.den);
                assert!((2 * l.y * ws.den).abs() <= (ws.y - 16 * ws.den) * l.den);
            }
        }
    }
}
