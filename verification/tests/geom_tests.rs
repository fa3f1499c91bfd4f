use abomination_core::geom::{aim_velocity, dist_sq_exec, isqrt, step_toward_origin, Vec2};
use abomination_core::grid::{flip_flags, tile_center_exec, tile_coord, Dir};

#[test]
fn isqrt_small_values() {
    assert_eq!(isqrt(0), 0);
    assert_eq!(isqrt(1), 1);
    assert_eq!(isqrt(2), 1);
    assert_eq!(isqrt(3), 1);
    assert_eq!(isqrt(4), 2);
    assert_eq!(isqrt(99), 9);
    assert_eq!(isqrt(100), 10);
}

#[test]
fn isqrt_large_values() {
    assert_eq!(isqrt(57_600_000_000), 240_000);
    assert_eq!(isqrt(57_599_999_999), 239_999);
    assert_eq!(isqrt(u64::MAX), 4_294_967_295);
}

#[test]
fn dist_sq_is_exact() {
    let a = Vec2 { x: 3, y: 4 };
    let o = Vec2 { x: 0, y: 0 };
    assert_eq!(dist_sq_exec(a, o), 25);
    let b = Vec2 { x: -3, y: -4 };
    assert_eq!(dist_sq_exec(a, b), 36 + 64);
}

#[test]
fn step_moves_straight_in() {
    let p = Vec2 { x: 240_000, y: 0 };
    let q = step_toward_origin(p, 27_000);
    assert_eq!(q, Vec2 { x: 213_000, y: 0 });
}

#[test]
fn step_moves_along_the_ray() {
    // distance 50_000; a step of 5_000 shrinks each coordinate by a tenth
    let p = Vec2 { x: 30_000, y: 40_000 };
    let q = step_toward_origin(p, 5_000);
    assert_eq!(q, Vec2 { x: 27_000, y: 36_000 });
}

#[test]
fn step_stops_at_the_origin() {
    let p = Vec2 { x: 300, y: -400 };
    assert_eq!(step_toward_origin(p, 1_000_000), Vec2 { x: 0, y: 0 });
    assert_eq!(step_toward_origin(Vec2 { x: 0, y: 0 }, 5), Vec2 { x: 0, y: 0 });
}

#[test]
fn aim_scales_the_unit_vector() {
    let o = Vec2 { x: 0, y: 0 };
    assert_eq!(aim_velocity(o, Vec2 { x: 50_000, y: 0 }, 12_000), Vec2 { x: 12_000, y: 0 });
    assert_eq!(aim_velocity(o, Vec2 { x: 0, y: -50_000 }, 18_000), Vec2 { x: 0, y: -18_000 });
    // 3-4-5 triangle: components split 3:4
    assert_eq!(
        aim_velocity(o, Vec2 { x: 30_000, y: 40_000 }, 29_000),
        Vec2 { x: 17_400, y: 23_200 }
    );
}

#[test]
fn aim_at_the_same_point_fires_along_x() {
    let p = Vec2 { x: 120_000, y: 36_000 };
    assert_eq!(aim_velocity(p, p, 12_000), Vec2 { x: 12_000, y: 0 });
}

#[test]
fn tile_coord_projects_and_saturates() {
    // the origin sits in the middle of the grid
    assert_eq!(tile_coord(0), 16);
    assert_eq!(tile_coord(-396_000), 0);
    assert_eq!(tile_coord(-396_001), 0);
    assert_eq!(tile_coord(-900_000), 0);
    assert_eq!(tile_coord(371_999), 31);
    assert_eq!(tile_coord(372_000), 32);
}

#[test]
fn core_tile_center_is_the_origin() {
    assert_eq!(tile_center_exec(16, 16), Vec2 { x: 0, y: 0 });
    assert_eq!(tile_center_exec(0, 0), Vec2 { x: -384_000, y: -384_000 });
    assert_eq!(tile_center_exec(16, 17), Vec2 { x: 0, y: 24_000 });
}

#[test]
fn flip_flags_by_direction() {
    assert_eq!(flip_flags(Dir::North), (false, false, true));
    assert_eq!(flip_flags(Dir::South), (false, true, true));
    assert_eq!(flip_flags(Dir::West), (false, false, false));
    assert_eq!(flip_flags(Dir::East), (true, false, false));
}
