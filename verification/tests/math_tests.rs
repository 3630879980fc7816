//! The fixed-point kernel and the geometry helpers: saturation, truncating
//! division, square roots, trigonometry, matrices and ray intersections.

use engine::fixed::{fx_add, fx_div, fx_mul, fx_sqrt, fx_sub, FX_MAX};
use engine::mat::{model_matrix, mul_mat4, transform_dir, transform_point};
use engine::ray::{ray_aabb, ray_intersects_cube, ray_plane_intersection};
use engine::trig::{fx_atan2, fx_cos, fx_sin, HALF_PI, PI, QUARTER_PI};
use engine::{Transform, V3, HALF, SCALE};

#[test]
fn arithmetic_is_exact_in_range() {
    assert_eq!(fx_add(2_500_000, -1_000_000), 1_500_000);
    assert_eq!(fx_sub(2_500_000, 4_000_000), -1_500_000);
    // 3.0 * -2.0 = -6.0
    assert_eq!(fx_mul(3_000_000, -2_000_000), -6_000_000);
    // 1.0 / 3.0 truncates toward zero, in both signs.
    assert_eq!(fx_div(1_000_000, 3_000_000), 333_333);
    assert_eq!(fx_div(-1_000_000, 3_000_000), -333_333);
    // A zero divisor yields zero, never a fault.
    assert_eq!(fx_div(5_000_000, 0), 0);
}

#[test]
fn arithmetic_saturates_at_the_bound() {
    assert_eq!(fx_add(FX_MAX, FX_MAX), FX_MAX);
    assert_eq!(fx_sub(-FX_MAX, FX_MAX), -FX_MAX);
    assert_eq!(fx_mul(FX_MAX, FX_MAX), FX_MAX);
    assert_eq!(fx_mul(FX_MAX, -FX_MAX), -FX_MAX);
    assert_eq!(fx_div(FX_MAX, 1), FX_MAX);
}

#[test]
fn square_roots() {
    assert_eq!(fx_sqrt(4_000_000), 2_000_000);
    assert_eq!(fx_sqrt(25_000_000), 5_000_000);
    // sqrt(2) to fixed-point precision.
    assert_eq!(fx_sqrt(2_000_000), 1_414_213);
    assert_eq!(fx_sqrt(0), 0);
    assert_eq!(fx_sqrt(-7), 0);
}

#[test]
fn sine_and_cosine() {
    assert_eq!(fx_sin(0), 0);
    assert_eq!(fx_cos(0), SCALE);
    // The series is accurate to a few steps near the quarter turn.
    assert!((fx_sin(HALF_PI) - SCALE).abs() < 1_000);
    assert!(fx_cos(HALF_PI).abs() < 1_000);
    assert!((fx_sin(PI)).abs() < 1_000);
    assert!((fx_cos(PI) + SCALE).abs() < 1_000);
    // Odd and even symmetry are exact.
    assert_eq!(fx_sin(-777_123), -fx_sin(777_123));
    assert_eq!(fx_cos(-777_123), fx_cos(777_123));
    // Folding by whole turns is exact.
    assert_eq!(fx_sin(300_000 + 2 * engine::trig::TWO_PI), fx_sin(300_000));
    // Unit circle within tolerance.
    let (s, c) = (fx_sin(700_000), fx_cos(700_000));
    let one = fx_add(fx_mul(s, s), fx_mul(c, c));
    assert!((one - SCALE).abs() < 2_000);
}

#[test]
fn arctangent_quadrants() {
    assert_eq!(fx_atan2(0, 5_000_000), 0);
    assert_eq!(fx_atan2(5_000_000, 0), HALF_PI);
    assert_eq!(fx_atan2(-5_000_000, 0), -HALF_PI);
    assert_eq!(fx_atan2(0, -5_000_000), PI);
    // On the diagonal the polynomial is exact.
    assert_eq!(fx_atan2(3_000_000, 3_000_000), QUARTER_PI);
    assert_eq!(fx_atan2(0, 0), 0);
}

#[test]
fn model_matrix_of_unrotated_transform() {
    let t = Transform {
        position: V3 { x: 1_000_000, y: 2_000_000, z: 3_000_000 },
        rotation: V3 { x: 0, y: 0, z: 0 },
        scale: V3 { x: HALF, y: HALF, z: HALF },
    };
    let m = model_matrix(&t);
    let expect: Vec<i64> = vec![
        HALF, 0, 0, 0, 0, HALF, 0, 0, 0, 0, HALF, 0, 1_000_000, 2_000_000, 3_000_000, SCALE,
    ];
    assert_eq!(m, expect);
}

#[test]
fn matrix_product_with_identity() {
    let mut ident: Vec<i64> = vec![0; 16];
    ident[0] = SCALE;
    ident[5] = SCALE;
    ident[10] = SCALE;
    ident[15] = SCALE;
    let t = Transform {
        position: V3 { x: 4_000_000, y: 0, z: -2_000_000 },
        rotation: V3 { x: 0, y: 0, z: 0 },
        scale: V3 { x: HALF, y: HALF, z: HALF },
    };
    let m = model_matrix(&t);
    assert_eq!(mul_mat4(&ident, &m), m);
    assert_eq!(mul_mat4(&m, &ident), m);
}

#[test]
fn points_and_directions_through_a_matrix() {
    let t = Transform {
        position: V3 { x: 1_000_000, y: 0, z: 0 },
        rotation: V3 { x: 0, y: 0, z: 0 },
        scale: V3 { x: HALF, y: HALF, z: HALF },
    };
    let m = model_matrix(&t);
    // A point is scaled then translated; a direction only scaled.
    let p = transform_point(&m, V3 { x: 2_000_000, y: 2_000_000, z: 0 });
    assert_eq!((p.x, p.y, p.z), (2_000_000, 1_000_000, 0));
    let d = transform_dir(&m, V3 { x: 2_000_000, y: 2_000_000, z: 0 });
    assert_eq!((d.x, d.y, d.z), (1_000_000, 1_000_000, 0));
}

#[test]
fn unit_box_slab_hits() {
    // Straight +X through the box center from one unit out.
    let hit = ray_aabb(V3 { x: -SCALE, y: 0, z: 0 }, V3 { x: SCALE, y: 0, z: 0 });
    assert_eq!(hit, Some(HALF));
    // Aimed past the box: the parallel Y axis rejects it.
    let miss = ray_aabb(V3 { x: -SCALE, y: SCALE, z: 0 }, V3 { x: SCALE, y: 0, z: 0 });
    assert_eq!(miss, None);
    // An entry behind the origin does not count.
    let behind = ray_aabb(V3 { x: 0, y: 0, z: 0 }, V3 { x: SCALE, y: 0, z: 0 });
    assert_eq!(behind, None);
}

#[test]
fn world_cube_slab_reports_entry_even_behind() {
    let t = Transform {
        position: V3 { x: 2_000_000, y: 0, z: 0 },
        rotation: V3 { x: 0, y: 0, z: 0 },
        scale: V3 { x: HALF, y: HALF, z: HALF },
    };
    // Half-extent is the scale: faces at 1.5 and 2.5.
    let hit = ray_intersects_cube(V3 { x: 0, y: 0, z: 0 }, V3 { x: SCALE, y: 0, z: 0 }, &t);
    assert_eq!(hit, Some(1_500_000));
    // From beyond the cube looking further away: the entry parameter is
    // negative and is reported as-is.
    let behind = ray_intersects_cube(
        V3 { x: 3_000_000, y: 0, z: 0 },
        V3 { x: SCALE, y: 0, z: 0 },
        &t,
    );
    assert_eq!(behind, Some(-1_500_000));
}

#[test]
fn plane_intersections() {
    // From (0, 5, 0) straight down: the origin.
    let hit = ray_plane_intersection(V3 { x: 0, y: 5_000_000, z: 0 }, V3 { x: 0, y: -SCALE, z: 0 }, 0);
    let h = hit.unwrap();
    assert_eq!((h.x, h.y, h.z), (0, 0, 0));
    // A raised plane.
    let hit = ray_plane_intersection(
        V3 { x: 0, y: 5_000_000, z: 0 },
        V3 { x: SCALE, y: -SCALE, z: 0 },
        2_000_000,
    );
    let h = hit.unwrap();
    assert_eq!((h.x, h.y, h.z), (3_000_000, 2_000_000, 0));
    // Parallel to the plane, and crossing it backwards: both miss.
    assert_eq!(
        ray_plane_intersection(V3 { x: 0, y: 5_000_000, z: 0 }, V3 { x: SCALE, y: 0, z: 0 }, 0),
        None
    );
    assert_eq!(
        ray_plane_intersection(V3 { x: 0, y: 5_000_000, z: 0 }, V3 { x: 0, y: SCALE, z: 0 }, 0),
        None
    );
}
