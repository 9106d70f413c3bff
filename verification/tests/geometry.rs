use arcade_core::geom::{
    Vec2, sin_mil, cos_mil, atan2_mil, sqrti, log2_mil, norm_angle_add, polar, mul_mil, len2,
    translate, in_screen, coord_sat, COORD_MAX, TURN,
};

#[test]
fn sine_exact_points() {
    assert_eq!(sin_mil(0), 0);
    assert_eq!(sin_mil(90_000), 1000);
    assert_eq!(sin_mil(180_000), 0);
    assert_eq!(sin_mil(270_000), -1000);
    assert_eq!(sin_mil(30_000), 500);
}

#[test]
fn cosine_exact_points() {
    assert_eq!(cos_mil(0), 1000);
    assert_eq!(cos_mil(90_000), 0);
    assert_eq!(cos_mil(180_000), -1000);
    assert_eq!(cos_mil(270_000), 0);
}

#[test]
fn atan2_axes_and_diagonals() {
    assert_eq!(atan2_mil(0, 0), 0);
    assert_eq!(atan2_mil(0, 5000), 0);
    assert_eq!(atan2_mil(5000, 0), 90_000);
    assert_eq!(atan2_mil(0, -5000), 180_000);
    assert_eq!(atan2_mil(-5000, 0), 270_000);
    assert_eq!(atan2_mil(5000, 5000), 45_000);
    assert_eq!(atan2_mil(-5000, 5000), 315_000);
}

#[test]
fn integer_square_roots() {
    assert_eq!(sqrti(0), 0);
    assert_eq!(sqrti(1), 1);
    assert_eq!(sqrti(17), 4);
    assert_eq!(sqrti(1_000_000), 1000);
    assert_eq!(sqrti(u64::MAX), 4_294_967_295);
}

#[test]
fn log2_in_milli_units() {
    assert_eq!(log2_mil(1), 0);
    assert_eq!(log2_mil(2), 1000);
    assert_eq!(log2_mil(3), 1500);
    assert_eq!(log2_mil(1024), 10_000);
}

#[test]
fn angle_normalization_wraps() {
    assert_eq!(norm_angle_add(350_000, 20_000), 10_000);
    assert_eq!(norm_angle_add(10_000, -20_000), 350_000);
    assert_eq!(norm_angle_add(0, 0), 0);
    assert_eq!(norm_angle_add(0, TURN - 1), TURN - 1);
}

#[test]
fn polar_matches_axes() {
    assert_eq!(polar(0, 45_000), Vec2 { x: 45_000, y: 0 });
    assert_eq!(polar(90_000, 45_000), Vec2 { x: 0, y: 45_000 });
    assert_eq!(polar(180_000, 45_000), Vec2 { x: -45_000, y: 0 });
}

#[test]
fn fixed_point_product_truncates_toward_zero() {
    assert_eq!(mul_mil(1001, 500), 500);
    assert_eq!(mul_mil(-1001, 500), -500);
    assert_eq!(mul_mil(50_000, 800), 40_000);
}

#[test]
fn squared_distance() {
    let a = Vec2 { x: 3000, y: 0 };
    let b = Vec2 { x: 0, y: 4000 };
    assert_eq!(len2(a, b), 25_000_000);
}

#[test]
fn translation_saturates_at_the_coordinate_bound() {
    let p = Vec2 { x: COORD_MAX, y: 0 };
    let moved = translate(p, Vec2 { x: 1000, y: 0 });
    assert_eq!(moved.x, COORD_MAX);
    assert_eq!(coord_sat(COORD_MAX + 5), COORD_MAX);
}

#[test]
fn screen_test_uses_the_fifty_pixel_margin() {
    assert!(in_screen(&Vec2 { x: 0, y: 0 }));
    assert!(in_screen(&Vec2 { x: -49_999, y: 0 }));
    assert!(!in_screen(&Vec2 { x: -50_000, y: 0 }));
    assert!(!in_screen(&Vec2 { x: 1_350_000, y: 0 }));
    assert!(in_screen(&Vec2 { x: 1_349_999, y: 799_999 }));
}
