use thunder::geom::{box_box_hit, circle_box_hit, isqrt64, velocity_toward, Vec2i};

fn v(x: i64, y: i64) -> Vec2i {
    Vec2i { x, y }
}

#[test]
fn isqrt_exact_values() {
    assert_eq!(isqrt64(0), 0);
    assert_eq!(isqrt64(1), 1);
    assert_eq!(isqrt64(2), 1);
    assert_eq!(isqrt64(3), 1);
    assert_eq!(isqrt64(4), 2);
    assert_eq!(isqrt64(15), 3);
    assert_eq!(isqrt64(16), 4);
    assert_eq!(isqrt64(1_000_000), 1_000);
    assert_eq!(isqrt64(999_999), 999);
    assert_eq!(isqrt64(u64::MAX), 0xFFFF_FFFF);
}

#[test]
fn circle_box_overlap_cases() {
    // Circle at origin, radius 10; box centred at (30, 0) with
    // half-extents (20, 20): they touch exactly at x = 10.
    assert!(circle_box_hit(v(0, 0), 10, v(30, 0), 20, 20));
    // Move the box one unit further: a clear miss.
    assert!(!circle_box_hit(v(0, 0), 10, v(31, 0), 20, 20));
    // Circle centre inside the box.
    assert!(circle_box_hit(v(5, 5), 1, v(0, 0), 20, 20));
    // Diagonal: gap is (3, 4), distance 5 == radius.
    assert!(circle_box_hit(v(13, 14), 5, v(0, 0), 10, 10));
    assert!(!circle_box_hit(v(13, 15), 5, v(0, 0), 10, 10));
}

#[test]
fn box_box_overlap_cases() {
    assert!(box_box_hit(v(0, 0), 10, 10, v(20, 0), 10, 10));
    assert!(!box_box_hit(v(0, 0), 10, 10, v(21, 0), 10, 10));
    assert!(!box_box_hit(v(0, 0), 10, 10, v(0, 25), 10, 10));
    assert!(box_box_hit(v(-5, -5), 10, 10, v(5, 5), 10, 10));
}

#[test]
fn velocity_toward_zero_vector_falls_back_straight_down() {
    let vel = velocity_toward(0, 0, 500);
    assert_eq!(vel.x, 0);
    assert_eq!(vel.y, -500);
}

#[test]
fn velocity_toward_cardinal_directions_are_exact() {
    assert_eq!(velocity_toward(0, 1_000, 250), v(0, 250));
    assert_eq!(velocity_toward(0, -1_000, 250), v(0, -250));
    assert_eq!(velocity_toward(7_000, 0, 400), v(400, 0));
    assert_eq!(velocity_toward(-7_000, 0, 400), v(-400, 0));
}

#[test]
fn velocity_toward_diagonal_is_speed_bounded_and_signed() {
    let vel = velocity_toward(1_000, -1_000, 500);
    // The length of (1000, -1000) floors to 1414, so each component
    // is 1000 * 500 / 1414.
    assert_eq!(vel.x, 353);
    assert_eq!(vel.y, -353);
    let vel2 = velocity_toward(300, 400, 500);
    // A 3-4-5 triangle scales exactly.
    assert_eq!(vel2.x, 300);
    assert_eq!(vel2.y, 400);
}
