use rust_pong::state::entity::{Entity, Rectangle, Size, Vec2};
use rust_pong::state::fixed::{fixed_mul, UNIT};

fn paddle() -> Entity {
    Entity::new(Size::new(16, 64), Vec2::new(16_000, 448_000))
}

#[test]
fn unit_is_a_thousand() {
    assert_eq!(UNIT, 1000);
}

#[test]
fn fixed_mul_is_exact_where_it_can_be() {
    assert_eq!(fixed_mul(5000, 1050), 5250);
    assert_eq!(fixed_mul(4000, 375), 1500);
    assert_eq!(fixed_mul(0, 1050), 0);
    assert_eq!(fixed_mul(1000, 1000), 1000);
}

#[test]
fn fixed_mul_rounds_toward_zero() {
    assert_eq!(fixed_mul(5250, 1050), 5512);
    assert_eq!(fixed_mul(-5250, 1050), -5512);
    assert_eq!(fixed_mul(1, 1050), 1);
    assert_eq!(fixed_mul(-1, 1050), -1);
    assert_eq!(fixed_mul(1, 999), 0);
    assert_eq!(fixed_mul(-1, 999), 0);
}

#[test]
fn fixed_mul_is_odd() {
    for v in [0i64, 1, 7, 999, 1000, 5000, 5250, 123_456_789] {
        assert_eq!(fixed_mul(-v, 1050), -fixed_mul(v, 1050));
    }
}

#[test]
fn vec2_new_and_zero() {
    let v = Vec2::new(3, -4);
    assert_eq!(v.x, 3);
    assert_eq!(v.y, -4);
    assert_eq!(Vec2::zero(), Vec2::new(0, 0));
}

#[test]
fn entity_new_is_at_rest_where_it_was_put() {
    let e = paddle();
    assert_eq!(e.size, Size::new(16, 64));
    assert_eq!(e.position, Vec2::new(16_000, 448_000));
    assert_eq!(e.original, Vec2::new(16_000, 448_000));
    assert_eq!(e.velocity, Vec2::zero());
}

#[test]
fn entity_with_velocity_remembers_its_origin() {
    let e = Entity::with_velocity(Size::new(8, 8), Vec2::new(640_000, 480_000), Vec2::new(-5000, 0));
    assert_eq!(e.position, Vec2::new(640_000, 480_000));
    assert_eq!(e.original, Vec2::new(640_000, 480_000));
    assert_eq!(e.velocity, Vec2::new(-5000, 0));
}

#[test]
fn entity_update_is_one_euler_step() {
    let mut e = Entity::with_velocity(Size::new(8, 8), Vec2::new(640_000, 480_000), Vec2::new(-5250, 1332));
    e.update();
    assert_eq!(e.position, Vec2::new(634_750, 481_332));
    e.update();
    assert_eq!(e.position, Vec2::new(629_500, 482_664));
    assert_eq!(e.velocity, Vec2::new(-5250, 1332));
    assert_eq!(e.original, Vec2::new(640_000, 480_000));
    assert_eq!(e.size, Size::new(8, 8));
}

#[test]
fn entity_at_rest_stays() {
    let mut e = paddle();
    e.update();
    assert_eq!(e, paddle());
}

#[test]
fn entity_extent_is_in_steps() {
    let e = paddle();
    assert_eq!(e.width(), 16_000);
    assert_eq!(e.height(), 64_000);
    let big = Entity::new(Size::new(i32::MAX, i32::MAX), Vec2::zero());
    assert_eq!(big.width(), 2_147_483_647_000);
    assert_eq!(big.height(), 2_147_483_647_000);
}

#[test]
fn entity_bounds_start_at_its_position() {
    let e = paddle();
    assert_eq!(e.bounds(), Rectangle::new(16_000, 448_000, 16_000, 64_000));
}

#[test]
fn rectangle_intersects_what_it_overlaps() {
    let base = Rectangle::new(2000, 2000, 4000, 4000);
    let fully_contained = Rectangle::new(2500, 2500, 2000, 2000);
    let overlapping = Rectangle::new(3000, 3000, 4000, 4000);
    assert!(base.intersects(&base));
    assert!(base.intersects(&fully_contained));
    assert!(fully_contained.intersects(&base));
    assert!(base.intersects(&overlapping));
    assert!(overlapping.intersects(&base));
}

#[test]
fn rectangle_does_not_intersect_what_it_only_touches() {
    let base = Rectangle::new(2000, 2000, 4000, 4000);
    let separate = Rectangle::new(20_000, 20_000, 4000, 4000);
    let right_of = Rectangle::new(6000, 2000, 4000, 4000);
    let below = Rectangle::new(2000, 6000, 4000, 4000);
    let left_of = Rectangle::new(-2000, 2000, 4000, 4000);
    let above = Rectangle::new(2000, -2000, 4000, 4000);
    assert!(!base.intersects(&separate));
    assert!(!base.intersects(&right_of));
    assert!(!base.intersects(&below));
    assert!(!base.intersects(&left_of));
    assert!(!base.intersects(&above));
    assert!(!right_of.intersects(&base));
}

#[test]
fn rectangle_one_step_in_intersects() {
    let base = Rectangle::new(2000, 2000, 4000, 4000);
    assert!(base.intersects(&Rectangle::new(5999, 5999, 4000, 4000)));
    assert!(base.intersects(&Rectangle::new(-1999, -1999, 4000, 4000)));
}

#[test]
fn entity_intersects_by_its_bounds() {
    let p = paddle();
    let touching = Entity::new(Size::new(8, 8), Vec2::new(32_000, 470_000));
    let inside = Entity::new(Size::new(8, 8), Vec2::new(31_999, 470_000));
    let above = Entity::new(Size::new(8, 8), Vec2::new(20_000, 440_000));
    let grazing = Entity::new(Size::new(8, 8), Vec2::new(20_000, 440_001));
    assert!(!touching.intersects(&p));
    assert!(inside.intersects(&p));
    assert!(p.intersects(&inside));
    assert!(!above.intersects(&p));
    assert!(grazing.intersects(&p));
}

#[test]
fn entity_centre_is_half_its_height_down() {
    assert_eq!(paddle().y_coordinate_centre(), 480_000);
    let ball = Entity::new(Size::new(8, 8), Vec2::new(0, -10_000));
    assert_eq!(ball.y_coordinate_centre(), -6000);
    let odd = Entity::new(Size::new(1, 1), Vec2::new(0, 0));
    assert_eq!(odd.y_coordinate_centre(), 500);
    let flat = Entity::new(Size::new(1, 0), Vec2::new(0, 7));
    assert_eq!(flat.y_coordinate_centre(), 7);
}

#[test]
fn entity_reset_goes_home_with_the_given_velocity() {
    let mut e = Entity::with_velocity(Size::new(8, 8), Vec2::new(640_000, 480_000), Vec2::new(-5250, 1332));
    e.update();
    e.update();
    e.reset(Vec2::new(5000, 0));
    assert_eq!(e.position, Vec2::new(640_000, 480_000));
    assert_eq!(e.original, Vec2::new(640_000, 480_000));
    assert_eq!(e.velocity, Vec2::new(5000, 0));
    assert_eq!(e.size, Size::new(8, 8));
}
