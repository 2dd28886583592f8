use hyperion::aabb::{Aabb, Vec3};
use hyperion::components::pose::{FullEntityPose, PLAYER_HEIGHT, PLAYER_WIDTH};
use hyperion::components::{EntityReaction, RunningSpeed};

fn recomputed(pose: &FullEntityPose) -> Aabb {
    Aabb::create(
        pose.position,
        pose.bounding.max.x - pose.bounding.min.x,
        pose.bounding.max.y - pose.bounding.min.y,
    )
}

#[test]
fn player_stands_at_spawn() {
    let pose = FullEntityPose::player();
    assert_eq!(pose.position, Vec3::new(0, 70_000, 0));
    assert_eq!(pose.yaw, 0);
    assert_eq!(pose.pitch, 0);
    assert_eq!(pose.bounding.min, Vec3::new(-300, 70_000, -300));
    assert_eq!(pose.bounding.max, Vec3::new(300, 71_800, 300));
    assert_eq!((PLAYER_WIDTH, PLAYER_HEIGHT), (600, 1800));
}

#[test]
fn create_centres_the_box_on_the_feet() {
    let aabb = Aabb::create(Vec3::new(10, 20, 30), 7, 5);
    assert_eq!(aabb.min, Vec3::new(7, 20, 27));
    assert_eq!(aabb.max, Vec3::new(13, 25, 33));
}

#[test]
fn move_by_shifts_position_and_box() {
    let mut pose = FullEntityPose::player();
    pose.move_by(Vec3::new(1500, -250, 40));
    assert_eq!(pose.position, Vec3::new(1500, 69_750, 40));
    assert_eq!(pose.bounding.min, Vec3::new(1200, 69_750, -260));
    assert_eq!(pose.bounding.max, Vec3::new(1800, 71_550, 340));
    assert_eq!(pose.bounding, recomputed(&pose));
}

#[test]
fn move_to_keeps_the_measures() {
    let mut pose = FullEntityPose::player();
    pose.move_to(Vec3::new(-5000, 64_000, 123));
    assert_eq!(pose.position, Vec3::new(-5000, 64_000, 123));
    assert_eq!(pose.bounding.min, Vec3::new(-5300, 64_000, -177));
    assert_eq!(pose.bounding.max, Vec3::new(-4700, 65_800, 423));
    assert_eq!(pose.bounding, recomputed(&pose));
}

#[test]
fn move_there_and_back_is_exact() {
    let start = FullEntityPose::player();
    let mut pose = start;
    let offset = Vec3::new(123_456_789_012, -987_654_321, 1);
    pose.move_by(offset);
    assert_ne!(pose, start);
    pose.move_by(offset.neg());
    assert_eq!(pose, start);
}

#[test]
fn box_follows_position_through_many_moves() {
    let mut pose = FullEntityPose::player();
    for step in 0..100i64 {
        if step % 7 == 0 {
            pose.move_to(Vec3::new(step * 1000, 64_000 + step, -step * 333));
        } else {
            pose.move_by(Vec3::new(step * 13 - 50, step % 3 - 1, 77 - step));
        }
        assert_eq!(pose.bounding, recomputed(&pose));
        assert_eq!(pose.bounding.min.y, pose.position.y);
        assert_eq!(pose.bounding.min.x + pose.bounding.max.x, 2 * pose.position.x);
        assert_eq!(pose.bounding.min.z + pose.bounding.max.z, 2 * pose.position.z);
    }
}

#[test]
fn reaction_is_taken_up_and_reset() {
    let mut pose = FullEntityPose::player();
    let mut reaction = EntityReaction { velocity: Vec3::new(100, 0, -200) };
    pose.apply_reaction(&mut reaction);
    assert_eq!(pose.position, Vec3::new(100, 70_000, -200));
    assert_eq!(pose.bounding.min, Vec3::new(-200, 70_000, -500));
    assert_eq!(reaction, EntityReaction::default());
    assert_eq!(reaction.velocity, Vec3::zero());
}

#[test]
fn boxes_that_touch_collide() {
    let a = Aabb::create(Vec3::new(0, 0, 0), 2, 2);
    let touching = Aabb::create(Vec3::new(2, 0, 0), 2, 2);
    let apart = Aabb::create(Vec3::new(3, 0, 0), 2, 2);
    let above = Aabb::create(Vec3::new(0, 3, 0), 2, 2);
    assert!(a.collides(&touching));
    assert!(touching.collides(&a));
    assert!(!a.collides(&apart));
    assert!(!a.collides(&above));
    assert!(a.collides(&a));
}

#[test]
fn union_holds_both() {
    let a = Aabb { min: Vec3::new(0, 5, -3), max: Vec3::new(1, 6, 9) };
    let b = Aabb { min: Vec3::new(-4, 7, -1), max: Vec3::new(0, 8, 2) };
    let both = a.union(&b);
    assert_eq!(both.min, Vec3::new(-4, 5, -3));
    assert_eq!(both.max, Vec3::new(1, 8, 9));
}

#[test]
fn vectors_add_and_negate() {
    let v = Vec3::new(1, -2, 3).add(Vec3::new(10, 20, -30));
    assert_eq!(v, Vec3::new(11, 18, -27));
    assert_eq!(v.neg(), Vec3::new(-11, -18, 27));
}

#[test]
fn running_speed_defaults_to_a_tenth_of_a_block() {
    assert_eq!(RunningSpeed::default(), RunningSpeed(100));
}

#[test]
fn moves_that_cannot_be_held_are_told_apart() {
    let pose = FullEntityPose::player();
    assert!(pose.fits_move_by(&Vec3::new(1, 2, 3)));
    assert!(pose.fits_move_by(&Vec3::new(i64::MAX - 300, 0, i64::MIN + 300)));
    assert!(!pose.fits_move_by(&Vec3::new(i64::MAX - 299, 0, 0)));
    assert!(!pose.fits_move_by(&Vec3::new(0, 0, i64::MIN + 299)));
    assert!(!pose.fits_move_by(&Vec3::new(0, i64::MAX - 71_799, 0)));
    assert!(pose.fits_move_to(&Vec3::new(i64::MAX - 300, i64::MAX - 1_800, i64::MIN + 300)));
    assert!(!pose.fits_move_to(&Vec3::new(i64::MAX - 299, 0, 0)));
    assert!(!pose.fits_move_to(&Vec3::new(0, i64::MAX - 1_799, 0)));
    let wide = Aabb { min: Vec3::new(i64::MIN, 0, 0), max: Vec3::new(1, 1, 1) };
    assert!(!wide.fits_measures());
    assert!(!FullEntityPose { bounding: wide, ..pose }.fits_move_to(&Vec3::zero()));
    assert!(Vec3::new(i64::MAX, 0, 0).fits_add(&Vec3::new(0, i64::MIN, 0)));
    assert!(!Vec3::new(i64::MAX, 0, 0).fits_add(&Vec3::new(1, 0, 0)));
    assert!(Aabb::fits_around(&Vec3::zero(), -7, -3));
    assert_eq!(Aabb::create(Vec3::zero(), -7, -3).min, Vec3::new(3, 0, 3));
    assert_eq!(Aabb::create(Vec3::zero(), -7, -3).max, Vec3::new(-3, -3, -3));
}

#[test]
fn a_box_of_odd_width_comes_out_one_unit_narrower() {
    let odd = Aabb { min: Vec3::new(0, 0, 0), max: Vec3::new(7, 5, 7) };
    let moved = odd.move_to(Vec3::new(100, 200, 300));
    assert_eq!(moved.min, Vec3::new(97, 200, 297));
    assert_eq!(moved.max, Vec3::new(103, 205, 303));
    let even = Aabb { min: Vec3::new(0, 0, 0), max: Vec3::new(8, 5, 8) };
    let moved = even.move_to(Vec3::new(100, 200, 300));
    assert_eq!(moved.max.x - moved.min.x, 8);
    assert_eq!(moved.max.y - moved.min.y, 5);
}
