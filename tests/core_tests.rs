use platformer::collider::{Collider, Side};
use platformer::controller::{Controller, KEY_A, KEY_D, KEY_LEFT, KEY_LSHIFT, KEY_RIGHT, KEY_SPACE, KEY_UP};
use platformer::geometry::{Size, Vec2};
use platformer::physics::{Physics, RUN_SPEED, WALK_SPEED};
use platformer::player::{Clip, Player, PlayerDirection, PlayerState, SPAWN_X, SPAWN_Y};
use platformer::transform::Transform;

const FRAME: u32 = 16_667;

fn boxed(x: i64, y: i64, w: i64, h: i64) -> Transform {
    let mut t = Transform::new();
    t.set_position(x, y);
    t.set_size(w, h);
    t
}

fn grounded_player_on(floor: &Transform) -> Player {
    let mut p = Player::new();
    for _ in 0..200 {
        p.update(FRAME);
        p.collide_with(floor);
        p.settle_state();
    }
    p
}

#[test]
fn transform_edges_and_centre() {
    let mut t = boxed(1_000, 2_000, 16_000, 8_000);
    assert_eq!(t.x(), 1_000);
    assert_eq!(t.y(), 2_000);
    assert_eq!(t.w(), 16_000);
    assert_eq!(t.h(), 8_000);
    assert_eq!(t.xw(), 17_000);
    assert_eq!(t.yh(), 10_000);
    assert_eq!(t.center_xw(), 9_000);
    assert_eq!(t.center_yh(), 6_000);
    assert_eq!(t.rect(), [1_000, 2_000, 16_000, 8_000]);
    assert_eq!(t.rect_right(), Vec2::new(17_000, 2_000));
    assert_eq!(t.rect_bottom(), Vec2::new(1_000, 10_000));
    assert_eq!(t.rect_center(), Vec2::new(9_000, 6_000));
    t.set_scale(2_000, 500);
    assert_eq!(t.w(), 32_000);
    assert_eq!(t.h(), 4_000);
    assert_eq!(t.get_size(), Size::new(16_000, 8_000));
    t.translate(-500, 250);
    assert_eq!(t.get_position(), Vec2::new(500, 2_250));
    t.translate_x(100);
    t.translate_y(-100);
    assert_eq!(t.get_position(), Vec2::new(600, 2_150));
    t.set_flip_x(true);
    assert!(t.is_flip_x());
    assert!(!t.is_flip_y());
}

#[test]
fn translate_stops_at_world_bound() {
    let mut t = Transform::new();
    t.set_position(platformer::transform::COORD_LIMIT - 10, 0);
    t.translate(i64::MAX, i64::MIN);
    assert_eq!(t.x(), platformer::transform::COORD_LIMIT);
    assert_eq!(t.y(), -platformer::transform::COORD_LIMIT);
}

#[test]
fn aabb_reports_each_side() {
    let wall = boxed(100_000, 0, 16_000, 16_000);
    // Entering from the left of the wall: this box's right side hits it.
    assert_eq!(Collider::aabb(&boxed(86_000, 0, 16_000, 16_000), &wall), Some(Side::Right));
    assert_eq!(Collider::aabb(&boxed(114_000, 0, 16_000, 16_000), &wall), Some(Side::Left));
    assert_eq!(Collider::aabb(&boxed(100_000, 14_000, 16_000, 16_000), &wall), Some(Side::Top));
    assert_eq!(Collider::aabb(&boxed(100_000, -14_000, 16_000, 16_000), &wall), Some(Side::Bottom));
}

#[test]
fn aabb_touching_or_apart_is_none() {
    let wall = boxed(100_000, 0, 16_000, 16_000);
    assert_eq!(Collider::aabb(&boxed(84_000, 0, 16_000, 16_000), &wall), None);
    assert_eq!(Collider::aabb(&boxed(100_000, -16_000, 16_000, 16_000), &wall), None);
    assert_eq!(Collider::aabb(&boxed(0, 0, 16_000, 16_000), &wall), None);
}

#[test]
fn aabb_degenerate_box_is_none() {
    let big = boxed(0, 0, 100_000, 100_000);
    assert_eq!(Collider::aabb(&big, &boxed(50_000, 50_000, 0, 10_000)), None);
    assert_eq!(Collider::aabb(&big, &boxed(50_000, 50_000, 10_000, 0)), None);
    assert_eq!(Collider::aabb(&boxed(50_000, 50_000, 0, 0), &big), None);
}

#[test]
fn aabb_tie_prefers_left_then_right_then_top() {
    let b = boxed(0, 0, 10_000, 10_000);
    // Same box: every depth is equal, left wins.
    assert_eq!(Collider::aabb(&boxed(0, 0, 10_000, 10_000), &b), Some(Side::Left));
    // Corner overlap with equal depth right and bottom: right wins.
    assert_eq!(Collider::aabb(&boxed(-8_000, -8_000, 10_000, 10_000), &b), Some(Side::Right));
    // Equal depth top and bottom, deeper sideways: top wins.
    assert_eq!(Collider::aabb(&boxed(0, 0, 10_000, 10_000), &boxed(-5_000, 0, 20_000, 10_000)), Some(Side::Top));
}

#[test]
fn gravity_raises_fall_speed_until_the_limit() {
    let mut p = Physics::new(Transform::new());
    p.update(FRAME);
    // 1.2 * 450 px/s^2 over one frame.
    assert_eq!(p.velocity.y, 9_000);
    let mut last = p.velocity.y;
    for _ in 0..200 {
        p.update(FRAME);
        assert!(p.velocity.y > last || p.velocity.y == p.max_velocity.y);
        last = p.velocity.y;
    }
    assert_eq!(p.velocity.y, 400_000);
}

#[test]
fn deceleration_stops_without_overshoot() {
    let mut p = Physics::new(Transform::new());
    p.velocity.x = 50_000;
    let mut steps = 0;
    while p.velocity.x != 0 {
        p.update(FRAME);
        assert!(p.velocity.x >= 0);
        steps += 1;
        assert!(steps < 100);
    }
    // 120 px/s^2 takes 2 px/s per frame off 50 px/s.
    assert_eq!(steps, 25);
    p.velocity.x = -3_000;
    p.update(FRAME);
    assert_eq!(p.velocity.x, -1_000);
    p.update(FRAME);
    assert_eq!(p.velocity.x, 0);
}

#[test]
fn intent_accelerates_with_friction() {
    let mut p = Physics::new(Transform::new());
    p.set_force(1, 0);
    p.update(FRAME);
    // 500 px/s^2 for one frame is 8 333, less one unit of friction.
    assert_eq!(p.velocity.x, 8_332);
    for _ in 0..100 {
        p.update(FRAME);
    }
    assert_eq!(p.velocity.x, WALK_SPEED);
    p.run();
    assert_eq!(p.max_velocity.x, RUN_SPEED);
    for _ in 0..100 {
        p.update(FRAME);
    }
    assert_eq!(p.velocity.x, RUN_SPEED);
    p.walk();
    p.update(FRAME);
    assert_eq!(p.velocity.x, WALK_SPEED);
}

#[test]
fn skid_damps_before_reversing() {
    let mut skidding = Physics::new(Transform::new());
    skidding.velocity.x = skidding.max_velocity.x;
    skidding.set_force(-1, 0);
    skidding.update(FRAME);
    assert_eq!(skidding.velocity.x, 90_683);
    let mut coasting = Physics::new(Transform::new());
    coasting.velocity.x = coasting.max_velocity.x;
    coasting.update(FRAME);
    assert_eq!(coasting.velocity.x, 98_000);
    assert!(skidding.velocity.x.abs() < coasting.velocity.x.abs());
    // Friction alone, without the skid correction, would leave 91 682.
    assert!(skidding.velocity.x.abs() < 91_682);
}

#[test]
fn scenario_skid() {
    let floor = boxed(0, 100_000, 1_000_000, 16_000);
    let mut p = grounded_player_on(&floor);
    p.physics.velocity.x = p.physics.max_velocity.x;
    p.state = PlayerState::Walk;
    p.update_input(KEY_LEFT, true);
    p.update(FRAME);
    assert_eq!(p.current_state(), PlayerState::Skid);
    assert_eq!(p.collide_with(&floor), Some(Side::Bottom));
    p.settle_state();
    assert_eq!(p.current_state(), PlayerState::Skid);
    assert_eq!(p.direction, PlayerDirection::Left);
    assert_eq!(p.physics.force.x, -1);
    assert_eq!(p.physics.velocity.x, 90_683);
    assert!(p.facing_flipped());
    assert_eq!(p.animation_clip(), Some(Clip::Skid));
}

#[test]
fn scenario_push() {
    let floor = boxed(0, 100_000, 1_000_000, 16_000);
    let wall = boxed(200_000, 0, 16_000, 100_000);
    let mut p = grounded_player_on(&floor);
    p.update_input(KEY_RIGHT, true);
    let mut pushed = false;
    let mut rightmost = i64::MIN;
    for _ in 0..400 {
        p.update(FRAME);
        p.collide_with(&floor);
        if p.collide_with(&wall) == Some(Side::Right) {
            p.settle_state();
            assert_eq!(p.current_state(), PlayerState::Push);
            assert_eq!(p.physics.velocity.x, 0);
            if pushed {
                assert!(p.get_transform().x() <= rightmost);
            }
            pushed = true;
            rightmost = p.get_transform().x();
        }
    }
    assert!(pushed);
    assert_eq!(p.get_transform().xw(), 200_000);
    assert_eq!(p.animation_clip(), Some(Clip::Push));
}

#[test]
fn scenario_respawn_boundary() {
    let mut p = Player::new();
    let max_y = (224 + 100) * 1_000;
    p.physics.transform.set_position(70_000, max_y);
    p.physics.velocity.y = 300_000;
    p.physics.on_ground = true;
    p.respawn_player_if_overflow(max_y);
    assert_eq!(p.get_transform().get_position(), Vec2::new(70_000, max_y));
    p.physics.transform.set_position(70_000, max_y + 1);
    p.respawn_player_if_overflow(max_y);
    assert_eq!(p.get_transform().get_position(), Vec2::new(SPAWN_X, SPAWN_Y));
    assert_eq!(p.physics.velocity.y, 0);
    assert!(!p.physics.on_ground);
}

#[test]
fn collide_again_after_resolution_is_none() {
    let floor = boxed(0, 100_000, 1_000_000, 16_000);
    let mut p = Physics::new(boxed(10_000, 90_000, 16_000, 16_000));
    p.velocity = Vec2::new(5_000, 7_000);
    assert_eq!(p.collide_with(&floor), Some(Side::Bottom));
    assert_eq!(p.transform.yh(), 100_000);
    assert_eq!(p.velocity, Vec2::new(5_000, 0));
    assert!(p.on_ground);
    for _ in 0..5 {
        assert_eq!(p.collide_with(&floor), None);
    }
    assert_eq!(p.transform.yh(), 100_000);
}

#[test]
fn ceiling_ends_the_jump() {
    let ceiling = boxed(0, 0, 100_000, 10_000);
    let mut p = Physics::new(boxed(10_000, 8_000, 16_000, 16_000));
    p.can_jump = true;
    p.velocity.y = -100_000;
    assert_eq!(p.collide_with(&ceiling), Some(Side::Top));
    assert_eq!(p.transform.y(), 10_000);
    assert_eq!(p.velocity.y, 0);
    assert!(!p.can_jump);
}

#[test]
fn ground_flag_needs_contact_every_frame() {
    let floor = boxed(0, 100_000, 1_000_000, 16_000);
    let mut p = grounded_player_on(&floor);
    for _ in 0..10 {
        p.update(FRAME);
        assert!(!p.physics.on_ground);
        assert_eq!(p.collide_with(&floor), Some(Side::Bottom));
        assert!(p.physics.on_ground);
        p.settle_state();
        assert_eq!(p.current_state(), PlayerState::Idle);
    }
    p.update(FRAME);
    p.update(FRAME);
    assert!(!p.physics.on_ground);
}

#[test]
fn held_jump_rises_higher_than_a_tap() {
    let floor = boxed(0, 100_000, 1_000_000, 16_000);
    let mut peaks = Vec::new();
    for hold in [3, 20, 60] {
        let mut p = grounded_player_on(&floor);
        let start = p.get_transform().y();
        p.update_input(KEY_SPACE, true);
        let mut peak = start;
        for frame in 0..120 {
            if frame == hold {
                p.update_input(KEY_SPACE, false);
            }
            p.update(FRAME);
            p.collide_with(&floor);
            p.settle_state();
            peak = peak.min(p.get_transform().y());
        }
        peaks.push(start - peak);
    }
    assert!(peaks[0] < peaks[1]);
    assert!(peaks[1] < peaks[2]);
}

#[test]
fn jump_takes_off_once() {
    let floor = boxed(0, 100_000, 1_000_000, 16_000);
    let mut p = grounded_player_on(&floor);
    p.update_input(KEY_UP, true);
    assert!(p.update(FRAME));
    assert_eq!(p.current_state(), PlayerState::Jump);
    assert_eq!(p.physics.velocity.y, -200_000);
    assert_eq!(p.animation_clip(), Some(Clip::Jump));
    assert!(!p.update(FRAME));
}

#[test]
fn player_starts_at_spawn_in_the_air() {
    let p = Player::new();
    assert_eq!(p.get_transform().get_position(), Vec2::new(SPAWN_X, SPAWN_Y));
    assert_eq!(p.current_state(), PlayerState::Jump);
    assert_eq!(p.direction, PlayerDirection::Right);
    assert!(!p.facing_flipped());
    assert!(!p.physics.on_ground);
}

#[test]
fn falling_player_reports_fall() {
    let mut p = Player::new();
    p.update(FRAME);
    // The state follows the body only once the frame's collisions are done.
    assert_eq!(p.current_state(), PlayerState::Jump);
    p.settle_state();
    assert_eq!(p.current_state(), PlayerState::Fall);
    assert_eq!(p.animation_clip(), Some(Clip::Fall));
}

#[test]
fn run_key_raises_the_limit_on_the_ground() {
    let floor = boxed(0, 100_000, 10_000_000, 16_000);
    let mut p = grounded_player_on(&floor);
    p.update_input(KEY_D, true);
    p.update_input(KEY_LSHIFT, true);
    for _ in 0..200 {
        p.update(FRAME);
        p.collide_with(&floor);
        p.settle_state();
    }
    assert_eq!(p.current_state(), PlayerState::Run);
    assert_eq!(p.physics.velocity.x, RUN_SPEED);
    p.reset_input();
    assert!(!p.input.right && !p.input.run);
}

#[test]
fn keyboard_event_is_level_set() {
    let mut c = Controller::new();
    c.keyboard_event(KEY_A, true);
    assert!(c.left);
    c.keyboard_event(KEY_A, true);
    assert!(c.left);
    c.keyboard_event(KEY_LEFT, false);
    assert!(!c.left);
    c.keyboard_event(KEY_RIGHT, true);
    c.keyboard_event(KEY_UP, true);
    c.keyboard_event(KEY_LSHIFT, true);
    assert!(c.right && c.jump && c.run);
    c.keyboard_event(0x7A, true);
    assert!(!c.left && !c.crouch && !c.shoot);
    c.crouch = true;
    c.shoot = true;
    c.reset();
    assert!(!c.right && !c.jump && !c.run && !c.left && !c.crouch && !c.shoot);
    c.keyboard_event(KEY_D, true);
    assert!(c.right);
}

#[test]
fn physics_step_uses_up_ground_contact() {
    let floor = boxed(0, 100_000, 1_000_000, 16_000);
    let mut p = Physics::new(boxed(10_000, 84_000, 16_000, 16_000));
    p.update(FRAME);
    p.transform.translate(0, 150);
    assert_eq!(p.collide_with(&floor), Some(Side::Bottom));
    assert!(p.on_ground);
    p.update(FRAME);
    assert!(!p.on_ground);
}

#[test]
fn almost_zero_is_inclusive() {
    let mut p = Physics::new(Transform::new());
    p.velocity.x = 100;
    assert!(p.vel_x_is_almost_zero(100));
    assert!(!p.vel_x_is_almost_zero(99));
    p.velocity.x = -100;
    assert!(p.vel_x_is_almost_zero(100));
}
