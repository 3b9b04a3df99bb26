use platformer::brick::{Brick, BrickType};
use platformer::camera::Camera;
use platformer::collider::Side;
use platformer::controller::KEY_RIGHT;
use platformer::enemy::Enemy;
use platformer::geometry::{Size, Vec2};
use platformer::player::{Player, PlayerDirection, PlayerState};
use platformer::stage::{meet_all, StageManager};
use platformer::tiles::TileGrid;
use platformer::transform::Transform;

const FRAME: u32 = 16_667;

fn boxed(x: i64, y: i64, w: i64, h: i64) -> Transform {
    let mut t = Transform::new();
    t.set_position(x, y);
    t.set_size(w, h);
    t
}

#[test]
fn enemy_walks_right_and_turns_at_walls() {
    let mut e = Enemy::new("Goomba", Vec2::new(480_000, 10_000));
    assert_eq!(e.name, "Goomba");
    assert_eq!(e.physics.force, Vec2::new(1, 0));
    e.update(FRAME);
    // 50 px/s^2 for one frame.
    assert_eq!(e.physics.velocity.x, 833);
    let wall = boxed(e.get_transform().xw() - 1_000, 0, 16_000, 100_000);
    assert_eq!(e.collide_with(&wall), Some(Side::Right));
    assert_eq!(e.physics.force, Vec2::new(-1, 0));
    assert_eq!(e.physics.velocity.x, 0);
    assert_eq!(e.get_transform().xw(), wall.x());
    let left_wall = boxed(e.get_transform().x() - 15_000, 0, 16_000, 100_000);
    assert_eq!(e.collide_with(&left_wall), Some(Side::Left));
    assert_eq!(e.physics.force, Vec2::new(1, 0));
    e.dead();
    assert!(e.is_dead);
    assert_eq!(e.physics.force, Vec2::new(0, 0));
}

#[test]
fn stage_pass_meets_every_box() {
    let mut stage = StageManager::new();
    stage.objects.push(boxed(0, 100_000, 1_000_000, 16_000));
    let mut brick = Brick::new(BrickType::Block);
    brick.get_transform_mut().set_position(100_000, 84_000);
    stage.bricks.push(brick);
    stage.enemies.push(Enemy::new("Goomba", Vec2::new(300_000, 90_000)));
    assert_eq!(stage.solid_box_list().len(), 2);
    let mut p = Player::new();
    p.set_position(20_000, 90_000);
    p.update(FRAME);
    stage.update(FRAME);
    stage.collide_with(&mut p);
    assert!(p.physics.on_ground);
    assert_eq!(p.get_transform().yh(), 100_000);
    assert!(stage.enemies[0].physics.on_ground);
    assert_eq!(stage.enemies[0].get_transform().yh(), 100_000);
}

#[test]
fn play_frame_runs_move_respawn_collide_settle() {
    let mut stage = StageManager::new();
    stage.objects.push(boxed(0, 100_000, 1_000_000, 16_000));
    let mut p = Player::new();
    p.set_position(20_000, 84_000);
    let max_y = 324_000;
    for _ in 0..10 {
        assert!(!stage.play_frame(&mut p, FRAME, max_y));
        assert!(p.physics.on_ground);
        assert_eq!(p.current_state(), PlayerState::Idle);
        assert_eq!(p.get_transform().yh(), 100_000);
    }
    p.set_position(20_000, max_y + 1_000);
    stage.play_frame(&mut p, FRAME, max_y);
    assert_eq!(p.get_transform().x(), 20_000);
    assert_eq!(p.physics.velocity.y, 0);
    assert!(!p.physics.on_ground);
    assert_eq!(p.current_state(), PlayerState::Idle);
}

#[test]
fn stage_pass_without_enemies_still_grounds_the_player() {
    let mut stage = StageManager::new();
    stage.objects.push(boxed(0, 100_000, 1_000_000, 16_000));
    let mut p = Player::new();
    p.set_position(20_000, 90_000);
    p.update(FRAME);
    stage.collide_with(&mut p);
    assert!(p.physics.on_ground);
}

#[test]
fn meet_all_walks_the_boxes_in_order() {
    let floor = boxed(0, 100_000, 1_000_000, 16_000);
    let wall = boxed(30_000, 0, 16_000, 100_000);
    let mut p = Player::new();
    p.set_position(15_000, 85_000);
    p.update_input(KEY_RIGHT, true);
    p.update(FRAME);
    meet_all(&mut p, &vec![floor, wall]);
    assert_eq!(p.get_transform().yh(), 100_000);
    assert_eq!(p.get_transform().xw(), 30_000);
}

#[test]
fn camera_follows_and_stays_on_the_map() {
    let mut cam = Camera::new(Size::new(1_056_000, 672_000), Size::new(352_000, 224_000));
    assert_eq!(cam.scale, 3_000);
    let player = boxed(500_000, 150_000, 16_000, 16_000);
    cam.follow_player(&player);
    assert_eq!(cam.target_position, Vec2::new(516_000 - 176_000, 166_000 - 112_000));
    let rect = cam.update_camera_view(Size::new(3_376_000, 240_000));
    assert_eq!(rect, [0, 0, 352_000, 224_000]);
    assert_eq!(cam.target_position, Vec2::new(340_000, 16_000));
    cam.update(250_000);
    // Half of the way in a quarter second.
    assert_eq!(cam.position, Vec2::new(170_000, 8_000));
    let near_start = boxed(0, 0, 16_000, 16_000);
    cam.follow_player(&near_start);
    cam.update_camera_view(Size::new(3_376_000, 240_000));
    assert_eq!(cam.target_position, Vec2::new(0, 0));
    let near_end = boxed(3_370_000, 230_000, 16_000, 16_000);
    cam.follow_player(&near_end);
    cam.update_camera_view(Size::new(3_376_000, 240_000));
    assert_eq!(cam.target_position, Vec2::new(3_376_000 - 352_000, 240_000 - 224_000));
    assert_eq!(Camera::lerp(0, 1_000, 500_000), 500);
    assert_eq!(Camera::lerp(1_000, 0, 250_000), 750);
}

#[test]
fn tile_rect_steps_by_size_and_spacing() {
    let grid = TileGrid {
        grid: [21, 11],
        sprite_size: Size::new(16, 16),
        spacing: Vec2::new(1, 47),
        offset: Vec2::new(80, 34),
    };
    assert_eq!(grid.get_sprite_src_rect_from(0, 0), [80, 34, 16, 16]);
    assert_eq!(grid.get_sprite_src_rect_from(2, 3), [80 + 17 * 3, 34 + 63 * 2, 16, 16]);
    assert_eq!(grid.get_sprite_src_rect_from(21, 12), [80 + 17, 34, 16, 16]);
}

#[test]
fn player_window_and_facing() {
    let mut p = Player::new();
    p.set_dir(PlayerDirection::Left);
    assert!(!p.dir_right());
    p.set_dir(PlayerDirection::Right);
    assert!(p.dir_right());
    p.set_position(-5_000, 0);
    p.set_inside_window(Size::new(352_000, 224_000));
    assert_eq!(p.get_transform().x(), 0);
    p.set_position(350_000, 0);
    p.set_inside_window(Size::new(352_000, 224_000));
    assert_eq!(p.get_transform().x(), 336_000);
    p.set_scale(2_000, 2_000);
    assert_eq!(p.get_transform().w(), 32_000);
    assert_eq!(p.get_vel_x(), 0);
    assert_eq!(p.current_state(), PlayerState::Jump);
}
