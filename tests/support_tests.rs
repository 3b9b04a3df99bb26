use platformer::animation::{AnimationRepeat, AnimationState, SpriteSheetAnimation};
use platformer::brick::{brick_type_named, Brick, BrickType, Destroyable};
use platformer::game::{next_player, switches_player, GameState, SoundEffect, KEY_F1, KEY_RETURN};

#[test]
fn return_release_toggles_pause() {
    assert_eq!(GameState::Run.on_key(KEY_RETURN, false), GameState::Pause);
    assert_eq!(GameState::Pause.on_key(KEY_RETURN, false), GameState::Run);
    assert_eq!(GameState::Run.on_key(KEY_RETURN, true), GameState::Run);
    assert_eq!(GameState::Run.on_key(0x61, false), GameState::Run);
}

#[test]
fn loading_ends_after_one_second() {
    assert!(!GameState::loading_done(1_000_000));
    assert!(GameState::loading_done(1_000_001));
}

#[test]
fn control_passes_round_the_players() {
    assert_eq!(next_player(0, 2), 1);
    assert_eq!(next_player(1, 2), 0);
    assert_eq!(next_player(0, 1), 0);
    assert!(switches_player(KEY_F1, true));
    assert!(!switches_player(KEY_F1, false));
    assert!(!switches_player(KEY_RETURN, true));
}

#[test]
fn breaking_bricks_makes_their_sound() {
    let mut block = Brick::new(BrickType::Block);
    assert!(!block.is_destroyed());
    assert_eq!(block.destroy(), Some(SoundEffect::Brick));
    assert!(block.is_destroyed());
    let mut coin = Brick::new(BrickType::Coin);
    assert_eq!(coin.destroy(), Some(SoundEffect::Coin));
    let mut ground = Brick::new(BrickType::Ground);
    assert_eq!(ground.destroy(), None);
    assert!(!ground.is_visible());
    assert!(Brick::new(BrickType::Mushroom).is_visible());
    let mut b = Brick::new(BrickType::Block);
    b.get_transform_mut().set_position(32_000, 48_000);
    assert_eq!(b.get_transform().x(), 32_000);
}

#[test]
fn animation_steps_through_tiles_and_wraps() {
    let mut a = SpriteSheetAnimation::new(vec![[5, 0], [5, 1], [5, 2]], AnimationRepeat::Forever);
    a.update(16_667);
    assert_eq!(a.current_index, 0);
    a.play();
    assert!(a.is_playing());
    let mut seen = Vec::new();
    for _ in 0..16 {
        a.update(16_667);
        seen.push(a.current_index);
    }
    assert_eq!(seen, vec![1, 1, 1, 1, 1, 2, 2, 2, 2, 2, 0, 0, 0, 0, 0, 1]);
    assert_eq!(a.get_current_animation(), Some(&[5, 1]));
    a.stop();
    assert_eq!(a.state, AnimationState::Idle);
    // A stopped animation holds its tile.
    a.update(16_667);
    assert_eq!(a.current_index, 1);
}

#[test]
fn animation_without_speed_follows_time() {
    let mut a = SpriteSheetAnimation::new(vec![[0, 0], [0, 1]], AnimationRepeat::Once);
    a.set_animation_speed(0);
    a.play();
    a.update(500_000);
    assert_eq!(a.animation_lt, 500);
    assert_eq!(a.current_index, 1);
    a.update(600_000);
    assert_eq!(a.animation_lt, 1_100);
    assert_eq!(a.current_index, 0);
}

#[test]
fn empty_animation_shows_nothing() {
    let mut a = SpriteSheetAnimation::new(Vec::new(), AnimationRepeat::Forever);
    a.play();
    a.update(16_667);
    assert_eq!(a.current_index, 0);
    assert_eq!(a.get_current_animation(), None);
}

#[test]
fn map_object_names_pick_brick_kinds() {
    assert_eq!(brick_type_named(b"brick"), Some(BrickType::Block));
    assert_eq!(brick_type_named(b"coin"), Some(BrickType::Coin));
    assert_eq!(brick_type_named(b"ground"), None);
    assert_eq!(brick_type_named(b"bric"), None);
    assert_eq!(brick_type_named(b""), None);
}
