use api_shooter_cli::arena::{Input, SCALE};
use api_shooter_cli::Player;

#[test]
fn test_player_creation() {
    let player = Player::new();
    assert_eq!(player.hp, 100);
    assert_eq!(player.max_hp, 100);
    assert_eq!(player.get_ammo, 99);
    assert_eq!(player.post_ammo, 20);
    assert_eq!(player.put_ammo, 20);
    assert_eq!(player.delete_ammo, 3);
    assert_eq!(player.x, 400 * SCALE);
    assert_eq!(player.y, 500 * SCALE);
}

#[test]
fn test_player_initial_position() {
    let player = Player::new();

    // Should be in center-bottom area
    assert_eq!(player.x, 400 * SCALE); // Center of 800-unit width
    assert_eq!(player.y, 500 * SCALE); // Near bottom of 600-unit height
    assert_eq!(player.size, 30 * SCALE);
    assert_eq!(player.speed, 300);
}

#[test]
fn steer_moves_by_speed_times_dt() {
    let mut player = Player::new();
    let input = Input { left: true, up: true, ..Input::default() };
    player.steer(100, input);
    assert_eq!(player.x, 370 * SCALE);
    assert_eq!(player.y, 470 * SCALE);
}

#[test]
fn steer_clamps_to_bounds() {
    let mut player = Player::new();
    let input = Input { left: true, up: true, ..Input::default() };
    player.steer(10_000, input);
    assert_eq!(player.x, 30 * SCALE);
    assert_eq!(player.y, 250 * SCALE);
    let input = Input { right: true, down: true, ..Input::default() };
    player.steer(10_000, input);
    assert_eq!(player.x, 770 * SCALE);
    assert_eq!(player.y, 550 * SCALE);
}

#[test]
fn steer_without_input_keeps_position() {
    let mut player = Player::new();
    player.steer(500, Input::default());
    assert_eq!(player, Player::new());
}
