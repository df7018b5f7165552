use std::collections::HashSet;

use api_shooter_cli::arena::SCALE;
use api_shooter_cli::enemy::make_name;
use api_shooter_cli::{Enemy, Method};

#[test]
fn test_enemy_creation() {
    let enemy = Enemy::new();
    // HP validation
    assert!(enemy.hp > 0);
    assert!(enemy.max_hp > 0);
    assert!(enemy.hp >= 80 && enemy.hp <= 120);
    assert_eq!(enemy.hp, enemy.max_hp);

    // Weakness validation
    assert!(["GET", "POST", "PUT"].contains(&enemy.weakness.label()));

    // Position validation
    assert!(enemy.x >= 80 * SCALE && enemy.x <= 720 * SCALE);
    assert!(enemy.y >= 140 * SCALE && enemy.y <= 260 * SCALE);

    // Name format validation
    assert!(enemy.name.contains("-"));
    assert!(enemy.name.len() > 5); // "Type-123" format
}

#[test]
fn test_enemy_types() {
    // Test multiple enemies to ensure variety
    let mut enemy_types = HashSet::new();
    let mut weaknesses = HashSet::new();

    for _ in 0..20 {
        let enemy = Enemy::new();
        let parts: Vec<&str> = enemy.name.split('-').collect();
        enemy_types.insert(parts[0].to_string());
        weaknesses.insert(enemy.weakness);
    }

    // Should have multiple enemy types
    assert!(enemy_types.len() > 1);
    // Should have multiple weakness types
    assert!(weaknesses.len() > 1);
}

#[test]
fn test_enemy_movement_bounds() {
    let mut enemy = Enemy::new();

    // Test boundary clamping
    enemy.x = -10 * SCALE; // Below minimum
    enemy.update(100);
    assert!(enemy.x >= 80 * SCALE);

    enemy.x = 800 * SCALE; // Above maximum
    enemy.update(100);
    assert!(enemy.x <= 720 * SCALE);
}

#[test]
fn test_weakness_coverage() {
    let weaknesses = ["GET", "POST", "PUT"];

    // Test that all weakness types can be generated
    let mut found_weaknesses = HashSet::new();
    for _ in 0..50 {
        let enemy = Enemy::new();
        found_weaknesses.insert(enemy.weakness.label());
    }

    // Should find all 3 weakness types
    for weakness in &weaknesses {
        assert!(
            found_weaknesses.contains(*weakness),
            "Weakness '{}' was not generated",
            weakness
        );
    }
}

#[test]
fn test_enemy_name_format() {
    let enemy = Enemy::new();
    let parts: Vec<&str> = enemy.name.split('-').collect();

    // Should have exactly 2 parts: Type-Number
    assert_eq!(parts.len(), 2);

    // First part should be valid enemy type
    assert!(["User", "Order", "Product", "Payment"].contains(&parts[0]));

    // Second part should be a number
    let id: Result<i32, _> = parts[1].parse();
    assert!(id.is_ok());
    let id_num = id.unwrap();
    assert!(id_num >= 100 && id_num <= 999);
}

fn sample() -> Enemy {
    Enemy::spawn(2, 407, 95, 1, 400 * SCALE, 200 * SCALE, 150, true)
}

#[test]
fn spawn_sets_every_field() {
    let e = sample();
    assert_eq!(e.name, "Product-407");
    assert_eq!(e.hp, 95);
    assert_eq!(e.max_hp, 95);
    assert_eq!(e.weakness, Method::Post);
    assert_eq!((e.x, e.y), (400 * SCALE, 200 * SCALE));
    assert_eq!(e.size, 35 * SCALE);
    assert_eq!(e.speed, 150);
    assert_eq!(e.direction, 1);
    assert_eq!(e.move_timer, 0);
}

#[test]
fn names_have_three_digits() {
    assert_eq!(make_name(0, 100), "User-100");
    assert_eq!(make_name(1, 999), "Order-999");
    assert_eq!(make_name(3, 560), "Payment-560");
}

#[test]
fn step_moves_along_facing() {
    let mut e = sample();
    e.step(1000, true, true, 20 * SCALE);
    assert_eq!(e.x, 550 * SCALE);
    assert_eq!(e.y, 200 * SCALE);
    assert_eq!(e.direction, 1);
    assert_eq!(e.move_timer, 1000);
}

#[test]
fn step_retimes_after_threshold() {
    let mut e = sample();
    e.move_timer = 1400;
    e.step(200, true, true, 20 * SCALE);
    assert_eq!(e.move_timer, 0);
    assert_eq!(e.direction, -1);
    assert_eq!(e.y, 220 * SCALE);
    assert_eq!(e.x, 370 * SCALE);
}

#[test]
fn step_clamps_vertical_jitter() {
    let mut e = sample();
    e.y = 250 * SCALE;
    e.move_timer = 1500;
    e.step(1, false, true, 29 * SCALE);
    assert_eq!(e.y, 260 * SCALE);
    assert_eq!(e.direction, 1);
}

#[test]
fn step_bounces_off_the_right_edge() {
    let mut e = sample();
    e.x = 700 * SCALE;
    e.step(1000, false, false, 0);
    assert_eq!(e.x, 720 * SCALE);
    assert_eq!(e.direction, -1);
}
