use api_shooter_cli::arena::{Input, Roll, SCALE};
use api_shooter_cli::{Bullet, Enemy, EnemyBullet, GameState, Method, Player, Tint};

/// A fresh world whose enemy is a known one: weak to `weakness`
/// (0 = GET, 1 = POST, 2 = PUT), at (400, 200), facing right.
fn world(weakness: usize, hp: i32) -> GameState {
    let mut g = GameState::new();
    g.enemy = Some(Enemy::spawn(0, 123, hp, weakness, 400 * SCALE, 200 * SCALE, 150, true));
    g
}

fn enemy(g: &GameState) -> &Enemy {
    g.enemy.as_ref().unwrap()
}

/// Puts every shot in flight on the enemy's centre.
fn aim_all(g: &mut GameState) {
    let (x, y) = (enemy(g).x, enemy(g).y);
    for b in g.bullets.iter_mut() {
        b.x = x;
        b.y = y;
    }
}

fn still() -> Roll {
    Roll { turn: false, lift: false, jitter: 0, attack: 0 }
}

#[test]
fn test_game_state_creation() {
    let game = GameState::new();
    assert_eq!(game.score, 0);
    assert_eq!(game.enemies_defeated, 0);
    assert!(!game.game_over);
    assert!(!game.victory_screen);
    assert!(!game.enemy_weakness_revealed);
    assert!(game.enemy.is_some());
    assert_eq!(game.bullets.len(), 0);
    assert_eq!(game.enemy_bullets.len(), 0);
}

#[test]
fn test_all_components_work_together() {
    let player = Player::new();
    let enemy = Enemy::new();
    let game = GameState::new();

    // Ensure all components can be created
    assert!(player.hp > 0);
    assert!(enemy.hp > 0);
    assert!(game.enemy.is_some());
}

#[test]
fn delete_on_enemy_at_full_hundred_wins() {
    let mut g = world(1, 100);
    g.fire_bullet(Method::Delete);
    aim_all(&mut g);
    g.update(0, Input::default());
    assert_eq!(g.score, 200);
    assert_eq!(g.enemies_defeated, 1);
    assert!(g.victory_screen);
    assert!(g.enemy.is_none());
    assert!(g.bullets.is_empty());
    assert_eq!(g.player.delete_ammo, 2);
}

#[test]
fn fire_spends_ammo_and_fixes_damage() {
    let mut g = world(1, 100);
    g.fire_bullet(Method::Post);
    g.fire_bullet(Method::Put);
    g.fire_bullet(Method::Get);
    g.fire_bullet(Method::Delete);
    assert_eq!(g.player.post_ammo, 19);
    assert_eq!(g.player.put_ammo, 19);
    assert_eq!(g.player.get_ammo, 98);
    assert_eq!(g.player.delete_ammo, 2);
    let damages: Vec<i32> = g.bullets.iter().map(|b| b.damage).collect();
    assert_eq!(damages, vec![40, 25, 0, 100]);
    let first = g.bullets[0];
    assert_eq!((first.x, first.y), (400 * SCALE, 470 * SCALE));
    assert_eq!(first.speed, 500);
    assert_eq!(first.color, Tint::Green);
}

#[test]
fn put_on_put_weakness_deals_forty_five() {
    let mut g = world(2, 100);
    g.fire_bullet(Method::Put);
    g.fire_bullet(Method::Post);
    assert_eq!(g.bullets[0].damage, 45);
    assert_eq!(g.bullets[1].damage, 20);
    aim_all(&mut g);
    g.check_collisions();
    assert_eq!(enemy(&g).hp, 35);
    assert_eq!(g.score, 65);
    assert!(g.bullets.is_empty());
}

#[test]
fn critical_hit_is_announced() {
    let mut g = world(1, 100);
    g.fire_bullet(Method::Post);
    aim_all(&mut g);
    g.check_collisions();
    assert_eq!(enemy(&g).hp, 60);
    assert_eq!(g.ui_message, "CRITICAL HIT!");
    assert_eq!(g.ui_message_timer, 1000);
}

#[test]
fn get_reveals_weakness_once() {
    let mut g = world(2, 100);
    g.fire_bullet(Method::Get);
    aim_all(&mut g);
    g.check_collisions();
    assert!(g.enemy_weakness_revealed);
    assert_eq!(g.ui_message, "Target weakness: PUT");
    assert_eq!(g.ui_message_timer, 3000);
    assert_eq!(enemy(&g).hp, 100);
    assert_eq!(g.score, 0);
    assert!(g.bullets.is_empty());

    g.ui_message = "other".to_string();
    g.fire_bullet(Method::Get);
    aim_all(&mut g);
    g.check_collisions();
    assert_eq!(g.ui_message, "other");
    assert!(g.bullets.is_empty());
}

#[test]
fn hit_needs_overlap_on_both_axes() {
    let mut g = world(0, 100);
    let size = enemy(&g).size;
    let (x, y) = (enemy(&g).x, enemy(&g).y);
    for (dx, dy, hit) in [
        (size, 0, false),
        (0, -size, false),
        (size - 1, size - 1, true),
        (-(size - 1), 0, true),
    ] {
        g.bullets = vec![Bullet {
            x: x + dx,
            y: y + dy,
            speed: 500,
            bullet_type: Method::Delete,
            damage: 10,
            color: Tint::Red,
        }];
        let before = enemy(&g).hp;
        g.check_collisions();
        assert_eq!(g.bullets.is_empty(), hit);
        assert_eq!(before - enemy(&g).hp, if hit { 10 } else { 0 });
    }
}

#[test]
fn enemy_attack_hits_player() {
    let mut g = world(0, 100);
    g.enemy_bullets.push(EnemyBullet {
        x: g.player.x,
        y: g.player.y,
        speed: 250,
        damage: 30,
        attack_name: "429 Too Many Requests".to_string(),
        color: Tint::Orange,
    });
    g.check_collisions();
    assert_eq!(g.player.hp, 70);
    assert_eq!(g.ui_message, "Hit by 429 Too Many Requests!");
    assert_eq!(g.ui_message_timer, 1500);
    assert!(g.enemy_bullets.is_empty());
}

#[test]
fn launch_attack_uses_table_entry() {
    let mut g = world(0, 100);
    g.launch_attack(4);
    let b = &g.enemy_bullets[0];
    assert_eq!(b.attack_name, "500 Internal Server Error");
    assert_eq!(b.damage, 35);
    assert_eq!((b.x, b.y), (400 * SCALE, 235 * SCALE));
    assert_eq!(b.speed, 250);
    assert_eq!(b.color, Tint::Orange);
}

#[test]
fn enemy_attack_draws_from_table() {
    let mut g = world(0, 100);
    g.enemy_attack();
    assert_eq!(g.enemy_bullets.len(), 1);
    let b = &g.enemy_bullets[0];
    let table = [
        ("400 Bad Request", 15),
        ("401 Unauthorized", 20),
        ("403 Forbidden", 25),
        ("429 Too Many Requests", 30),
        ("500 Internal Server Error", 35),
    ];
    assert!(table.contains(&(b.attack_name.as_str(), b.damage)));
    assert_eq!((b.x, b.y), (400 * SCALE, 235 * SCALE));
}

#[test]
fn projectiles_leave_the_arena() {
    let mut g = world(0, 100);
    g.fire_bullet(Method::Post);
    g.fire_bullet(Method::Put);
    g.bullets[1].y = 2 * SCALE;
    g.launch_attack(0);
    g.move_bullets(10);
    assert_eq!(g.bullets.len(), 1);
    assert_eq!(g.bullets[0].y, 465 * SCALE);
    assert_eq!(g.enemy_bullets[0].y, 237_500);
    g.enemy_bullets[0].y = 599 * SCALE;
    g.move_bullets(4);
    assert!(g.enemy_bullets.is_empty());
}

#[test]
fn enemy_attacks_on_cadence() {
    let mut g = world(0, 100);
    g.enemy_attack_timer = 1400;
    g.patrol(100, still());
    assert_eq!(g.enemy_attack_timer, 1500);
    assert!(g.enemy_bullets.is_empty());
    g.patrol(1, Roll { attack: 2, ..still() });
    assert_eq!(g.enemy_attack_timer, 0);
    assert_eq!(g.enemy_bullets.len(), 1);
    assert_eq!(g.enemy_bullets[0].damage, 25);
}

#[test]
fn advance_applies_input() {
    let mut g = world(0, 100);
    let input = Input { right: true, fire_post: true, ..Input::default() };
    g.advance(100, input, still());
    assert_eq!(g.player.x, 430 * SCALE);
    assert_eq!(g.player.post_ammo, 19);
    assert_eq!(g.bullets.len(), 1);
    assert_eq!(g.bullets[0].y, 420 * SCALE);
    assert_eq!(g.ui_message_timer, 2900);
    assert_eq!(enemy(&g).x, 415 * SCALE);
}

#[test]
fn no_fire_without_ammo() {
    let mut g = world(0, 100);
    g.player.delete_ammo = 0;
    let input = Input { fire_delete: true, ..Input::default() };
    g.advance(0, input, still());
    assert!(g.bullets.is_empty());
    assert_eq!(g.player.delete_ammo, 0);
}

#[test]
fn player_defeat_ends_game_and_freezes_world() {
    let mut g = world(0, 100);
    g.player.hp = 10;
    g.enemy_bullets.push(EnemyBullet {
        x: g.player.x,
        y: g.player.y,
        speed: 250,
        damage: 15,
        attack_name: "400 Bad Request".to_string(),
        color: Tint::Orange,
    });
    g.update(0, Input::default());
    assert!(g.game_over);
    assert_eq!(g.player.hp, -5);
    let x = g.player.x;
    let input = Input { left: true, fire_post: true, ..Input::default() };
    g.update(500, input);
    assert_eq!(g.player.x, x);
    assert!(g.bullets.is_empty());
    assert!(g.game_over);
}

#[test]
fn victory_screen_waits_for_proceed() {
    let mut g = world(0, 100);
    g.fire_bullet(Method::Delete);
    aim_all(&mut g);
    g.launch_attack(1);
    g.update(0, Input::default());
    assert!(g.victory_screen);
    assert!(g.enemy_bullets.is_empty());
    g.update(100, Input { left: true, ..Input::default() });
    assert!(g.victory_screen);
    assert!(g.enemy.is_none());
    g.enemy_weakness_revealed = true;
    g.enemy_attack_timer = 700;
    g.update(100, Input { proceed: true, ..Input::default() });
    assert!(!g.victory_screen);
    assert!(g.enemy.is_some());
    assert!(!g.enemy_weakness_revealed);
    assert_eq!(g.enemy_attack_timer, 0);
    assert_eq!(g.ui_message, "New target acquired!");
    assert_eq!(g.ui_message_timer, 2000);
}

#[test]
fn settle_leaves_live_enemy() {
    let mut g = world(0, 1);
    g.settle();
    assert!(!g.victory_screen);
    assert!(g.enemy.is_some());
    assert!(!g.game_over);
    assert_eq!(g.score, 0);
}

#[test]
fn room_reflects_counters() {
    let mut g = world(0, 100);
    assert!(g.has_room());
    g.score = i32::MAX - 100;
    assert!(!g.has_room());
}
