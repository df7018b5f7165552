use vstd::prelude::*;

use crate::arena::{in_coords, lemma_travel, overlap, Input, Roll, ARENA_HEIGHT, MAX_DT};
use crate::combat::{
    barrage, dodged, fell, misses, rose, volley, Tally, CRITICAL_TIME, REVEAL_TIME, WOUND_TIME,
};
use crate::bullet::{
    attack_damage, attack_entry, attack_name, damage_for, tint_for, Bullet, EnemyBullet, Method,
    Tint, ATTACK_COUNT,
};
use crate::chance::{draw_range, draw_ratio};
use crate::enemy::{stepped, Enemy, JITTER, RETIME};
use crate::player::{steered_x, steered_y, Player};

verus! {

/// Speed of a player's shot.
pub const SHOT_SPEED: i64 = 500;

/// Speed of an enemy's attack.
pub const ATTACK_SPEED: i64 = 250;

/// Points for defeating an enemy.
pub const KILL_BONUS: i32 = 100;

/// The whole world of one game.
#[derive(Debug)]
pub struct GameState {
    pub player: Player,
    /// The current target; absent on the victory screen.
    pub enemy: Option<Enemy>,
    pub bullets: Vec<Bullet>,
    pub enemy_bullets: Vec<EnemyBullet>,
    pub score: i32,
    pub enemies_defeated: i32,
    pub game_over: bool,
    pub victory_screen: bool,
    /// Whether a GET shot has already revealed the current enemy's weakness.
    pub enemy_weakness_revealed: bool,
    /// Time since the enemy last attacked.
    pub enemy_attack_timer: i64,
    pub ui_message: String,
    /// Remaining display time of `ui_message`.
    pub ui_message_timer: i64,
}

/// The ammo counter of `p` for shots of kind `m`.
pub open spec fn ammo_of(p: Player, m: Method) -> i32 {
    match m {
        Method::Get => p.get_ammo,
        Method::Post => p.post_ammo,
        Method::Put => p.put_ammo,
        Method::Delete => p.delete_ammo,
    }
}

/// `p` after spending one shot of kind `m`.
pub open spec fn spent(p: Player, m: Method) -> Player {
    match m {
        Method::Get => Player { get_ammo: (p.get_ammo - 1) as i32, ..p },
        Method::Post => Player { post_ammo: (p.post_ammo - 1) as i32, ..p },
        Method::Put => Player { put_ammo: (p.put_ammo - 1) as i32, ..p },
        Method::Delete => Player { delete_ammo: (p.delete_ammo - 1) as i32, ..p },
    }
}

/// The shot of kind `m` that the player fires at `target`.
pub open spec fn shot(p: Player, target: Enemy, m: Method) -> Bullet {
    Bullet {
        x: p.x,
        y: (p.y - p.size) as i64,
        speed: SHOT_SPEED,
        bullet_type: m,
        damage: damage_for(m, target.weakness),
        color: tint_for(m),
    }
}

/// `b` is entry `i` of the attack table, launched by `e` from its lower edge.
pub open spec fn is_attack(b: EnemyBullet, e: Enemy, i: int) -> bool {
    &&& b.x == e.x
    &&& b.y == e.y + e.size
    &&& b.speed == ATTACK_SPEED
    &&& b.damage == attack_damage(i)
    &&& b.attack_name@ == attack_name(i)
    &&& b.color == Tint::Orange
}

/// `post` is `pre` after firing a shot of kind `m`.
pub open spec fn fired(pre: GameState, post: GameState, m: Method) -> bool {
    &&& pre.enemy is Some
    &&& post.player == spent(pre.player, m)
    &&& post.bullets@ == pre.bullets@.push(shot(pre.player, pre.enemy->Some_0, m))
    &&& post == GameState { player: post.player, bullets: post.bullets, ..pre }
}

/// `post` is `pre` after the enemy launched entry `i` of its attack table.
pub open spec fn attacked(pre: GameState, post: GameState, i: int) -> bool {
    &&& pre.enemy is Some
    &&& post.enemy_bullets@.len() == pre.enemy_bullets@.len() + 1
    &&& post.enemy_bullets@.drop_last() == pre.enemy_bullets@
    &&& is_attack(post.enemy_bullets@.last(), pre.enemy->Some_0, i)
    &&& post == GameState { enemy_bullets: post.enemy_bullets, ..pre }
}

/// `post` is `pre` after every projectile moved for `dt` and those that
/// left the arena were dropped.
pub open spec fn flown(pre: GameState, post: GameState, dt: int) -> bool {
    &&& post.bullets@ == rose(pre.bullets@, dt)
    &&& post.enemy_bullets@ == fell(pre.enemy_bullets@, dt)
    &&& post == GameState { bullets: post.bullets, enemy_bullets: post.enemy_bullets, ..pre }
}

/// The tally before collision resolution.
pub open spec fn opening(g: GameState) -> Tally {
    Tally {
        hp: match g.enemy {
            Some(e) => e.hp as int,
            None => 0,
        },
        score: g.score as int,
        revealed: g.enemy_weakness_revealed,
        message: g.ui_message@,
        message_timer: g.ui_message_timer as int,
    }
}

/// The tally after the player's shots were resolved against the enemy.
pub open spec fn first_pass(g: GameState) -> Tally {
    match g.enemy {
        Some(e) => volley(g.bullets@, e, opening(g)),
        None => opening(g),
    }
}

/// The tally after the enemy's attacks were resolved against the player.
pub open spec fn second_pass(g: GameState) -> Tally {
    barrage(g.enemy_bullets@, g.player, Tally { hp: g.player.hp as int, ..first_pass(g) })
}

/// `post` is `pre` after collision resolution: first the player's shots
/// against the enemy, then the enemy's attacks against the player. A shot
/// that hits is consumed whatever its effect.
pub open spec fn collided(pre: GameState, post: GameState) -> bool {
    let t1 = first_pass(pre);
    let t2 = second_pass(pre);
    &&& post.enemy == match pre.enemy {
        Some(e) => Some(Enemy { hp: t1.hp as i32, ..e }),
        None => None,
    }
    &&& post.bullets@ == match pre.enemy {
        Some(e) => misses(pre.bullets@, e),
        None => pre.bullets@,
    }
    &&& post.player == Player { hp: t2.hp as i32, ..pre.player }
    &&& post.enemy_bullets@ == dodged(pre.enemy_bullets@, pre.player)
    &&& post.score == t1.score
    &&& post.enemy_weakness_revealed == t1.revealed
    &&& post.ui_message@ == t2.message
    &&& post.ui_message_timer == t2.message_timer
    &&& post == GameState {
        player: post.player,
        enemy: post.enemy,
        bullets: post.bullets,
        enemy_bullets: post.enemy_bullets,
        score: post.score,
        enemy_weakness_revealed: post.enemy_weakness_revealed,
        ui_message: post.ui_message,
        ui_message_timer: post.ui_message_timer,
        ..pre
    }
}

/// `post` is `pre` after the enemy's victory and the player's defeat were
/// checked: an enemy at `hp <= 0` is removed for the kill bonus, with every
/// attack in flight, and the victory screen shows; a player at `hp <= 0`
/// ends the game.
pub open spec fn settled(pre: GameState, post: GameState) -> bool {
    let win = pre.enemy matches Some(e) && e.hp <= 0;
    &&& post.game_over == (pre.game_over || pre.player.hp <= 0)
    &&& if win {
        &&& post.score == pre.score + KILL_BONUS
        &&& post.enemies_defeated == pre.enemies_defeated + 1
        &&& post.enemy is None
        &&& post.victory_screen
        &&& post.enemy_bullets@.len() == 0
    } else {
        &&& post.score == pre.score
        &&& post.enemies_defeated == pre.enemies_defeated
        &&& post.enemy == pre.enemy
        &&& post.victory_screen == pre.victory_screen
        &&& post.enemy_bullets == pre.enemy_bullets
    }
    &&& post == GameState {
        score: post.score,
        enemies_defeated: post.enemies_defeated,
        enemy: post.enemy,
        victory_screen: post.victory_screen,
        enemy_bullets: post.enemy_bullets,
        game_over: post.game_over,
        ..pre
    }
}

/// `post` is `pre` after leaving the victory screen to face `e`.
pub open spec fn acquired(pre: GameState, post: GameState, e: Enemy) -> bool {
    &&& post.ui_message@ == "New target acquired!"@
    &&& post == GameState {
        enemy: Some(e),
        victory_screen: false,
        enemy_weakness_revealed: false,
        enemy_attack_timer: 0,
        ui_message: post.ui_message,
        ui_message_timer: 2000,
        ..pre
    }
}

/// The chance outcomes of a tick are in their ranges.
pub open spec fn roll_in_range(r: Roll) -> bool {
    -JITTER <= r.jitter < JITTER && r.attack < ATTACK_COUNT
}

/// `pre` after the player's movement input and the message countdown.
pub open spec fn prepared(pre: GameState, dt: int, input: Input) -> GameState {
    GameState {
        player: Player {
            x: steered_x(pre.player, dt, input) as i64,
            y: steered_y(pre.player, dt, input) as i64,
            ..pre.player
        },
        ui_message_timer: (if pre.ui_message_timer > 0 {
            pre.ui_message_timer - dt
        } else {
            pre.ui_message_timer as int
        }) as i64,
        ..pre
    }
}

/// `post` is `pre` after the trigger for kind `m` was or was not `pressed`:
/// a press fires only while there is a target and ammo of that kind.
pub open spec fn triggered(pre: GameState, post: GameState, m: Method, pressed: bool) -> bool {
    if pressed && pre.enemy is Some && ammo_of(pre.player, m) > 0 {
        fired(pre, post, m)
    } else {
        post == pre
    }
}

/// `post` is `pre` after the four triggers, in the order GET, POST, PUT,
/// DELETE.
pub open spec fn armed(pre: GameState, post: GameState, input: Input) -> bool {
    exists|s1: GameState, s2: GameState, s3: GameState|
        triggered(pre, s1, Method::Get, input.fire_get) && triggered(
            s1,
            s2,
            Method::Post,
            input.fire_post,
        ) && triggered(s2, s3, Method::Put, input.fire_put) && triggered(
            s3,
            post,
            Method::Delete,
            input.fire_delete,
        )
}

/// `post` is `pre` after the enemy's turn: it patrols, and when its attack
/// timer passes the threshold it attacks and the timer restarts.
pub open spec fn patrolled(pre: GameState, post: GameState, dt: int, roll: Roll) -> bool {
    match pre.enemy {
        None => post == pre,
        Some(e) => {
            let t = pre.enemy_attack_timer + dt;
            let moved = GameState {
                enemy: Some(stepped(e, dt, roll.turn, roll.lift, roll.jitter as int)),
                enemy_attack_timer: t as i64,
                ..pre
            };
            if t > RETIME {
                attacked(GameState { enemy_attack_timer: 0, ..moved }, post, roll.attack as int)
            } else {
                post == moved
            }
        },
    }
}

/// `post` is `pre` after one tick of play, in order: movement and message
/// countdown, firing, the enemy's turn, projectile flight, collisions, and
/// the victory and defeat checks.
pub open spec fn ticked(pre: GameState, post: GameState, dt: int, input: Input, roll: Roll) -> bool {
    exists|b: GameState, c: GameState, d: GameState, f: GameState|
        armed(prepared(pre, dt, input), b, input) && patrolled(b, c, dt, roll) && flown(c, d, dt)
            && collided(d, f) && settled(f, post)
}

impl GameState {
    /// Every actor is well formed, the timers are in range, and the victory
    /// screen is shown only while there is no target.
    pub open spec fn wf(&self) -> bool {
        &&& self.player.wf()
        &&& (self.enemy matches Some(e) ==> e.wf())
        &&& forall|i: int| 0 <= i < self.bullets@.len() ==> (#[trigger] self.bullets@[i]).wf()
        &&& forall|i: int|
            0 <= i < self.enemy_bullets@.len() ==> (#[trigger] self.enemy_bullets@[i]).wf()
        &&& 0 <= self.enemy_attack_timer <= RETIME
        &&& in_coords(self.ui_message_timer as int)
        &&& (self.victory_screen ==> self.enemy is None)
    }

    /// The counters are far enough from the limits of `i32` for one more tick.
    pub open spec fn room(&self) -> bool {
        &&& self.score + 100 * (self.bullets@.len() + 4) + KILL_BONUS <= i32::MAX
        &&& self.enemies_defeated < i32::MAX
        &&& (self.enemy matches Some(e) ==> e.hp - 100 * (self.bullets@.len() + 4) >= i32::MIN)
        &&& self.player.hp - 100 * (self.enemy_bullets@.len() + 1) >= i32::MIN
    }

    /// Whether the counters leave room for one more tick; see [`Self::room`].
    pub fn has_room(&self) -> (r: bool)
        ensures
            r == self.room(),
    {
        let shots = self.bullets.len() as i128;
        let attacks = self.enemy_bullets.len() as i128;
        let enemy_ok = match &self.enemy {
            Some(e) => e.hp as i128 - 100 * (shots + 4) >= i32::MIN as i128,
            None => true,
        };
        self.score as i128 + 100 * (shots + 4) + KILL_BONUS as i128 <= i32::MAX as i128
            && self.enemies_defeated < i32::MAX
            && enemy_ok
            && self.player.hp as i128 - 100 * (attacks + 1) >= i32::MIN as i128
    }

    /// A fresh game: a new ship, a random enemy, nothing in flight.
    pub fn new() -> (g: GameState)
        ensures
            g.wf(),
            g.player == Player::new_spec(),
            g.enemy matches Some(e) && e.fresh(),
            g.bullets@.len() == 0,
            g.enemy_bullets@.len() == 0,
            g.score == 0,
            g.enemies_defeated == 0,
            !g.game_over,
            !g.victory_screen,
            !g.enemy_weakness_revealed,
            g.enemy_attack_timer == 0,
            g.ui_message@ == "Use WASD to move, 1/2/3/4 to shoot different HTTP methods!"@,
            g.ui_message_timer == 3000,
    {
        GameState {
            player: Player::new(),
            enemy: Some(Enemy::new()),
            bullets: Vec::new(),
            enemy_bullets: Vec::new(),
            score: 0,
            enemies_defeated: 0,
            game_over: false,
            victory_screen: false,
            enemy_weakness_revealed: false,
            enemy_attack_timer: 0,
            ui_message: String::from_str(
                "Use WASD to move, 1/2/3/4 to shoot different HTTP methods!",
            ),
            ui_message_timer: 3000,
        }
    }

    /// Fires a shot of kind `kind` from the top of the ship: spends one round
    /// of that kind, and fixes the shot's damage against the current enemy's
    /// weakness.
    pub fn fire_bullet(&mut self, kind: Method)
        requires
            old(self).wf(),
            old(self).enemy is Some,
            ammo_of(old(self).player, kind) > 0,
        ensures
            fired(*old(self), *final(self), kind),
            final(self).wf(),
    {
        let weakness = match &self.enemy {
            Some(e) => e.weakness,
            None => Method::Get,
        };
        match kind {
            Method::Get => self.player.get_ammo = self.player.get_ammo - 1,
            Method::Post => self.player.post_ammo = self.player.post_ammo - 1,
            Method::Put => self.player.put_ammo = self.player.put_ammo - 1,
            Method::Delete => self.player.delete_ammo = self.player.delete_ammo - 1,
        }
        let b = Bullet {
            x: self.player.x,
            y: self.player.y - self.player.size,
            speed: SHOT_SPEED,
            bullet_type: kind,
            damage: kind.damage_against(weakness),
            color: kind.tint(),
        };
        self.bullets.push(b);
        proof {
            assert(self.bullets@.last() == b);
        }
    }

    /// The enemy launches entry `i` of its attack table from its lower edge.
    pub fn launch_attack(&mut self, i: usize)
        requires
            old(self).wf(),
            old(self).enemy is Some,
            i < ATTACK_COUNT,
        ensures
            attacked(*old(self), *final(self), i as int),
            final(self).wf(),
    {
        let (name, damage) = attack_entry(i);
        let b = match &self.enemy {
            Some(e) => EnemyBullet {
                x: e.x,
                y: e.y + e.size,
                speed: ATTACK_SPEED,
                damage,
                attack_name: String::from_str(name),
                color: Tint::Orange,
            },
            None => EnemyBullet {
                x: 0,
                y: 0,
                speed: ATTACK_SPEED,
                damage,
                attack_name: String::from_str(name),
                color: Tint::Orange,
            },
        };
        let ghost pre = self.enemy_bullets@;
        self.enemy_bullets.push(b);
        proof {
            assert(self.enemy_bullets@.drop_last() =~= pre);
        }
    }

    /// The enemy launches an attack drawn uniformly from its table.
    pub fn enemy_attack(&mut self)
        requires
            old(self).wf(),
            old(self).enemy is Some,
        ensures
            exists|i: int| 0 <= i < ATTACK_COUNT && attacked(*old(self), *final(self), i),
            final(self).wf(),
    {
        let i = draw_range(0, ATTACK_COUNT as i64) as usize;
        self.launch_attack(i);
    }

    /// Moves every shot up and every attack down by `dt`, dropping the shots
    /// that reach the top (`y <= 0`) and the attacks that reach the bottom.
    pub fn move_bullets(&mut self, dt: i64)
        requires
            old(self).wf(),
            0 <= dt <= MAX_DT,
        ensures
            flown(*old(self), *final(self), dt as int),
            final(self).wf(),
            final(self).bullets@.len() <= old(self).bullets@.len(),
            final(self).enemy_bullets@.len() <= old(self).enemy_bullets@.len(),
    {
        let ghost pre = *self;
        let mut kept: Vec<Bullet> = Vec::new();
        let mut i: usize = 0;
        while i < self.bullets.len()
            invariant
                *self == pre,
                pre.wf(),
                0 <= dt <= MAX_DT,
                0 <= i <= self.bullets@.len(),
                kept@ == rose(self.bullets@.take(i as int), dt as int),
                kept@.len() <= i,
                forall|j: int| 0 <= j < kept@.len() ==> (#[trigger] kept@[j]).wf(),
            decreases self.bullets@.len() - i,
        {
            let b = self.bullets[i];
            proof {
                assert(self.bullets@[i as int].wf());
                lemma_travel(b.speed as int, dt as int);
                assert(self.bullets@.take(i + 1).drop_last() =~= self.bullets@.take(i as int));
            }
            let y = b.y - b.speed * dt;
            if y > 0 {
                kept.push(Bullet { y, ..b });
            }
            i = i + 1;
        }
        proof {
            assert(self.bullets@.take(i as int) =~= self.bullets@);
        }
        let mut falling: Vec<EnemyBullet> = Vec::new();
        let mut k: usize = 0;
        while k < self.enemy_bullets.len()
            invariant
                *self == pre,
                pre.wf(),
                0 <= dt <= MAX_DT,
                0 <= k <= self.enemy_bullets@.len(),
                falling@ == fell(self.enemy_bullets@.take(k as int), dt as int),
                falling@.len() <= k,
                forall|j: int| 0 <= j < falling@.len() ==> (#[trigger] falling@[j]).wf(),
            decreases self.enemy_bullets@.len() - k,
        {
            let mut b = self.enemy_bullets[k].duplicate();
            proof {
                assert(self.enemy_bullets@[k as int].wf());
                lemma_travel(b.speed as int, dt as int);
                assert(self.enemy_bullets@.take(k + 1).drop_last() =~= self.enemy_bullets@.take(
                    k as int,
                ));
            }
            let y = b.y + b.speed * dt;
            if y < ARENA_HEIGHT {
                b.y = y;
                falling.push(b);
            }
            k = k + 1;
        }
        proof {
            assert(self.enemy_bullets@.take(k as int) =~= self.enemy_bullets@);
        }
        self.bullets = kept;
        self.enemy_bullets = falling;
    }

    /// Resolves collisions: each shot that hits the enemy is consumed, a GET
    /// hit reveals the weakness once, any other hit deals and scores its
    /// damage; then each attack that hits the player is consumed and deals
    /// its damage.
    pub fn check_collisions(&mut self)
        requires
            old(self).wf(),
            old(self).score + 100 * old(self).bullets@.len() <= i32::MAX,
            old(self).enemy matches Some(e) ==> e.hp - 100 * old(self).bullets@.len() >= i32::MIN,
            old(self).player.hp - 100 * old(self).enemy_bullets@.len() >= i32::MIN,
        ensures
            collided(*old(self), *final(self)),
            final(self).wf(),
            final(self).score <= old(self).score + 100 * old(self).bullets@.len(),
    {
        let ghost pre = *self;
        let mut slot: Option<Enemy> = None;
        std::mem::swap(&mut self.enemy, &mut slot);
        match slot {
            Some(mut e) => {
                let ghost e0 = e;
                let mut kept: Vec<Bullet> = Vec::new();
                let mut i: usize = 0;
                while i < self.bullets.len()
                    invariant
                        pre.wf(),
                        pre.enemy == Some(e0),
                        pre.score + 100 * pre.bullets@.len() <= i32::MAX,
                        e0.hp - 100 * pre.bullets@.len() >= i32::MIN,
                        e == (Enemy { hp: e.hp, ..e0 }),
                        *self == (GameState {
                            enemy: None,
                            score: self.score,
                            enemy_weakness_revealed: self.enemy_weakness_revealed,
                            ui_message: self.ui_message,
                            ui_message_timer: self.ui_message_timer,
                            ..pre
                        }),
                        0 <= i <= self.bullets@.len(),
                        volley(self.bullets@.take(i as int), e0, opening(pre)) == (Tally {
                            hp: e.hp as int,
                            score: self.score as int,
                            revealed: self.enemy_weakness_revealed,
                            message: self.ui_message@,
                            message_timer: self.ui_message_timer as int,
                        }),
                        self.score <= pre.score + 100 * i,
                        e.hp >= e0.hp - 100 * i,
                        in_coords(self.ui_message_timer as int),
                        kept@ == misses(self.bullets@.take(i as int), e0),
                        forall|j: int| 0 <= j < kept@.len() ==> (#[trigger] kept@[j]).wf(),
                    decreases self.bullets@.len() - i,
                {
                    let b = self.bullets[i];
                    proof {
                        assert(self.bullets@[i as int].wf());
                        assert(self.bullets@.take(i + 1).drop_last() =~= self.bullets@.take(
                            i as int,
                        ));
                    }
                    if overlap(b.x, b.y, e.x, e.y, e.size) {
                        if b.bullet_type == Method::Get {
                            if !self.enemy_weakness_revealed {
                                self.enemy_weakness_revealed = true;
                                let mut text = String::from_str("Target weakness: ");
                                text.append(e.weakness.label());
                                self.ui_message = text;
                                self.ui_message_timer = REVEAL_TIME;
                            }
                        } else {
                            e.hp = e.hp - b.damage;
                            self.score = self.score + b.damage;
                            if e.weakness == b.bullet_type {
                                self.ui_message = String::from_str("CRITICAL HIT!");
                                self.ui_message_timer = CRITICAL_TIME;
                            }
                        }
                    } else {
                        kept.push(b);
                    }
                    i = i + 1;
                }
                proof {
                    assert(self.bullets@.take(i as int) =~= self.bullets@);
                }
                self.bullets = kept;
                self.enemy = Some(e);
            },
            None => {},
        }
        let ghost mid = *self;
        let mut falling: Vec<EnemyBullet> = Vec::new();
        let mut k: usize = 0;
        while k < self.enemy_bullets.len()
            invariant
                pre.wf(),
                pre.player.hp - 100 * pre.enemy_bullets@.len() >= i32::MIN,
                mid.enemy_bullets == pre.enemy_bullets,
                mid.player == pre.player,
                *self == (GameState {
                    player: self.player,
                    ui_message: self.ui_message,
                    ui_message_timer: self.ui_message_timer,
                    ..mid
                }),
                self.player == (Player { hp: self.player.hp, ..pre.player }),
                0 <= k <= self.enemy_bullets@.len(),
                barrage(
                    self.enemy_bullets@.take(k as int),
                    pre.player,
                    Tally {
                        hp: pre.player.hp as int,
                        message: mid.ui_message@,
                        message_timer: mid.ui_message_timer as int,
                        ..first_pass(pre)
                    },
                ) == (Tally {
                    hp: self.player.hp as int,
                    message: self.ui_message@,
                    message_timer: self.ui_message_timer as int,
                    ..first_pass(pre)
                }),
                self.player.hp >= pre.player.hp - 100 * k,
                in_coords(self.ui_message_timer as int),
                falling@ == dodged(self.enemy_bullets@.take(k as int), pre.player),
                forall|j: int| 0 <= j < falling@.len() ==> (#[trigger] falling@[j]).wf(),
            decreases self.enemy_bullets@.len() - k,
        {
            let b = self.enemy_bullets[k].duplicate();
            proof {
                assert(self.enemy_bullets@[k as int].wf());
                assert(self.enemy_bullets@.take(k + 1).drop_last() =~= self.enemy_bullets@.take(
                    k as int,
                ));
            }
            if overlap(b.x, b.y, self.player.x, self.player.y, self.player.size) {
                self.player.hp = self.player.hp - b.damage;
                let mut text = String::from_str("Hit by ");
                text.append(b.attack_name.as_str());
                text.append("!");
                self.ui_message = text;
                self.ui_message_timer = WOUND_TIME;
            } else {
                falling.push(b);
            }
            k = k + 1;
        }
        proof {
            assert(self.enemy_bullets@.take(k as int) =~= self.enemy_bullets@);
        }
        self.enemy_bullets = falling;
    }

    /// Checks the end of the tick: a defeated enemy gives way to the victory
    /// screen, a defeated player ends the game.
    pub fn settle(&mut self)
        requires
            old(self).wf(),
            old(self).score + KILL_BONUS <= i32::MAX,
            old(self).enemies_defeated < i32::MAX,
        ensures
            settled(*old(self), *final(self)),
            final(self).wf(),
    {
        let win = match &self.enemy {
            Some(e) => e.hp <= 0,
            None => false,
        };
        if win {
            self.score = self.score + KILL_BONUS;
            self.enemies_defeated = self.enemies_defeated + 1;
            self.enemy = None;
            self.victory_screen = true;
            self.enemy_bullets.clear();
        }
        if self.player.hp <= 0 {
            self.game_over = true;
        }
    }

    /// Leaves the victory screen to face `e`, with its weakness unknown.
    pub fn acquire(&mut self, e: Enemy)
        requires
            old(self).wf(),
            e.wf(),
        ensures
            acquired(*old(self), *final(self), e),
            final(self).wf(),
    {
        self.enemy = Some(e);
        self.victory_screen = false;
        self.enemy_weakness_revealed = false;
        self.enemy_attack_timer = 0;
        self.ui_message = String::from_str("New target acquired!");
        self.ui_message_timer = 2000;
    }

    fn pull_trigger(&mut self, m: Method, pressed: bool)
        requires
            old(self).wf(),
        ensures
            triggered(*old(self), *final(self), m, pressed),
            final(self).wf(),
    {
        let loaded = match m {
            Method::Get => self.player.get_ammo > 0,
            Method::Post => self.player.post_ammo > 0,
            Method::Put => self.player.put_ammo > 0,
            Method::Delete => self.player.delete_ammo > 0,
        };
        if pressed && self.enemy.is_some() && loaded {
            self.fire_bullet(m);
        }
    }

    /// The enemy's turn: it patrols with the outcomes of `roll`, and attacks
    /// with entry `roll.attack` once its attack timer passes the threshold.
    pub fn patrol(&mut self, dt: i64, roll: Roll)
        requires
            old(self).wf(),
            0 <= dt <= MAX_DT,
            roll_in_range(roll),
        ensures
            patrolled(*old(self), *final(self), dt as int, roll),
            final(self).wf(),
    {
        let mut slot: Option<Enemy> = None;
        std::mem::swap(&mut self.enemy, &mut slot);
        match slot {
            Some(mut e) => {
                e.step(dt, roll.turn, roll.lift, roll.jitter);
                self.enemy = Some(e);
                let t = self.enemy_attack_timer + dt;
                if t > RETIME {
                    self.enemy_attack_timer = 0;
                    self.launch_attack(roll.attack);
                } else {
                    self.enemy_attack_timer = t;
                }
            },
            None => {
                self.enemy = None;
            },
        }
    }

    /// One tick of play with the chance outcomes of `roll`; see [`ticked`].
    pub fn advance(&mut self, dt: i64, input: Input, roll: Roll)
        requires
            old(self).wf(),
            old(self).room(),
            !old(self).game_over,
            !old(self).victory_screen,
            0 <= dt <= MAX_DT,
            roll_in_range(roll),
        ensures
            ticked(*old(self), *final(self), dt as int, input, roll),
            final(self).wf(),
    {
        let ghost pre = *self;
        if self.ui_message_timer > 0 {
            self.ui_message_timer = self.ui_message_timer - dt;
        }
        self.player.steer(dt, input);
        let ghost a = *self;
        assert(a == prepared(pre, dt as int, input));
        self.pull_trigger(Method::Get, input.fire_get);
        let ghost s1 = *self;
        self.pull_trigger(Method::Post, input.fire_post);
        let ghost s2 = *self;
        self.pull_trigger(Method::Put, input.fire_put);
        let ghost s3 = *self;
        self.pull_trigger(Method::Delete, input.fire_delete);
        let ghost b = *self;
        assert(armed(a, b, input));
        self.patrol(dt, roll);
        let ghost c = *self;
        self.move_bullets(dt);
        let ghost d = *self;
        self.check_collisions();
        let ghost f = *self;
        self.settle();
        assert(ticked(pre, *self, dt as int, input, roll));
    }

    /// Advances the world by one frame of `dt` with the player's `input`.
    /// Nothing happens once the game is over; on the victory screen only
    /// `proceed` matters, and brings in a new random enemy; otherwise one
    /// tick of play runs with freshly drawn chance outcomes.
    pub fn update(&mut self, dt: i64, input: Input)
        requires
            old(self).wf(),
            old(self).room(),
            0 <= dt <= MAX_DT,
        ensures
            final(self).wf(),
            old(self).game_over ==> *final(self) == *old(self),
            !old(self).game_over && old(self).victory_screen && !input.proceed ==> *final(self)
                == *old(self),
            !old(self).game_over && old(self).victory_screen && input.proceed ==> exists|e: Enemy|
                e.fresh() && acquired(*old(self), *final(self), e),
            !old(self).game_over && !old(self).victory_screen ==> exists|r: Roll|
                roll_in_range(r) && ticked(*old(self), *final(self), dt as int, input, r),
    {
        if self.game_over {
            return;
        }
        if self.victory_screen {
            if input.proceed {
                let e = Enemy::new();
                self.acquire(e);
            }
            return;
        }
        let roll = Roll {
            turn: draw_ratio(7, 10),
            lift: draw_ratio(3, 10),
            jitter: draw_range(-JITTER, JITTER),
            attack: draw_range(0, ATTACK_COUNT as i64) as usize,
        };
        self.advance(dt, input, roll);
        assert(roll_in_range(roll) && ticked(*old(self), *self, dt as int, input, roll));
    }
}

} // verus!
