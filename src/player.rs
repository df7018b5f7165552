use vstd::prelude::*;

use crate::arena::{
    lemma_travel, max_i64, min_i64, spec_max, spec_min, Input, ARENA_HEIGHT, ARENA_WIDTH, MAX_DT,
    PLAYER_BOTTOM, PLAYER_TOP, SIZE_LIMIT, SPEED_LIMIT,
};

verus! {

/// The player's ship.
#[derive(Clone, Copy, Debug, PartialEq, Eq, Structural)]
pub struct Player {
    pub x: i64,
    pub y: i64,
    /// Hitbox half-extent.
    pub size: i64,
    /// Arena units per second.
    pub speed: i64,
    pub get_ammo: i32,
    pub post_ammo: i32,
    pub put_ammo: i32,
    pub delete_ammo: i32,
    pub hp: i32,
    pub max_hp: i32,
}

/// Horizontal position after one tick of held movement input.
pub open spec fn steered_x(p: Player, dt: int, input: Input) -> int {
    let a = if input.left { spec_max(p.x - p.speed * dt, p.size as int) } else { p.x as int };
    if input.right { spec_min(a + p.speed * dt, ARENA_WIDTH - p.size) } else { a }
}

/// Vertical position after one tick of held movement input.
pub open spec fn steered_y(p: Player, dt: int, input: Input) -> int {
    let a = if input.up { spec_max(p.y - p.speed * dt, PLAYER_TOP as int) } else { p.y as int };
    if input.down { spec_min(a + p.speed * dt, PLAYER_BOTTOM as int) } else { a }
}

impl Player {
    /// The ship every game starts with.
    pub open spec fn new_spec() -> Player {
        Player {
            x: 400_000,
            y: 500_000,
            size: 30_000,
            speed: 300,
            get_ammo: 99,
            post_ammo: 20,
            put_ammo: 20,
            delete_ammo: 3,
            hp: 100,
            max_hp: 100,
        }
    }

    /// The ship is inside the arena, with a bounded hitbox and speed.
    pub open spec fn wf(&self) -> bool {
        &&& 0 <= self.x <= ARENA_WIDTH
        &&& 0 <= self.y <= ARENA_HEIGHT
        &&& 0 <= self.size <= SIZE_LIMIT
        &&& 0 <= self.speed <= SPEED_LIMIT
    }

    /// A fresh ship, centred near the bottom of the arena with full ammo and hp.
    pub fn new() -> (p: Player)
        ensures
            p.wf(),
            p == Player::new_spec(),
    {
        Player {
            x: 400_000,
            y: 500_000,
            size: 30_000,
            speed: 300,
            get_ammo: 99,
            post_ammo: 20,
            put_ammo: 20,
            delete_ammo: 3,
            hp: 100,
            max_hp: 100,
        }
    }

    /// Applies one tick of held movement input, clamping the ship to its
    /// horizontal bounds `[size, width - size]` and its vertical band.
    pub fn steer(&mut self, dt: i64, input: Input)
        requires
            old(self).wf(),
            0 <= dt <= MAX_DT,
        ensures
            final(self).wf(),
            final(self).x == steered_x(*old(self), dt as int, input),
            final(self).y == steered_y(*old(self), dt as int, input),
            *final(self) == (Player { x: final(self).x, y: final(self).y, ..*old(self) }),
    {
        proof {
            lemma_travel(self.speed as int, dt as int);
        }
        let step = self.speed * dt;
        if input.left {
            self.x = max_i64(self.x - step, self.size);
        }
        if input.right {
            self.x = min_i64(self.x + step, ARENA_WIDTH - self.size);
        }
        if input.up {
            self.y = max_i64(self.y - step, PLAYER_TOP);
        }
        if input.down {
            self.y = min_i64(self.y + step, PLAYER_BOTTOM);
        }
    }
}

} // verus!
