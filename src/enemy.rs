use vstd::prelude::*;

use crate::arena::{
    clamp_i64, in_coords, lemma_travel, spec_clamp, ENEMY_BOTTOM, ENEMY_LEFT, ENEMY_RIGHT,
    ENEMY_TOP, MAX_DT, SIZE_LIMIT, SPEED_LIMIT,
};
use crate::bullet::Method;
use crate::chance::{draw_range, draw_ratio};

verus! {

/// Time after which a patrolling enemy may change course.
pub const RETIME: i64 = 1500;

/// Largest vertical shift of a course change, exclusive.
pub const JITTER: i64 = 30_000;

/// Hitbox half-extent of every enemy.
pub const ENEMY_SIZE: i64 = 35_000;

/// Number of enemy kinds.
pub const KIND_COUNT: usize = 4;

/// The single opponent.
#[derive(Clone, Debug)]
pub struct Enemy {
    pub x: i64,
    pub y: i64,
    /// Hitbox half-extent.
    pub size: i64,
    /// `"{Kind}-{id}"`, the id having three digits.
    pub name: String,
    pub hp: i32,
    pub max_hp: i32,
    pub weakness: Method,
    /// Arena units per second.
    pub speed: i64,
    /// Facing: `1` to the right, `-1` to the left.
    pub direction: i64,
    /// Time since the last course change.
    pub move_timer: i64,
}

pub open spec fn kind_name(k: int) -> Seq<char> {
    if k == 0 {
        "User"@
    } else if k == 1 {
        "Order"@
    } else if k == 2 {
        "Product"@
    } else {
        "Payment"@
    }
}

pub open spec fn digit_char(d: int) -> char {
    if d == 0 {
        '0'
    } else if d == 1 {
        '1'
    } else if d == 2 {
        '2'
    } else if d == 3 {
        '3'
    } else if d == 4 {
        '4'
    } else if d == 5 {
        '5'
    } else if d == 6 {
        '6'
    } else if d == 7 {
        '7'
    } else if d == 8 {
        '8'
    } else {
        '9'
    }
}

/// The three decimal digits of `n`, for `100 <= n <= 999`.
pub open spec fn three_digits(n: int) -> Seq<char> {
    seq![digit_char(n / 100), digit_char((n / 10) % 10), digit_char(n % 10)]
}

/// The display name of an enemy of kind `k` with id `id`.
pub open spec fn enemy_name(k: int, id: int) -> Seq<char> {
    kind_name(k) + "-"@ + three_digits(id)
}

/// The weakness that index `i` of the weakness table stands for.
pub open spec fn weakness_at(i: int) -> Method {
    if i == 0 {
        Method::Get
    } else if i == 1 {
        Method::Post
    } else {
        Method::Put
    }
}

/// One tick of patrol: the retimer may reverse the facing (`turn`) and shift
/// the enemy vertically by `jitter` (`lift`); then the enemy advances and
/// bounces off the sides of its patrol band.
pub open spec fn stepped(e: Enemy, dt: int, turn: bool, lift: bool, jitter: int) -> Enemy {
    let t = e.move_timer + dt;
    let retime = t > RETIME;
    let d1 = if retime && turn { -e.direction } else { e.direction as int };
    let y1 = if retime && lift {
        spec_clamp(e.y + jitter, ENEMY_TOP as int, ENEMY_BOTTOM as int)
    } else {
        e.y as int
    };
    let t1 = if retime { 0 } else { t };
    let x1 = e.x + d1 * e.speed * dt;
    let out = x1 < ENEMY_LEFT || x1 > ENEMY_RIGHT;
    let d2 = if out { -d1 } else { d1 };
    let x2 = if out { spec_clamp(x1, ENEMY_LEFT as int, ENEMY_RIGHT as int) } else { x1 };
    Enemy { x: x2 as i64, y: y1 as i64, direction: d2 as i64, move_timer: t1 as i64, ..e }
}

fn kind_label(k: usize) -> (r: &'static str)
    requires
        k < KIND_COUNT,
    ensures
        r@ == kind_name(k as int),
{
    if k == 0 {
        "User"
    } else if k == 1 {
        "Order"
    } else if k == 2 {
        "Product"
    } else {
        "Payment"
    }
}

fn digit_label(d: u32) -> (r: &'static str)
    requires
        d < 10,
    ensures
        r@ == seq![digit_char(d as int)],
{
    proof {
        reveal_strlit("0");
        reveal_strlit("1");
        reveal_strlit("2");
        reveal_strlit("3");
        reveal_strlit("4");
        reveal_strlit("5");
        reveal_strlit("6");
        reveal_strlit("7");
        reveal_strlit("8");
        reveal_strlit("9");
    }
    let r = if d == 0 {
        "0"
    } else if d == 1 {
        "1"
    } else if d == 2 {
        "2"
    } else if d == 3 {
        "3"
    } else if d == 4 {
        "4"
    } else if d == 5 {
        "5"
    } else if d == 6 {
        "6"
    } else if d == 7 {
        "7"
    } else if d == 8 {
        "8"
    } else {
        "9"
    };
    assert(r@ =~= seq![digit_char(d as int)]);
    r
}

/// Builds the display name of an enemy of kind `k` with id `id`.
pub fn make_name(k: usize, id: u32) -> (r: String)
    requires
        k < KIND_COUNT,
        100 <= id <= 999,
    ensures
        r@ == enemy_name(k as int, id as int),
{
    let mut s = String::from_str(kind_label(k));
    s.append("-");
    s.append(digit_label(id / 100));
    s.append(digit_label((id / 10) % 10));
    s.append(digit_label(id % 10));
    assert(s@ =~= enemy_name(k as int, id as int));
    s
}

impl Enemy {
    /// Hitbox, speed, facing and retimer are within their bounds, and the
    /// position is anywhere arithmetic on it cannot overflow.
    pub open spec fn movable(&self) -> bool {
        &&& in_coords(self.x as int)
        &&& in_coords(self.y as int)
        &&& 0 <= self.size <= SIZE_LIMIT
        &&& 0 <= self.speed <= SPEED_LIMIT
        &&& (self.direction == 1 || self.direction == -1)
        &&& 0 <= self.move_timer <= RETIME
    }

    /// Position, hitbox, speed, facing and retimer stay within their bounds.
    pub open spec fn wf(&self) -> bool {
        &&& ENEMY_LEFT <= self.x <= ENEMY_RIGHT
        &&& ENEMY_TOP <= self.y <= ENEMY_BOTTOM
        &&& 0 <= self.size <= SIZE_LIMIT
        &&& 0 <= self.speed <= SPEED_LIMIT
        &&& (self.direction == 1 || self.direction == -1)
        &&& 0 <= self.move_timer <= RETIME
    }

    /// What holds of every enemy as it enters the arena.
    pub open spec fn fresh(&self) -> bool {
        &&& self.wf()
        &&& 80 <= self.hp < 120
        &&& self.hp == self.max_hp
        &&& self.weakness != Method::Delete
        &&& self.size == ENEMY_SIZE
        &&& 120 <= self.speed < 200
        &&& self.move_timer == 0
        &&& exists|k: int, id: int|
            0 <= k < KIND_COUNT && 100 <= id <= 999 && self.name@ == enemy_name(k, id)
    }

    /// An enemy of kind `kind` with id `id`, `hp` hit points, the weakness at
    /// index `weakness` of (GET, POST, PUT), at `(x, y)`, moving at `speed`
    /// and facing right or left.
    pub fn spawn(
        kind: usize,
        id: u32,
        hp: i32,
        weakness: usize,
        x: i64,
        y: i64,
        speed: i64,
        facing_right: bool,
    ) -> (e: Enemy)
        requires
            kind < KIND_COUNT,
            100 <= id <= 999,
            weakness < 3,
        ensures
            e.name@ == enemy_name(kind as int, id as int),
            e.hp == hp,
            e.max_hp == hp,
            e.weakness == weakness_at(weakness as int),
            e.x == x,
            e.y == y,
            e.size == ENEMY_SIZE,
            e.speed == speed,
            e.direction == (if facing_right { 1i64 } else { -1i64 }),
            e.move_timer == 0,
    {
        let w = if weakness == 0 {
            Method::Get
        } else if weakness == 1 {
            Method::Post
        } else {
            Method::Put
        };
        Enemy {
            x,
            y,
            size: ENEMY_SIZE,
            name: make_name(kind, id),
            hp,
            max_hp: hp,
            weakness: w,
            speed,
            direction: if facing_right { 1 } else { -1 },
            move_timer: 0,
        }
    }

    /// A random enemy: kind, id in `[100, 999]`, hp in `[80, 120)`, weakness
    /// among GET, POST and PUT, speed in `[120, 200)`, facing and position in
    /// the patrol band, all drawn uniformly.
    pub fn new() -> (e: Enemy)
        ensures
            e.fresh(),
    {
        let kind = draw_range(0, KIND_COUNT as i64) as usize;
        let id = draw_range(100, 1000) as u32;
        let hp = draw_range(80, 120) as i32;
        let weakness = draw_range(0, 3) as usize;
        let x = draw_range(ENEMY_LEFT, ENEMY_RIGHT);
        let y = draw_range(ENEMY_TOP, ENEMY_BOTTOM);
        let speed = draw_range(120, 200);
        let facing_right = draw_ratio(1, 2);
        let e = Enemy::spawn(kind, id, hp, weakness, x, y, speed, facing_right);
        assert(e.name@ == enemy_name(kind as int, id as int));
        e
    }

    /// Advances the patrol by `dt` with the given chance outcomes; see
    /// [`stepped`]. An enemy outside its horizontal bounds is brought back.
    pub fn step(&mut self, dt: i64, turn: bool, lift: bool, jitter: i64)
        requires
            old(self).movable(),
            0 <= dt <= MAX_DT,
            -JITTER <= jitter <= JITTER,
        ensures
            *final(self) == stepped(*old(self), dt as int, turn, lift, jitter as int),
            final(self).movable(),
            ENEMY_LEFT <= final(self).x <= ENEMY_RIGHT,
            old(self).wf() ==> final(self).wf(),
    {
        let t = self.move_timer + dt;
        if t > RETIME {
            if turn {
                self.direction = -self.direction;
            }
            if lift {
                self.y = clamp_i64(self.y + jitter, ENEMY_TOP, ENEMY_BOTTOM);
            }
            self.move_timer = 0;
        } else {
            self.move_timer = t;
        }
        proof {
            lemma_travel(self.speed as int, dt as int);
            let d = self.direction as int;
            assert(d * self.speed * dt == if d == 1 { self.speed * dt } else { -(self.speed * dt) })
                by (nonlinear_arith)
                requires
                    d == 1 || d == -1,
            ;
        }
        let travel = self.speed * dt;
        let x1 = if self.direction == 1 { self.x + travel } else { self.x - travel };
        if x1 < ENEMY_LEFT || x1 > ENEMY_RIGHT {
            self.direction = -self.direction;
            self.x = clamp_i64(x1, ENEMY_LEFT, ENEMY_RIGHT);
        } else {
            self.x = x1;
        }
    }

    /// Advances the patrol by `dt`. When the retimer runs out the enemy
    /// reverses with probability 7/10 and, independently with probability
    /// 3/10, shifts vertically by a uniform amount in `[-30, 30)` units.
    pub fn update(&mut self, dt: i64)
        requires
            old(self).movable(),
            0 <= dt <= MAX_DT,
        ensures
            final(self).movable(),
            ENEMY_LEFT <= final(self).x <= ENEMY_RIGHT,
            old(self).wf() ==> final(self).wf(),
            exists|turn: bool, lift: bool, jitter: int|
                -JITTER <= jitter < JITTER
                && *final(self) == stepped(*old(self), dt as int, turn, lift, jitter),
    {
        let turn = draw_ratio(7, 10);
        let lift = draw_ratio(3, 10);
        let jitter = draw_range(-JITTER, JITTER);
        self.step(dt, turn, lift, jitter);
    }
}

} // verus!
