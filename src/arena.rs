use vstd::prelude::*;

verus! {

/// Thousandths of an arena unit per arena unit.
pub const SCALE: i64 = 1000;

/// Width of the arena.
pub const ARENA_WIDTH: i64 = 800_000;

/// Height of the arena.
pub const ARENA_HEIGHT: i64 = 600_000;

/// Bounds of the player's vertical movement.
pub const PLAYER_TOP: i64 = 250_000;
pub const PLAYER_BOTTOM: i64 = 550_000;

/// Bounds of the enemy's patrol.
pub const ENEMY_LEFT: i64 = 80_000;
pub const ENEMY_RIGHT: i64 = 720_000;
pub const ENEMY_TOP: i64 = 140_000;
pub const ENEMY_BOTTOM: i64 = 260_000;

/// Largest coordinate magnitude a well-formed actor may hold.
pub const COORD_LIMIT: i64 = 1_000_000_000;

/// Largest hitbox radius a well-formed actor may have.
pub const SIZE_LIMIT: i64 = 100_000;

/// Largest speed a well-formed actor may have.
pub const SPEED_LIMIT: i64 = 10_000;

/// Longest frame that one tick may advance.
pub const MAX_DT: i64 = 100_000;

/// Largest damage a single projectile may carry.
pub const DAMAGE_LIMIT: i32 = 100;

pub open spec fn in_coords(v: int) -> bool {
    -COORD_LIMIT <= v <= COORD_LIMIT
}

pub open spec fn spec_max(a: int, b: int) -> int {
    if a >= b { a } else { b }
}

pub open spec fn spec_min(a: int, b: int) -> int {
    if a <= b { a } else { b }
}

pub open spec fn spec_clamp(v: int, lo: int, hi: int) -> int {
    if v < lo { lo } else if v > hi { hi } else { v }
}

/// Two actors collide when their centres are closer than `size` on both axes.
pub open spec fn overlaps(ax: int, ay: int, bx: int, by: int, size: int) -> bool {
    -size < ax - bx < size && -size < ay - by < size
}

pub fn max_i64(a: i64, b: i64) -> (r: i64)
    ensures
        r == spec_max(a as int, b as int),
{
    if a >= b { a } else { b }
}

pub fn min_i64(a: i64, b: i64) -> (r: i64)
    ensures
        r == spec_min(a as int, b as int),
{
    if a <= b { a } else { b }
}

pub fn clamp_i64(v: i64, lo: i64, hi: i64) -> (r: i64)
    requires
        lo <= hi,
    ensures
        r == spec_clamp(v as int, lo as int, hi as int),
        lo <= r <= hi,
{
    if v < lo { lo } else if v > hi { hi } else { v }
}

/// Whether two actors, `size` apart at most on each axis, collide.
pub fn overlap(ax: i64, ay: i64, bx: i64, by: i64, size: i64) -> (r: bool)
    requires
        in_coords(ax as int),
        in_coords(ay as int),
        in_coords(bx as int),
        in_coords(by as int),
        0 <= size <= SIZE_LIMIT,
    ensures
        r == overlaps(ax as int, ay as int, bx as int, by as int, size as int),
{
    let dx = ax - bx;
    let dy = ay - by;
    -size < dx && dx < size && -size < dy && dy < size
}

/// Distance covered at `speed` over `dt`, with its bounds.
pub proof fn lemma_travel(speed: int, dt: int)
    requires
        0 <= speed <= SPEED_LIMIT,
        0 <= dt <= MAX_DT,
    ensures
        0 <= speed * dt <= SPEED_LIMIT * MAX_DT,
{
    assert(0 <= speed * dt <= SPEED_LIMIT * MAX_DT) by (nonlinear_arith)
        requires
            0 <= speed <= SPEED_LIMIT,
            0 <= dt <= MAX_DT,
    ;
}

/// What the player holds or presses during one tick.
#[derive(Clone, Copy, Debug, Default, PartialEq, Eq)]
pub struct Input {
    pub left: bool,
    pub right: bool,
    pub up: bool,
    pub down: bool,
    pub fire_get: bool,
    pub fire_post: bool,
    pub fire_put: bool,
    pub fire_delete: bool,
    /// Leave the victory screen and face a new enemy.
    pub proceed: bool,
}

/// The chance outcomes that one tick may consume.
#[derive(Clone, Copy, Debug, Default, PartialEq, Eq)]
pub struct Roll {
    /// Whether a retiming enemy reverses its facing.
    pub turn: bool,
    /// Whether a retiming enemy shifts vertically.
    pub lift: bool,
    /// The vertical shift, in `[-JITTER, JITTER)`.
    pub jitter: i64,
    /// Index of the attack to launch, below the size of the attack table.
    pub attack: usize,
}

} // verus!
