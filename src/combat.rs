use vstd::prelude::*;

use crate::arena::{overlaps, ARENA_HEIGHT};
use crate::bullet::{method_name, Bullet, EnemyBullet, Method};
use crate::enemy::Enemy;
use crate::player::Player;

verus! {

/// What collision resolution accumulates while it walks a bullet list: the
/// struck actor's hp, the score, whether the weakness is known, and the
/// message on display with its remaining time.
pub struct Tally {
    pub hp: int,
    pub score: int,
    pub revealed: bool,
    pub message: Seq<char>,
    pub message_timer: int,
}

/// Display time of the message that reveals a weakness.
pub const REVEAL_TIME: i64 = 3000;

/// Display time of the message for a hit on the weakness.
pub const CRITICAL_TIME: i64 = 1000;

/// Display time of the message for a hit on the player.
pub const WOUND_TIME: i64 = 1500;

pub open spec fn reveal_text(w: Method) -> Seq<char> {
    "Target weakness: "@ + method_name(w)
}

pub open spec fn critical_text() -> Seq<char> {
    "CRITICAL HIT!"@
}

pub open spec fn wound_text(attack: Seq<char>) -> Seq<char> {
    "Hit by "@ + attack + "!"@
}

/// Whether the player's shot `b` hits the enemy `e`.
pub open spec fn hits(b: Bullet, e: Enemy) -> bool {
    overlaps(b.x as int, b.y as int, e.x as int, e.y as int, e.size as int)
}

/// Whether the enemy's attack `b` hits the player `p`.
pub open spec fn wounds(b: EnemyBullet, p: Player) -> bool {
    overlaps(b.x as int, b.y as int, p.x as int, p.y as int, p.size as int)
}

/// The effect of the player's shot `b` on enemy `e`. A GET hit reveals the
/// weakness the first time only; any other hit deals its damage, scores it,
/// and announces a hit on the weakness.
pub open spec fn strike(t: Tally, b: Bullet, e: Enemy) -> Tally {
    if !hits(b, e) {
        t
    } else if b.bullet_type == Method::Get {
        if t.revealed {
            t
        } else {
            Tally {
                revealed: true,
                message: reveal_text(e.weakness),
                message_timer: REVEAL_TIME as int,
                ..t
            }
        }
    } else {
        let d = Tally { hp: t.hp - b.damage, score: t.score + b.damage, ..t };
        if e.weakness == b.bullet_type {
            Tally { message: critical_text(), message_timer: CRITICAL_TIME as int, ..d }
        } else {
            d
        }
    }
}

/// The effect of the shots `s`, in order, on enemy `e`.
pub open spec fn volley(s: Seq<Bullet>, e: Enemy, t: Tally) -> Tally
    decreases s.len(),
{
    if s.len() == 0 {
        t
    } else {
        strike(volley(s.drop_last(), e, t), s.last(), e)
    }
}

/// The shots of `s` that miss `e`, in order.
pub open spec fn misses(s: Seq<Bullet>, e: Enemy) -> Seq<Bullet>
    decreases s.len(),
{
    if s.len() == 0 {
        s
    } else {
        let r = misses(s.drop_last(), e);
        if hits(s.last(), e) { r } else { r.push(s.last()) }
    }
}

/// The effect of the enemy's attack `b` on player `p`.
pub open spec fn wound(t: Tally, b: EnemyBullet, p: Player) -> Tally {
    if wounds(b, p) {
        Tally {
            hp: t.hp - b.damage,
            message: wound_text(b.attack_name@),
            message_timer: WOUND_TIME as int,
            ..t
        }
    } else {
        t
    }
}

/// The effect of the attacks `s`, in order, on player `p`.
pub open spec fn barrage(s: Seq<EnemyBullet>, p: Player, t: Tally) -> Tally
    decreases s.len(),
{
    if s.len() == 0 {
        t
    } else {
        wound(barrage(s.drop_last(), p, t), s.last(), p)
    }
}

/// The attacks of `s` that miss `p`, in order.
pub open spec fn dodged(s: Seq<EnemyBullet>, p: Player) -> Seq<EnemyBullet>
    decreases s.len(),
{
    if s.len() == 0 {
        s
    } else {
        let r = dodged(s.drop_last(), p);
        if wounds(s.last(), p) { r } else { r.push(s.last()) }
    }
}

/// The shots of `s` after rising for `dt`, without those that left the top.
pub open spec fn rose(s: Seq<Bullet>, dt: int) -> Seq<Bullet>
    decreases s.len(),
{
    if s.len() == 0 {
        s
    } else {
        let r = rose(s.drop_last(), dt);
        let b = s.last();
        let y = b.y - b.speed * dt;
        if y > 0 { r.push(Bullet { y: y as i64, ..b }) } else { r }
    }
}

/// The attacks of `s` after falling for `dt`, without those that left the
/// bottom.
pub open spec fn fell(s: Seq<EnemyBullet>, dt: int) -> Seq<EnemyBullet>
    decreases s.len(),
{
    if s.len() == 0 {
        s
    } else {
        let r = fell(s.drop_last(), dt);
        let b = s.last();
        let y = b.y + b.speed * dt;
        if y < ARENA_HEIGHT { r.push(EnemyBullet { y: y as i64, ..b }) } else { r }
    }
}

} // verus!
