//! Properties that relate several operations of the game, proved once for
//! all inputs.
use vstd::math::abs;
use vstd::prelude::*;

use crate::arena::{spec_clamp, ENEMY_BOTTOM, ENEMY_LEFT, ENEMY_RIGHT, ENEMY_TOP, MAX_DT};
use crate::bullet::{damage_for, Bullet, Method};
use crate::combat::{hits, misses, reveal_text, strike, volley, Tally};
use crate::enemy::{stepped, Enemy, JITTER};
use crate::game_state::{settled, shot, GameState, KILL_BONUS};
use crate::player::Player;

verus! {

/// Clamping is idempotent: clamping a clamped value changes nothing.
pub proof fn lemma_clamp_idempotent(v: int, lo: int, hi: int)
    requires
        lo <= hi,
    ensures
        spec_clamp(spec_clamp(v, lo, hi), lo, hi) == spec_clamp(v, lo, hi),
        lo <= spec_clamp(v, lo, hi) <= hi,
{
}

/// Whatever the chance outcomes, a tick of patrol keeps a well-formed enemy
/// inside its horizontal bounds and its vertical band.
pub proof fn lemma_patrol_stays_in_band(
    e: Enemy,
    dt: int,
    turn: bool,
    lift: bool,
    jitter: int,
)
    requires
        e.wf(),
        0 <= dt <= MAX_DT,
        -JITTER <= jitter <= JITTER,
    ensures
        stepped(e, dt, turn, lift, jitter).wf(),
        ENEMY_LEFT <= stepped(e, dt, turn, lift, jitter).x <= ENEMY_RIGHT,
        ENEMY_TOP <= stepped(e, dt, turn, lift, jitter).y <= ENEMY_BOTTOM,
{
}

/// A shot fired at enemy `e` that hits it takes exactly its table damage
/// from the enemy and adds it to the score: POST 40 on a POST weakness and
/// 20 otherwise, PUT 45 on a PUT weakness and 25 otherwise, DELETE always
/// 100, GET nothing.
pub proof fn lemma_shot_damage(p: Player, e: Enemy, m: Method, t: Tally)
    requires
        hits(shot(p, e, m), e),
    ensures
        damage_for(m, e.weakness) == match m {
            Method::Get => 0i32,
            Method::Post => if e.weakness == Method::Post { 40i32 } else { 20i32 },
            Method::Put => if e.weakness == Method::Put { 45i32 } else { 25i32 },
            Method::Delete => 100i32,
        },
        strike(t, shot(p, e, m), e).hp == t.hp - damage_for(m, e.weakness),
        strike(t, shot(p, e, m), e).score == t.score + damage_for(m, e.weakness),
{
}

/// A GET hit deals no damage; the first one reveals the weakness and shows
/// it, any later one changes nothing.
pub proof fn lemma_get_reveals_once(t: Tally, b: Bullet, e: Enemy)
    requires
        hits(b, e),
        b.bullet_type == Method::Get,
    ensures
        strike(t, b, e).hp == t.hp,
        strike(t, b, e).score == t.score,
        strike(t, b, e).revealed,
        !t.revealed ==> strike(t, b, e).message == reveal_text(e.weakness),
        t.revealed ==> strike(t, b, e) == t,
{
}

/// A single shot collides with the enemy exactly when it is closer than the
/// enemy's size on both axes; then it is consumed and takes effect once,
/// otherwise it stays and has no effect.
pub proof fn lemma_single_shot(b: Bullet, e: Enemy, t: Tally)
    ensures
        hits(b, e) <==> (abs(b.x - e.x) < e.size && abs(b.y - e.y) < e.size),
        misses(seq![b], e) == if hits(b, e) {
            Seq::<Bullet>::empty()
        } else {
            seq![b]
        },
        volley(seq![b], e, t) == strike(t, b, e),
        !hits(b, e) ==> volley(seq![b], e, t) == t,
        hits(b, e) && b.bullet_type != Method::Get ==> volley(seq![b], e, t).hp == t.hp - b.damage,
{
    let s = seq![b];
    assert(s.drop_last() =~= Seq::<Bullet>::empty());
    assert(s.last() == b);
    assert(misses(Seq::<Bullet>::empty(), e) == Seq::<Bullet>::empty());
    assert(volley(Seq::<Bullet>::empty(), e, t) == t);
    assert(Seq::<Bullet>::empty().push(b) =~= s);
}

/// Defeating the enemy scores the kill bonus, counts the kill, empties the
/// enemy slot, clears every attack in flight and shows the victory screen.
pub proof fn lemma_victory(pre: GameState, post: GameState)
    requires
        settled(pre, post),
        pre.enemy matches Some(e) && e.hp <= 0,
    ensures
        post.score == pre.score + KILL_BONUS,
        post.enemies_defeated == pre.enemies_defeated + 1,
        post.enemy is None,
        post.enemy_bullets@.len() == 0,
        post.victory_screen,
{
}

/// A player at `hp <= 0` at the end of a tick ends the game.
pub proof fn lemma_defeat(pre: GameState, post: GameState)
    requires
        settled(pre, post),
        pre.player.hp <= 0,
    ensures
        post.game_over,
{
}

} // verus!
