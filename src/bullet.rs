use vstd::prelude::*;

use crate::arena::{in_coords, DAMAGE_LIMIT, SPEED_LIMIT};

verus! {

/// The kind of a player's shot.
#[derive(Clone, Copy, Debug, PartialEq, Eq, Hash, Structural)]
pub enum Method {
    Get,
    Post,
    Put,
    Delete,
}

/// The display color of a projectile.
#[derive(Clone, Copy, Debug, PartialEq, Eq, Structural)]
pub enum Tint {
    Blue,
    Green,
    Yellow,
    Red,
    White,
    Orange,
}

pub open spec fn method_name(m: Method) -> Seq<char> {
    match m {
        Method::Get => "GET"@,
        Method::Post => "POST"@,
        Method::Put => "PUT"@,
        Method::Delete => "DELETE"@,
    }
}

/// Damage a shot of kind `m` deals to an enemy weak to `weakness`. Only
/// POST and PUT gain from a matching weakness; GET is harmless.
pub open spec fn damage_for(m: Method, weakness: Method) -> i32 {
    match m {
        Method::Get => 0,
        Method::Post => if weakness == Method::Post { 40 } else { 20 },
        Method::Put => if weakness == Method::Put { 45 } else { 25 },
        Method::Delete => 100,
    }
}

pub open spec fn tint_for(m: Method) -> Tint {
    match m {
        Method::Get => Tint::Blue,
        Method::Post => Tint::Green,
        Method::Put => Tint::Yellow,
        Method::Delete => Tint::Red,
    }
}

impl Method {
    /// The method's name as written in HTTP.
    pub fn label(&self) -> (r: &'static str)
        ensures
            r@ == method_name(*self),
    {
        match self {
            Method::Get => "GET",
            Method::Post => "POST",
            Method::Put => "PUT",
            Method::Delete => "DELETE",
        }
    }

    /// Damage of a shot of this kind against an enemy weak to `weakness`.
    pub fn damage_against(&self, weakness: Method) -> (r: i32)
        ensures
            r == damage_for(*self, weakness),
    {
        match self {
            Method::Get => 0,
            Method::Post => if weakness == Method::Post { 40 } else { 20 },
            Method::Put => if weakness == Method::Put { 45 } else { 25 },
            Method::Delete => 100,
        }
    }

    /// The color a shot of this kind is drawn in.
    pub fn tint(&self) -> (r: Tint)
        ensures
            r == tint_for(*self),
    {
        match self {
            Method::Get => Tint::Blue,
            Method::Post => Tint::Green,
            Method::Put => Tint::Yellow,
            Method::Delete => Tint::Red,
        }
    }
}

/// A shot fired by the player; it travels up the arena.
#[derive(Clone, Copy, Debug, PartialEq, Eq, Structural)]
pub struct Bullet {
    pub x: i64,
    pub y: i64,
    pub speed: i64,
    pub bullet_type: Method,
    /// Damage fixed when the shot was fired.
    pub damage: i32,
    pub color: Tint,
}

/// An attack fired by the enemy; it travels down the arena.
#[derive(Clone, Debug)]
pub struct EnemyBullet {
    pub x: i64,
    pub y: i64,
    pub speed: i64,
    pub damage: i32,
    /// The attack's description, also shown to the player on a hit.
    pub attack_name: String,
    pub color: Tint,
}

impl Bullet {
    pub open spec fn wf(&self) -> bool {
        &&& in_coords(self.x as int)
        &&& in_coords(self.y as int)
        &&& 0 <= self.speed <= SPEED_LIMIT
        &&& 0 <= self.damage <= DAMAGE_LIMIT
    }
}

impl EnemyBullet {
    pub open spec fn wf(&self) -> bool {
        &&& in_coords(self.x as int)
        &&& in_coords(self.y as int)
        &&& 0 <= self.speed <= SPEED_LIMIT
        &&& 0 <= self.damage <= DAMAGE_LIMIT
    }

    /// A copy of this attack.
    pub fn duplicate(&self) -> (r: EnemyBullet)
        ensures
            r == *self,
    {
        EnemyBullet {
            x: self.x,
            y: self.y,
            speed: self.speed,
            damage: self.damage,
            attack_name: self.attack_name.clone(),
            color: self.color,
        }
    }
}

/// Number of entries in the enemy's attack table.
pub const ATTACK_COUNT: usize = 5;

/// Name of entry `i` of the enemy's attack table.
pub open spec fn attack_name(i: int) -> Seq<char> {
    if i == 0 {
        "400 Bad Request"@
    } else if i == 1 {
        "401 Unauthorized"@
    } else if i == 2 {
        "403 Forbidden"@
    } else if i == 3 {
        "429 Too Many Requests"@
    } else {
        "500 Internal Server Error"@
    }
}

/// Damage of entry `i` of the enemy's attack table: 15, 20, 25, 30, 35.
pub open spec fn attack_damage(i: int) -> i32 {
    (15 + 5 * i) as i32
}

/// Entry `i` of the enemy's attack table: its name and damage.
pub fn attack_entry(i: usize) -> (r: (&'static str, i32))
    requires
        i < ATTACK_COUNT,
    ensures
        r.0@ == attack_name(i as int),
        r.1 == attack_damage(i as int),
{
    if i == 0 {
        ("400 Bad Request", 15)
    } else if i == 1 {
        ("401 Unauthorized", 20)
    } else if i == 2 {
        ("403 Forbidden", 25)
    } else if i == 3 {
        ("429 Too Many Requests", 30)
    } else {
        ("500 Internal Server Error", 35)
    }
}

} // verus!
