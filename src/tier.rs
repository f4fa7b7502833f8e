use vstd::prelude::*;

verus! {

/// The four enemy classes; the class decides the sprite and the damage dealt.
#[derive(Clone, Copy, Debug, PartialEq, Eq, Structural)]
pub enum Tier {
    Basic,
    Armored,
    Fast,
    Heavy,
}

/// The class of the enemy with spawn index `n`.
pub open spec fn tier_of(n: int) -> Tier {
    if n % 15 == 0 {
        Tier::Heavy
    } else if n % 5 == 0 {
        Tier::Fast
    } else if n % 3 == 0 {
        Tier::Armored
    } else {
        Tier::Basic
    }
}

/// Hit points taken from the player by one collision with an enemy of class `t`.
pub open spec fn damage_of(t: Tier) -> int {
    match t {
        Tier::Heavy => 5,
        Tier::Fast => 4,
        Tier::Armored => 6,
        Tier::Basic => 2,
    }
}

/// Hit points left after taking `d` damage, floored at zero.
pub open spec fn after_damage(hp: int, d: int) -> int {
    if hp > d { hp - d } else { 0 }
}

/// Selects the class of the enemy with spawn index `n`.
pub fn tier(n: u32) -> (r: Tier)
    ensures
        r == tier_of(n as int),
        r == Tier::Heavy <==> n % 15 == 0,
        r == Tier::Fast <==> (n % 15 != 0 && n % 5 == 0),
        r == Tier::Armored <==> (n % 15 != 0 && n % 5 != 0 && n % 3 == 0),
        r == Tier::Basic <==> (n % 15 != 0 && n % 5 != 0 && n % 3 != 0),
{
    if n % 15 == 0 {
        Tier::Heavy
    } else if n % 5 == 0 {
        Tier::Fast
    } else if n % 3 == 0 {
        Tier::Armored
    } else {
        Tier::Basic
    }
}

/// The damage table: how many hit points a collision with class `t` costs.
pub fn damage(t: Tier) -> (r: u32)
    ensures
        r as int == damage_of(t),
{
    match t {
        Tier::Heavy => 5,
        Tier::Fast => 4,
        Tier::Armored => 6,
        Tier::Basic => 2,
    }
}

/// Applies `d` damage to `hp` without going below zero.
pub fn apply_damage(hp: u32, d: u32) -> (r: u32)
    ensures
        r as int == after_damage(hp as int, d as int),
        r <= hp,
{
    if hp > d {
        hp - d
    } else {
        0
    }
}

} // verus!
