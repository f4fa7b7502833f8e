use vstd::prelude::*;
use crate::session::{Enemy, GameState, enemies_ok, has_id, same_state, DESPAWN_X};
use crate::tier::{after_damage, apply_damage, damage, damage_of, tier_of, Tier};

verus! {

/// One party of a collision.
#[derive(Clone, Copy, Debug, PartialEq, Eq, Structural)]
pub enum Collider {
    Player,
    Enemy(u32),
    /// Anything else, such as scenery.
    Other,
}

/// A collision event for the current frame: its start (`begin`) or end, and the pair.
#[derive(Clone, Copy, Debug, PartialEq, Eq, Structural)]
pub struct CollisionEvent {
    pub begin: bool,
    pub first: Collider,
    pub second: Collider,
}

/// What collision resolution acts on: hit points, live enemies, the spawn
/// indices removed so far and the number of impacts on the player.
pub struct Clash {
    pub hp: int,
    pub enemies: Seq<Enemy>,
    pub removed: Seq<u32>,
    pub impacts: int,
}

/// `s` without the enemy whose spawn index is `id`.
pub open spec fn without(s: Seq<Enemy>, id: u32) -> Seq<Enemy>
    decreases s.len(),
{
    if s.len() == 0 {
        Seq::empty()
    } else {
        let rest = without(s.drop_last(), id);
        if s.last().id == id {
            rest
        } else {
            rest.push(s.last())
        }
    }
}

/// The player hits party `c`: a live enemy deals its class's damage and is removed.
pub open spec fn hit(st: Clash, c: Collider) -> Clash {
    match c {
        Collider::Enemy(id) => if has_id(st.enemies, id) {
            Clash {
                hp: after_damage(st.hp, damage_of(tier_of(id as int))),
                enemies: without(st.enemies, id),
                removed: st.removed.push(id),
                impacts: st.impacts,
            }
        } else {
            st
        },
        _ => st,
    }
}

/// Whether the event is the start of an overlap that involves the player.
pub open spec fn player_begins(ev: CollisionEvent) -> bool {
    ev.begin && (ev.first == Collider::Player || ev.second == Collider::Player)
}

/// Resolution of one event.
pub open spec fn resolve(st: Clash, ev: CollisionEvent) -> Clash {
    if player_begins(ev) {
        let h = hit(hit(st, ev.first), ev.second);
        Clash { impacts: h.impacts + 1, ..h }
    } else {
        st
    }
}

/// Resolution of a frame's events, in order.
pub open spec fn resolve_all(st: Clash, evs: Seq<CollisionEvent>) -> Clash
    decreases evs.len(),
{
    if evs.len() == 0 {
        st
    } else {
        resolve(resolve_all(st, evs.drop_last()), evs.last())
    }
}

/// Removing an enemy keeps the enemy invariant and never lengthens the sequence.
pub proof fn lemma_without(s: Seq<Enemy>, n: int, id: u32)
    requires
        enemies_ok(s, n),
    ensures
        enemies_ok(without(s, id), n),
        without(s, id).len() <= s.len(),
    decreases s.len(),
{
    if s.len() > 0 {
        let dl = s.drop_last();
        let last = s.last();
        assert(enemies_ok(dl, last.id - 1)) by {
            assert forall|i: int, j: int| 0 <= i < j < dl.len() implies dl[i].id < dl[j].id by {
                assert(dl[i] == s[i] && dl[j] == s[j]);
            }
            assert forall|i: int| 0 <= i < dl.len() implies 1 <= #[trigger] dl[i].id <= last.id - 1
                && dl[i].tier == tier_of(dl[i].id as int) && dl[i].x >= DESPAWN_X by {
                assert(dl[i] == s[i]);
                assert(s[i].id < s[s.len() - 1].id);
            }
        }
        lemma_without(dl, last.id - 1, id);
        let rest = without(dl, id);
        if last.id != id {
            let p = rest.push(last);
            assert forall|i: int, j: int| 0 <= i < j < p.len() implies p[i].id < p[j].id by {
                if j < rest.len() {
                    assert(p[i] == rest[i] && p[j] == rest[j]);
                } else {
                    assert(p[i] == rest[i]);
                }
            }
            assert forall|i: int| 0 <= i < p.len() implies 1 <= #[trigger] p[i].id <= n && p[i].tier
                == tier_of(p[i].id as int) && p[i].x >= DESPAWN_X by {
                if i < rest.len() {
                    assert(p[i] == rest[i]);
                }
            }
        }
    }
}

impl GameState {
    /// The current resolution state.
    pub open spec fn clash(&self, removed: Seq<u32>, impacts: int) -> Clash {
        Clash { hp: self.hp as int, enemies: self.enemies@, removed, impacts }
    }

    /// The player hits party `c`; the spawn index of a removed enemy is appended to `removed`.
    fn strike(&mut self, c: Collider, removed: &mut Vec<u32>)
        requires
            old(self).wf(),
            !old(self).game_over,
        ensures
            final(self).wf(),
            !final(self).game_over,
            final(self).clash(final(removed)@, 0) == hit(old(self).clash(old(removed)@, 0), c),
            final(self).score == old(self).score,
            final(self).high_score == old(self).high_score,
            final(self).enemy_number == old(self).enemy_number,
            final(self).spawn_timer == old(self).spawn_timer,
    {
        if let Collider::Enemy(id) = c {
            let ghost s = self.enemies@;
            let mut kept: Vec<Enemy> = Vec::new();
            let mut found = false;
            let mut struck = Tier::Basic;
            let mut i: usize = 0;
            while i < self.enemies.len()
                invariant
                    s == self.enemies@,
                    0 <= i <= s.len(),
                    kept@ == without(s.take(i as int), id),
                    enemies_ok(s, self.enemy_number as int),
                    found <==> exists|k: int| 0 <= k < i && s[k].id == id,
                    found ==> struck == tier_of(id as int),
                decreases s.len() - i,
            {
                let e = self.enemies[i];
                proof {
                    assert(s.take(i as int + 1).drop_last() =~= s.take(i as int));
                    assert(s.take(i as int + 1).last() == s[i as int]);
                }
                if e.id == id {
                    found = true;
                    struck = e.tier;
                } else {
                    kept.push(e);
                }
                i += 1;
            }
            proof {
                assert(s.take(s.len() as int) =~= s);
            }
            if found {
                proof {
                    lemma_without(s, self.enemy_number as int, id);
                }
                self.hp = apply_damage(self.hp, damage(struck));
                self.enemies = kept;
                removed.push(id);
            }
        }
    }

    /// Collision resolution for one frame: while the run lasts, each event
    /// that starts an overlap between the player and a live enemy applies that
    /// enemy's damage (floored at zero) and removes it; an enemy already gone
    /// does no damage. The score is left alone.
    pub fn collision_logic(&mut self, events: &Vec<CollisionEvent>) -> (r: CollisionReport)
        requires
            old(self).wf(),
        ensures
            final(self).wf(),
            old(self).game_over ==> same_state(*old(self), *final(self)) && r.removed@.len() == 0
                && r.impacts == 0,
            !old(self).game_over ==> {
                &&& final(self).clash(r.removed@, r.impacts as int) == resolve_all(
                    old(self).clash(Seq::empty(), 0),
                    events@,
                )
                &&& final(self).score == old(self).score
                &&& final(self).high_score == old(self).high_score
                &&& final(self).enemy_number == old(self).enemy_number
                &&& final(self).spawn_timer == old(self).spawn_timer
                &&& final(self).game_over == old(self).game_over
            },
    {
        let mut removed: Vec<u32> = Vec::new();
        if self.game_over {
            return CollisionReport { removed, impacts: 0 };
        }
        let ghost start = self.clash(Seq::empty(), 0);
        let ghost first = *self;
        let mut impacts: usize = 0;
        let mut i: usize = 0;
        while i < events.len()
            invariant
                self.wf(),
                !self.game_over,
                0 <= i <= events@.len(),
                impacts <= i,
                self.clash(removed@, impacts as int) == resolve_all(start, events@.take(i as int)),
                self.score == first.score,
                self.high_score == first.high_score,
                self.enemy_number == first.enemy_number,
                self.spawn_timer == first.spawn_timer,
            decreases events@.len() - i,
        {
            let ev = events[i];
            proof {
                assert(events@.take(i as int + 1).drop_last() =~= events@.take(i as int));
                assert(events@.take(i as int + 1).last() == events@[i as int]);
            }
            if ev.begin && (ev.first == Collider::Player || ev.second == Collider::Player) {
                let ghost before = self.clash(removed@, impacts as int);
                let ghost r0 = removed@;
                self.strike(ev.first, &mut removed);
                let ghost mid = self.clash(removed@, 0);
                self.strike(ev.second, &mut removed);
                proof {
                    assert(hit(before, ev.first) == Clash { impacts: impacts as int, ..mid });
                    assert(hit(hit(before, ev.first), ev.second) == Clash {
                        impacts: impacts as int,
                        ..self.clash(removed@, 0)
                    });
                }
                impacts = impacts + 1;
            }
            i += 1;
        }
        proof {
            assert(events@.take(events@.len() as int) =~= events@);
        }
        CollisionReport { removed, impacts }
    }
}

/// What a frame's collision resolution did: the spawn indices of the enemies
/// removed, in order, and how many impacts the player took.
pub struct CollisionReport {
    pub removed: Vec<u32>,
    pub impacts: usize,
}

} // verus!
