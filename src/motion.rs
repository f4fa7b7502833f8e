use vstd::prelude::*;
use crate::session::{Enemy, GameState, enemies_ok, same_state, DESPAWN_X, ENEMY_STEP};

verus! {

/// Whether an enemy's step this frame takes it past the despawn line.
pub open spec fn crosses(e: Enemy) -> bool {
    e.x - ENEMY_STEP < DESPAWN_X
}

/// An enemy after one frame's step to the left.
pub open spec fn moved(e: Enemy) -> Enemy {
    Enemy { id: e.id, tier: e.tier, x: (e.x - ENEMY_STEP) as i64, y: e.y }
}

/// The enemies that remain after one frame of motion, moved, in order.
pub open spec fn advance(s: Seq<Enemy>) -> Seq<Enemy>
    decreases s.len(),
{
    if s.len() == 0 {
        Seq::empty()
    } else {
        let rest = advance(s.drop_last());
        if crosses(s.last()) {
            rest
        } else {
            rest.push(moved(s.last()))
        }
    }
}

/// The spawn indices of the enemies that leave the playfield this frame, in order.
pub open spec fn crossing_ids(s: Seq<Enemy>) -> Seq<u32>
    decreases s.len(),
{
    if s.len() == 0 {
        Seq::empty()
    } else {
        let rest = crossing_ids(s.drop_last());
        if crosses(s.last()) {
            rest.push(s.last().id)
        } else {
            rest
        }
    }
}

/// Motion keeps the enemy invariant, and every enemy either stays or is counted as crossing.
pub proof fn lemma_advance(s: Seq<Enemy>, n: int)
    requires
        enemies_ok(s, n),
    ensures
        enemies_ok(advance(s), n),
        advance(s).len() + crossing_ids(s).len() == s.len(),
    decreases s.len(),
{
    if s.len() > 0 {
        let dl = s.drop_last();
        let last = s.last();
        assert forall|i: int| 0 <= i < dl.len() implies dl[i].id < last.id by {
            assert(dl[i] == s[i]);
            assert(s[i].id < s[s.len() - 1].id);
        }
        assert(enemies_ok(dl, last.id - 1)) by {
            assert forall|i: int, j: int| 0 <= i < j < dl.len() implies dl[i].id < dl[j].id by {
                assert(dl[i] == s[i] && dl[j] == s[j]);
            }
            assert forall|i: int| 0 <= i < dl.len() implies #[trigger] dl[i].id >= 1 && dl[i].tier
                == crate::tier::tier_of(dl[i].id as int) && dl[i].x >= DESPAWN_X by {
                assert(dl[i] == s[i]);
            }
        }
        lemma_advance(dl, last.id - 1);
        let rest = advance(dl);
        if !crosses(last) {
            let p = rest.push(moved(last));
            assert forall|i: int, j: int| 0 <= i < j < p.len() implies p[i].id < p[j].id by {
                if j < rest.len() {
                    assert(p[i] == rest[i] && p[j] == rest[j]);
                } else {
                    assert(p[i] == rest[i]);
                }
            }
            assert forall|i: int| 0 <= i < p.len() implies 1 <= #[trigger] p[i].id <= n && p[i].tier
                == crate::tier::tier_of(p[i].id as int) && p[i].x >= DESPAWN_X by {
                if i < rest.len() {
                    assert(p[i] == rest[i]);
                }
            }
        }
    }
}

impl GameState {
    /// Motion for one frame: while the run lasts, every enemy moves left by
    /// `ENEMY_STEP`; those that pass the despawn line are removed and each adds
    /// one to the score. Returns the spawn indices of the removed enemies.
    pub fn move_enemy(&mut self) -> (gone: Vec<u32>)
        requires
            old(self).wf(),
        ensures
            final(self).wf(),
            old(self).game_over ==> same_state(*old(self), *final(self)) && gone@.len() == 0,
            !old(self).game_over ==> {
                &&& final(self).enemies@ == advance(old(self).enemies@)
                &&& gone@ == crossing_ids(old(self).enemies@)
                &&& final(self).score == old(self).score + gone@.len()
                &&& final(self).high_score == old(self).high_score
                &&& final(self).hp == old(self).hp
                &&& final(self).enemy_number == old(self).enemy_number
                &&& final(self).spawn_timer == old(self).spawn_timer
                &&& final(self).game_over == old(self).game_over
            },
    {
        let mut gone: Vec<u32> = Vec::new();
        if self.game_over {
            return gone;
        }
        let ghost s = self.enemies@;
        let mut kept: Vec<Enemy> = Vec::new();
        let mut i: usize = 0;
        while i < self.enemies.len()
            invariant
                s == self.enemies@,
                0 <= i <= s.len(),
                enemies_ok(s, self.enemy_number as int),
                kept@ == advance(s.take(i as int)),
                gone@ == crossing_ids(s.take(i as int)),
            decreases s.len() - i,
        {
            let e = self.enemies[i];
            proof {
                assert(s.take(i as int + 1).drop_last() =~= s.take(i as int));
                assert(s.take(i as int + 1).last() == s[i as int]);
            }
            if e.x - ENEMY_STEP < DESPAWN_X {
                gone.push(e.id);
            } else {
                kept.push(Enemy { id: e.id, tier: e.tier, x: e.x - ENEMY_STEP, y: e.y });
            }
            i += 1;
        }
        proof {
            assert(s.take(s.len() as int) =~= s);
            lemma_advance(s, self.enemy_number as int);
        }
        self.enemies = kept;
        self.score = self.score + gone.len() as u32;
        gone
    }
}

} // verus!
