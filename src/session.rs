use vstd::prelude::*;
use crate::tier::{tier, tier_of, Tier};
use crate::timer::{SpawnTimer, fires, elapsed_after, interval_for, spawn_interval_for};

verus! {

/// Hit points at the start of a run.
pub const MAX_HP: u32 = 100;

/// An enemy whose x falls below this line leaves the playfield.
pub const DESPAWN_X: i64 = -655;

/// Distance an enemy travels to the left in one frame.
pub const ENEMY_STEP: i64 = 30;

/// How far beyond the right edge of the window new enemies appear.
pub const SPAWN_MARGIN: i64 = 100;

/// New enemies appear at a height in `-SPAWN_SPREAD..SPAWN_SPREAD`.
pub const SPAWN_SPREAD: i64 = 300;

/// A live enemy: its spawn index (its identity), its class fixed at spawn,
/// and its position in whole pixels.
#[derive(Clone, Copy, Debug, PartialEq, Eq, Structural)]
pub struct Enemy {
    pub id: u32,
    pub tier: Tier,
    pub x: i64,
    pub y: i64,
}

/// The state of one run.
#[derive(Debug)]
pub struct GameState {
    pub score: u32,
    pub high_score: u32,
    pub hp: u32,
    /// Number of enemies spawned so far; the last spawn index handed out.
    pub enemy_number: u32,
    /// Live enemies in spawn order.
    pub enemies: Vec<Enemy>,
    pub spawn_timer: SpawnTimer,
    pub game_over: bool,
}

/// Enemies carry distinct spawn indices in `1..=n`, increasing in spawn
/// order, the class of their index, and a position not yet past the despawn line.
pub open spec fn enemies_ok(s: Seq<Enemy>, n: int) -> bool {
    &&& forall|i: int|
        0 <= i < s.len() ==> 1 <= #[trigger] s[i].id <= n && s[i].tier == tier_of(s[i].id as int)
            && s[i].x >= DESPAWN_X
    &&& forall|i: int, j: int| #![trigger s[i], s[j]] 0 <= i < j < s.len() ==> s[i].id < s[j].id
}

/// Whether an enemy with spawn index `id` is live in `s`.
pub open spec fn has_id(s: Seq<Enemy>, id: u32) -> bool {
    exists|k: int| 0 <= k < s.len() && s[k].id == id
}

/// The enemy that the spawn controller places as number `id`.
pub open spec fn spawned(id: u32, window_width: u32, y: i64) -> Enemy {
    Enemy { id, tier: tier_of(id as int), x: ((window_width / 2) as i64 + SPAWN_MARGIN) as i64, y }
}

/// Two states that agree on everything.
pub open spec fn same_state(a: GameState, b: GameState) -> bool {
    &&& a.score == b.score
    &&& a.high_score == b.high_score
    &&& a.hp == b.hp
    &&& a.enemy_number == b.enemy_number
    &&& a.enemies@ == b.enemies@
    &&& a.spawn_timer == b.spawn_timer
    &&& a.game_over == b.game_over
}

/// One frame of the spawn controller: while the run lasts, the timer advances
/// by `delta_us`; when it fires and spawn indices are left, the next enemy is
/// placed at the right edge at height `y` and appended. After game over nothing changes.
pub open spec fn spawn_step(
    a: GameState,
    b: GameState,
    delta_us: u64,
    window_width: u32,
    y: i64,
    r: Option<Enemy>,
) -> bool {
    if a.game_over {
        same_state(a, b) && r is None
    } else {
        let fired = fires(a.spawn_timer.elapsed_us as int, a.spawn_timer.interval_us as int, delta_us as int);
        let placed = fired && a.enemy_number < u32::MAX;
        &&& b.spawn_timer.interval_us == a.spawn_timer.interval_us
        &&& b.spawn_timer.elapsed_us == elapsed_after(
            a.spawn_timer.elapsed_us as int,
            a.spawn_timer.interval_us as int,
            delta_us as int,
        )
        &&& b.score == a.score
        &&& b.high_score == a.high_score
        &&& b.hp == a.hp
        &&& b.game_over == a.game_over
        &&& if placed {
            let e = spawned((a.enemy_number + 1) as u32, window_width, y);
            &&& b.enemy_number == a.enemy_number + 1
            &&& b.enemies@ == a.enemies@.push(e)
            &&& r == Some(e)
        } else {
            &&& b.enemy_number == a.enemy_number
            &&& b.enemies@ == a.enemies@
            &&& r is None
        }
    }
}

/// One game-over check: the run ends exactly when it was still on and no hit
/// points are left, and only then does the high score become the larger of
/// itself and the score. Once over, the exit key asks to store it and quit.
pub open spec fn game_over_step(a: GameState, b: GameState, exit_pressed: bool, r: GameOverStep) -> bool {
    &&& r.entered == (!a.game_over && a.hp == 0)
    &&& b.game_over == (a.game_over || a.hp == 0)
    &&& b.high_score == if r.entered {
        if a.score > a.high_score { a.score } else { a.high_score }
    } else {
        a.high_score
    }
    &&& r.exit == (b.game_over && exit_pressed)
    &&& b.score == a.score
    &&& b.hp == a.hp
    &&& b.enemy_number == a.enemy_number
    &&& b.enemies@ == a.enemies@
    &&& b.spawn_timer == a.spawn_timer
}

/// The run ends at most once, and only on a check that finds no hit points
/// left. After a check that ended it, the frames in between leave the state as
/// it is (as every step does once the run is over), so the next check does not
/// end it again, and the run stays over with the same high score.
pub proof fn lemma_game_over_once(
    a: GameState,
    b: GameState,
    c: GameState,
    d: GameState,
    e1: bool,
    e2: bool,
    r1: GameOverStep,
    r2: GameOverStep,
)
    requires
        game_over_step(a, b, e1, r1),
        b.game_over ==> same_state(b, c),
        game_over_step(c, d, e2, r2),
    ensures
        r1.entered ==> a.hp == 0 && !a.game_over,
        r1.entered ==> !r2.entered && d.game_over && d.high_score == b.high_score,
{
}

/// Relies on rand's `rng()` and `Rng::random_range`: a value drawn from the
/// half-open range `lo..hi`, which must not be empty.
#[verifier::external_body]
fn random_in(lo: i64, hi: i64) -> (r: i64)
    requires
        lo < hi,
    ensures
        lo <= r < hi,
{
    rand::Rng::random_range(&mut rand::rng(), lo..hi)
}

impl GameState {
    /// The session invariant.
    pub open spec fn wf(&self) -> bool {
        &&& self.hp <= MAX_HP
        &&& self.game_over ==> self.hp == 0
        &&& self.score + self.enemies@.len() <= self.enemy_number
        &&& enemies_ok(self.enemies@, self.enemy_number as int)
        &&& self.spawn_timer.wf()
    }

    /// A fresh run that starts from a stored high score.
    pub fn with_high_score(high_score: u32) -> (r: GameState)
        ensures
            r.wf(),
            r.score == 0,
            r.high_score == high_score,
            r.hp == MAX_HP,
            r.enemy_number == 0,
            r.enemies@.len() == 0,
            r.spawn_timer.interval_us == crate::timer::BASE_INTERVAL_US,
            r.spawn_timer.elapsed_us == 0,
            !r.game_over,
    {
        GameState {
            score: 0,
            high_score,
            hp: MAX_HP,
            enemy_number: 0,
            enemies: Vec::new(),
            spawn_timer: SpawnTimer::new(),
            game_over: false,
        }
    }

    /// Spawn controller for one frame, with the new enemy's height given.
    /// Returns the enemy placed, if any.
    pub fn spawn_enemy_at(&mut self, delta_us: u64, window_width: u32, y: i64) -> (r: Option<Enemy>)
        requires
            old(self).wf(),
        ensures
            final(self).wf(),
            spawn_step(*old(self), *final(self), delta_us, window_width, y, r),
    {
        if self.game_over {
            return None;
        }
        let fired = self.spawn_timer.tick(delta_us);
        if fired && self.enemy_number < u32::MAX {
            let id: u32 = self.enemy_number + 1;
            let e = Enemy { id, tier: tier(id), x: (window_width / 2) as i64 + SPAWN_MARGIN, y };
            self.enemy_number = id;
            self.enemies.push(e);
            Some(e)
        } else {
            None
        }
    }

    /// Spawn controller for one frame: the new enemy's height is drawn at
    /// random from `-SPAWN_SPREAD..SPAWN_SPREAD`. Returns the enemy placed, if any.
    pub fn spawn_enemy_logic(&mut self, delta_us: u64, window_width: u32) -> (r: Option<Enemy>)
        requires
            old(self).wf(),
        ensures
            final(self).wf(),
            exists|y: i64|
                -SPAWN_SPREAD <= y < SPAWN_SPREAD
                    && spawn_step(*old(self), *final(self), delta_us, window_width, y, r),
    {
        let y = random_in(-SPAWN_SPREAD, SPAWN_SPREAD);
        self.spawn_enemy_at(delta_us, window_width, y)
    }

    /// Game-over check for one frame. The run ends the first time it finds no
    /// hit points left; at that moment the high score becomes the larger of
    /// itself and the score. Once over, the exit key asks to store the high
    /// score and quit.
    pub fn game_over_logic(&mut self, exit_pressed: bool) -> (r: GameOverStep)
        requires
            old(self).wf(),
        ensures
            final(self).wf(),
            game_over_step(*old(self), *final(self), exit_pressed, r),
    {
        let entered = !self.game_over && self.hp == 0;
        if entered {
            self.game_over = true;
            if self.score > self.high_score {
                self.high_score = self.score;
            }
        }
        GameOverStep { entered, exit: self.game_over && exit_pressed }
    }

    /// Difficulty for one frame: sets the spawn interval that the score calls
    /// for, keeping the time accumulated on the spawn timer.
    pub fn game_difficulty_logic(&mut self)
        requires
            old(self).wf(),
        ensures
            final(self).wf(),
            final(self).spawn_timer.interval_us == interval_for(old(self).score as int),
            final(self).spawn_timer.elapsed_us == old(self).spawn_timer.elapsed_us,
            final(self).score == old(self).score,
            final(self).high_score == old(self).high_score,
            final(self).hp == old(self).hp,
            final(self).enemy_number == old(self).enemy_number,
            final(self).enemies@ == old(self).enemies@,
            final(self).game_over == old(self).game_over,
    {
        let interval = spawn_interval_for(self.score);
        self.spawn_timer.set_interval(interval);
    }
}

/// What the game-over check decided this frame: whether the run ended now,
/// and whether the high score is to be stored and the game closed.
#[derive(Clone, Copy, Debug, PartialEq, Eq, Structural)]
pub struct GameOverStep {
    pub entered: bool,
    pub exit: bool,
}

impl Default for GameState {
    /// A fresh run with no stored high score.
    fn default() -> (r: GameState)
        ensures
            r.wf(),
            r.score == 0,
            r.high_score == 0,
            r.hp == MAX_HP,
            r.enemy_number == 0,
            r.enemies@.len() == 0,
            r.spawn_timer.interval_us == crate::timer::BASE_INTERVAL_US,
            r.spawn_timer.elapsed_us == 0,
            !r.game_over,
    {
        GameState::with_high_score(0)
    }
}

} // verus!
