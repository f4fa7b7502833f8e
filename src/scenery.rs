use vstd::prelude::*;
use crate::session::GameState;

verus! {

/// The player's fixed horizontal position.
pub const PLAYER_X: i64 = -650;

/// Gap kept between the player and the top and bottom edges of the window.
pub const EDGE_MARGIN: i64 = 45;

/// Vertical distance the player moves in one frame while a key is held.
pub const PLAYER_STEP: i64 = 5;

/// Banking angle, in degrees, while the player climbs.
pub const BANK_DEG: u32 = 30;

/// Turn, in degrees, that the player's car makes on each impact.
pub const SPIN_DEG: u32 = 225;

/// Distance a road segment scrolls to the left in one frame.
pub const ROAD_STEP: i64 = 30;

/// A road segment whose x falls below this line wraps to the right.
pub const ROAD_WRAP_X: i64 = -675;

/// How far a wrapping road segment jumps to the right.
pub const ROAD_SPAN: i64 = 1500;

/// Number of road segments.
pub const ROAD_SEGMENTS: usize = 20;

/// The player's car: its height and its rotation in whole degrees, in `0..360`.
#[derive(Clone, Copy, Debug, PartialEq, Eq, Structural)]
pub struct Player {
    pub y: i64,
    pub rotation_deg: u32,
}

/// The key states that the player's controls read in one frame.
#[derive(Clone, Copy, Debug, PartialEq, Eq, Structural)]
pub struct Keys {
    pub up_pressed: bool,
    pub up_released: bool,
    pub down_pressed: bool,
    pub down_released: bool,
}

/// The angle `r` turned by `d` degrees.
pub open spec fn turned(r: u32, d: u32) -> u32 {
    ((r + d) % 360) as u32
}

/// The highest height the player may climb from; the lowest is its negation.
pub open spec fn climb_bound(window_height: u32) -> int {
    window_height / 2 - EDGE_MARGIN
}

/// The player after one frame of control. Holding up below the top bound
/// climbs one step and banks up; releasing up turns back; holding down above
/// the bottom bound descends one step and banks down; releasing down turns back.
/// Both bounds are tested against the height at the start of the frame.
pub open spec fn control_step(p: Player, k: Keys, window_height: u32) -> Player {
    let bound = climb_bound(window_height);
    let p1 = if k.up_pressed && p.y < bound {
        Player { y: (p.y + PLAYER_STEP) as i64, rotation_deg: BANK_DEG }
    } else {
        p
    };
    let p2 = if k.up_released {
        Player { y: p1.y, rotation_deg: turned(p1.rotation_deg, (360 - BANK_DEG) as u32) }
    } else {
        p1
    };
    let p3 = if k.down_pressed && p.y > -bound {
        Player { y: (p2.y - PLAYER_STEP) as i64, rotation_deg: (360 - BANK_DEG) as u32 }
    } else {
        p2
    };
    if k.down_released {
        Player { y: p3.y, rotation_deg: turned(p3.rotation_deg, BANK_DEG) }
    } else {
        p3
    }
}

/// A road segment's x after one frame of scrolling.
pub open spec fn road_step(x: i64) -> i64 {
    if x - ROAD_STEP < ROAD_WRAP_X {
        (x - ROAD_STEP + ROAD_SPAN) as i64
    } else {
        (x - ROAD_STEP) as i64
    }
}

impl Player {
    pub open spec fn wf(&self) -> bool {
        self.rotation_deg < 360
    }

    /// The player at the start of a run: centred and level.
    pub fn new() -> (r: Player)
        ensures
            r.wf(),
            r.y == 0,
            r.rotation_deg == 0,
    {
        Player { y: 0, rotation_deg: 0 }
    }

    /// The cosmetic turn the car makes on an impact.
    pub fn spin(&mut self)
        requires
            old(self).wf(),
        ensures
            final(self).wf(),
            final(self).y == old(self).y,
            final(self).rotation_deg == turned(old(self).rotation_deg, SPIN_DEG),
    {
        self.rotation_deg = (self.rotation_deg + SPIN_DEG) % 360;
    }
}

/// Player controls for one frame; nothing moves once the run is over.
pub fn control_logic(state: &GameState, player: &mut Player, keys: Keys, window_height: u32)
    requires
        old(player).wf(),
    ensures
        final(player).wf(),
        state.game_over ==> *final(player) == *old(player),
        !state.game_over ==> *final(player) == control_step(*old(player), keys, window_height),
{
    if state.game_over {
        return;
    }
    let bound: i64 = (window_height / 2) as i64 - EDGE_MARGIN;
    let current_y = player.y;
    if keys.up_pressed && current_y < bound {
        player.rotation_deg = BANK_DEG;
        player.y = player.y + PLAYER_STEP;
    }
    if keys.up_released {
        player.rotation_deg = (player.rotation_deg + (360 - BANK_DEG)) % 360;
    }
    if keys.down_pressed && current_y > -bound {
        player.rotation_deg = 360 - BANK_DEG;
        player.y = player.y - PLAYER_STEP;
    }
    if keys.down_released {
        player.rotation_deg = (player.rotation_deg + BANK_DEG) % 360;
    }
}

/// The road segments at the start of a run: evenly spaced from x = -600, 150 apart.
pub fn initial_road_lines() -> (r: Vec<i64>)
    ensures
        r@.len() == ROAD_SEGMENTS,
        forall|i: int| 0 <= i < r@.len() ==> #[trigger] r@[i] == -600 + 150 * i,
{
    let mut r: Vec<i64> = Vec::new();
    let mut i: usize = 0;
    while i < ROAD_SEGMENTS
        invariant
            0 <= i <= ROAD_SEGMENTS,
            r@.len() == i,
            forall|j: int| 0 <= j < i ==> #[trigger] r@[j] == -600 + 150 * j,
        decreases ROAD_SEGMENTS - i,
    {
        r.push(-600 + 150 * i as i64);
        i += 1;
    }
    r
}

/// Road scrolling for one frame: while the run lasts, every segment moves
/// left by `ROAD_STEP` and one that passes the wrap line jumps `ROAD_SPAN` to the right.
pub fn move_road_line(state: &GameState, lines: &mut Vec<i64>)
    ensures
        state.game_over ==> final(lines)@ == old(lines)@,
        !state.game_over ==> final(lines)@.len() == old(lines)@.len() && forall|i: int|
            0 <= i < old(lines)@.len() ==> #[trigger] final(lines)@[i] == road_step(old(lines)@[i]),
{
    if state.game_over {
        return;
    }
    let mut next: Vec<i64> = Vec::new();
    let mut i: usize = 0;
    while i < lines.len()
        invariant
            0 <= i <= lines@.len(),
            next@.len() == i,
            forall|j: int| 0 <= j < i ==> #[trigger] next@[j] == road_step(lines@[j]),
        decreases lines@.len() - i,
    {
        let x = lines[i];
        if x < ROAD_WRAP_X + ROAD_STEP {
            next.push(x + (ROAD_SPAN - ROAD_STEP));
        } else {
            next.push(x - ROAD_STEP);
        }
        i += 1;
    }
    *lines = next;
}

} // verus!
