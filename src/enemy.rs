//! The enemy behavior state machine: path following, attacking the goal,
//! death and reward, status indicators and animation frames.
use vstd::prelude::*;
use crate::geometry::{move_toward, step_toward, Point};
use crate::health::{sat_add_u32, sat_sub, Currency, HitPoints};
use crate::status::{clamp_u32, max_sub_armor, total_add_damage, StatusEffect, StatusEffects};
use crate::timer::Timer;

verus! {

/// Currency granted for each enemy killed.
pub const KILL_REWARD: u32 = 2;

/// Behavior of an enemy. `Corpse` is terminal.
#[derive(Clone, Copy, Debug, PartialEq, Eq, Structural)]
pub enum AnimationState {
    Idle,
    Walking,
    Attacking,
    Corpse,
}

impl Default for AnimationState {
    fn default() -> (r: Self)
        ensures
            r == AnimationState::Idle,
    {
        AnimationState::Idle
    }
}

/// Which way an enemy faces.
#[derive(Clone, Copy, Debug, PartialEq, Eq, Structural)]
pub enum Direction {
    Up,
    Down,
    Left,
    Right,
}

impl Default for Direction {
    fn default() -> (r: Self)
        ensures
            r == Direction::Right,
    {
        Direction::Right
    }
}

/// Identity and path progress of an enemy.
#[derive(Clone, Debug)]
pub struct EnemyState {
    /// Key of the enemy's animation set.
    pub name: String,
    /// Animation frames counted so far.
    pub tick: u32,
    pub path: Vec<Point>,
    /// Index of the last waypoint reached.
    pub path_index: usize,
}

/// Paces the damage that an attacking enemy deals to the goal.
#[derive(Clone, Copy, Debug, PartialEq, Eq, Structural)]
pub struct EnemyAttackTimer(pub Timer);

/// Distance covered at `speed` pixels per second in `elapsed_ms`
/// milliseconds, in thousandths of a pixel: exact, whatever the frame time.
pub open spec fn step_len(speed: u32, elapsed_ms: u32) -> nat {
    speed as nat * elapsed_ms as nat
}

/// Smallest offset along an axis, in thousandths of a pixel, that turns an
/// enemy toward the next waypoint.
pub const FACING_DEADBAND: i64 = 100;

/// Facing for moving from `from` to `to`: horizontal when the x offset
/// passes the deadband, else vertical when the y offset does, else unchanged.
pub open spec fn facing(from: Point, to: Point, current: Direction) -> Direction {
    if to.x - from.x > FACING_DEADBAND {
        Direction::Right
    } else if to.x - from.x < -FACING_DEADBAND {
        Direction::Left
    } else if to.y - from.y > FACING_DEADBAND {
        Direction::Up
    } else if to.y - from.y < -FACING_DEADBAND {
        Direction::Down
    } else {
        current
    }
}

/// One tick of movement: the new behavior, facing, path index and position.
pub open spec fn motion(
    anim: AnimationState,
    dir: Direction,
    path: Seq<Point>,
    index: nat,
    pos: Point,
    step: nat,
) -> (AnimationState, Direction, nat, Point) {
    if path.len() == 0 || index + 1 >= path.len() {
        (anim, dir, index, pos)
    } else if anim == AnimationState::Corpse {
        (anim, dir, index, pos)
    } else {
        let walking = if anim == AnimationState::Idle {
            AnimationState::Walking
        } else {
            anim
        };
        let next = path[(index + 1) as int];
        let (p, arrived) = step_toward(pos, next, step);
        if !arrived {
            (walking, dir, index, p)
        } else if index + 2 < path.len() {
            (walking, facing(next, path[(index + 2) as int], dir), index + 1, next)
        } else {
            (AnimationState::Attacking, dir, index + 1, next)
        }
    }
}

/// Advances an enemy along its path by `speed * elapsed`. It snaps
/// onto a waypoint that the step reaches, turns toward the waypoint after it,
/// and starts attacking at the end of the path. A corpse does not move.
pub fn movement(
    anim: &mut AnimationState,
    direction: &mut Direction,
    state: &mut EnemyState,
    position: &mut Point,
    speed: u32,
    elapsed_ms: u32,
)
    ensures
        (*final(anim), *final(direction), final(state).path_index as nat, *final(position))
            == motion(
            *old(anim),
            *old(direction),
            old(state).path@,
            old(state).path_index as nat,
            *old(position),
            step_len(speed, elapsed_ms),
        ),
        final(state).path@ == old(state).path@,
        final(state).name@ == old(state).name@,
        final(state).tick == old(state).tick,
{
    let len = state.path.len();
    if len == 0 || state.path_index >= len - 1 {
        return;
    }
    if let AnimationState::Corpse = *anim {
        return;
    }
    if let AnimationState::Idle = *anim {
        *anim = AnimationState::Walking;
    }
    let next = state.path[state.path_index + 1];
    assert(speed as nat * elapsed_ms as nat <= 0xffff_ffff * 0xffff_ffff) by (nonlinear_arith)
        requires
            speed <= 0xffff_ffff,
            elapsed_ms <= 0xffff_ffff,
    ;
    let step: u64 = speed as u64 * elapsed_ms as u64;
    let (p, arrived) = move_toward(*position, next, step);
    if !arrived {
        *position = p;
    } else {
        *position = next;
        state.path_index = state.path_index + 1;
        if state.path_index + 1 < len {
            let after = state.path[state.path_index + 1];
            let dx: i64 = after.x as i64 - next.x as i64;
            let dy: i64 = after.y as i64 - next.y as i64;
            if dx > FACING_DEADBAND {
                *direction = Direction::Right;
            } else if dx < -FACING_DEADBAND {
                *direction = Direction::Left;
            } else if dy > FACING_DEADBAND {
                *direction = Direction::Up;
            } else if dy < -FACING_DEADBAND {
                *direction = Direction::Down;
            }
        } else {
            *anim = AnimationState::Attacking;
        }
    }
}

/// What the death check does to one enemy: the new behavior, currency and
/// pending display updates, and whether the enemy died just now.
pub open spec fn after_death(anim: AnimationState, hp: HitPoints, currency: Currency, pending: u32) -> (
    AnimationState,
    Currency,
    u32,
    bool,
) {
    if hp.current == 0 && anim != AnimationState::Corpse {
        (
            AnimationState::Corpse,
            Currency {
                current: sat_add_u32(currency.current as nat, KILL_REWARD as nat) as u32,
                total_earned: sat_add_u32(currency.total_earned as nat, KILL_REWARD as nat) as u32,
            },
            sat_add_u32(pending as nat, 1) as u32,
            true,
        )
    } else {
        (anim, currency, pending, false)
    }
}

/// Movement never overshoots a waypoint: when the step reaches it, the enemy
/// lands exactly on it and counts it as reached.
pub proof fn lemma_waypoint_snap(
    anim: AnimationState,
    dir: Direction,
    path: Seq<Point>,
    index: nat,
    pos: Point,
    step: nat,
)
    requires
        anim != AnimationState::Corpse,
        index + 1 < path.len(),
        step >= crate::geometry::distance(pos, path[(index + 1) as int]),
    ensures
        motion(anim, dir, path, index, pos, step).3 == path[(index + 1) as int],
        motion(anim, dir, path, index, pos, step).2 == index + 1,
{
}

/// Turns an enemy whose health is zero into a corpse, once: the reward is
/// paid and the reward display is told to refresh. Returns whether it
/// happened; an enemy that is already a corpse is left as it is.
pub fn death(
    anim: &mut AnimationState,
    hp: &HitPoints,
    currency: &mut Currency,
    pending_updates: &mut u32,
) -> (died: bool)
    ensures
        (*final(anim), *final(currency), *final(pending_updates), died) == after_death(
            *old(anim),
            *hp,
            *old(currency),
            *old(pending_updates),
        ),
{
    if hp.current != 0 {
        return false;
    }
    if let AnimationState::Corpse = *anim {
        return false;
    }
    *anim = AnimationState::Corpse;
    currency.reward(KILL_REWARD);
    *pending_updates = pending_updates.saturating_add(1);
    true
}

/// An enemy dies at most once: when its health is zero the first death check
/// leaves it a corpse, and a second check with the same health changes
/// nothing and pays nothing.
pub proof fn lemma_death_once(anim: AnimationState, hp: HitPoints, currency: Currency, pending: u32)
    ensures
        ({
            let (anim1, cur1, pend1, died1) = after_death(anim, hp, currency, pending);
            let (anim2, cur2, pend2, died2) = after_death(anim1, hp, cur1, pend1);
            &&& hp.current == 0 ==> anim1 == AnimationState::Corpse
            &&& !died2
            &&& anim2 == anim1
            &&& cur2 == cur1
            &&& pend2 == pend1
        }),
{
}

/// Once a corpse, always a corpse: neither movement nor the death check
/// leaves that state.
pub proof fn lemma_corpse_is_terminal(
    dir: Direction,
    path: Seq<Point>,
    index: nat,
    pos: Point,
    step: nat,
    hp: HitPoints,
    currency: Currency,
    pending: u32,
)
    ensures
        motion(AnimationState::Corpse, dir, path, index, pos, step).0 == AnimationState::Corpse,
        motion(AnimationState::Corpse, dir, path, index, pos, step).3 == pos,
        after_death(AnimationState::Corpse, hp, currency, pending).0 == AnimationState::Corpse,
{
}

/// Goal health after one enemy's attack tick: one point off each goal when
/// the attack timer fired.
pub open spec fn goals_after(goals: Seq<HitPoints>, fired: bool) -> Seq<HitPoints> {
    goals.map_values(
        |g: HitPoints|
            if fired {
                HitPoints { current: sat_sub(g.current as nat, 1) as u32, max: g.max }
            } else {
                g
            },
    )
}

/// While an enemy attacks, its timer runs; each time it completes, every goal
/// loses one point of health. Other enemies' timers stand still.
pub fn deal_damage(
    timer: &mut EnemyAttackTimer,
    anim: &AnimationState,
    goals: &mut Vec<HitPoints>,
    elapsed_ms: u32,
) -> (fired: bool)
    requires
        old(timer).0.wf(),
    ensures
        final(timer).0.wf(),
        *anim != AnimationState::Attacking ==> *final(timer) == *old(timer) && !fired,
        *anim == AnimationState::Attacking ==> fired == (old(timer).0.elapsed_ms + elapsed_ms
            >= old(timer).0.duration_ms) && final(timer).0.duration_ms == old(timer).0.duration_ms
            && final(timer).0.elapsed_ms == (old(timer).0.elapsed_ms + elapsed_ms) % (old(
            timer,
        ).0.duration_ms as int),
        final(goals)@ == goals_after(old(goals)@, fired),
{
    if let AnimationState::Attacking = *anim {
        let fired = timer.0.tick(elapsed_ms);
        if fired {
            let mut i: usize = 0;
            while i < goals.len()
                invariant
                    i <= goals.len(),
                    goals.len() == old(goals).len(),
                    forall|j: int|
                        0 <= j < i ==> #[trigger] goals@[j] == goals_after(old(goals)@, true)[j],
                    forall|j: int| i <= j < goals.len() ==> #[trigger] goals@[j] == old(goals)@[j],
                decreases goals.len() - i,
            {
                let mut g = goals[i];
                g.apply_damage(1);
                goals.set(i, g);
                i = i + 1;
            }
            assert(goals@ == goals_after(old(goals)@, true));
        } else {
            assert(goals@ == goals_after(old(goals)@, false));
        }
        fired
    } else {
        assert(goals@ == goals_after(old(goals)@, false));
        false
    }
}

/// The status indicators attached to an enemy: at most one of each kind.
#[derive(Clone, Copy, Debug, PartialEq, Eq, Structural)]
pub struct StatusIndicators {
    /// Shown while some effect adds damage.
    pub up: bool,
    /// Shown while some effect reduces armor.
    pub down: bool,
}

/// The indicators that belong to a behavior and a set of effects: none on a
/// corpse; otherwise `down` while some effect reduces armor and `up` while
/// some effect adds damage.
pub open spec fn indicators_for(anim: AnimationState, effects: Seq<StatusEffect>) -> StatusIndicators {
    if anim == AnimationState::Corpse {
        StatusIndicators { up: false, down: false }
    } else {
        StatusIndicators {
            up: clamp_u32(total_add_damage(effects)) > 0,
            down: max_sub_armor(effects) > 0,
        }
    }
}

/// Brings the indicators in line with the effects: a corpse shows none;
/// otherwise `down` while some effect reduces armor and `up` while some
/// effect adds damage.
pub fn status_effect_appearance(
    anim: &AnimationState,
    effects: &StatusEffects,
    indicators: &mut StatusIndicators,
)
    ensures
        *final(indicators) == indicators_for(*anim, effects@),
{
    if let AnimationState::Corpse = *anim {
        indicators.up = false;
        indicators.down = false;
        return;
    }
    indicators.down = effects.get_max_sub_armor() > 0;
    indicators.up = effects.get_total_add_damage() > 0;
}

/// Where one animation sits in an enemy's sprite sheet.
#[derive(Clone, Copy, Debug, PartialEq, Eq, Structural)]
pub struct Clip {
    pub row: u32,
    pub length: u32,
}

/// An enemy's sprite sheet: its column count and one clip per slot, in the
/// order walk up, down, right, left; idle up, down, right, left; attack up,
/// down, right, left.
#[derive(Clone, Debug)]
pub struct AnimationData {
    pub cols: u32,
    pub clips: Vec<Clip>,
}

pub open spec fn direction_slot(d: Direction) -> nat {
    match d {
        Direction::Up => 0,
        Direction::Down => 1,
        Direction::Right => 2,
        Direction::Left => 3,
    }
}

/// The clip slot for a state and facing; a corpse shows the first idle frame.
pub open spec fn clip_slot(anim: AnimationState, dir: Direction) -> nat {
    match anim {
        AnimationState::Walking => direction_slot(dir),
        AnimationState::Idle => 4 + direction_slot(dir),
        AnimationState::Attacking => 8 + direction_slot(dir),
        AnimationState::Corpse => 4,
    }
}

/// How many frame ticks each sprite frame lasts.
pub open spec fn frame_modulus(anim: AnimationState) -> nat {
    match anim {
        AnimationState::Walking => 1,
        AnimationState::Idle => 20,
        AnimationState::Attacking => 2,
        AnimationState::Corpse => 2,
    }
}

pub open spec fn clip_length(anim: AnimationState, clip: Clip) -> nat {
    if anim == AnimationState::Corpse {
        1
    } else {
        clip.length as nat
    }
}

/// The sprite index after a frame tick: it advances when the tick count is a
/// multiple of the modulus, and goes back to the clip's first frame when it
/// falls outside the clip.
pub open spec fn next_frame(index: nat, tick: nat, start: nat, length: nat, modulus: nat) -> nat {
    let i = if tick % modulus == 0 {
        index + 1
    } else {
        index
    };
    if i < start || i >= start + length {
        start
    } else {
        i
    }
}

/// The clip slot for a state and facing; a sheet must hold it to be animated.
pub fn clip_slot_index(anim: &AnimationState, dir: &Direction) -> (r: usize)
    ensures
        r == clip_slot(*anim, *dir),
{
    let d: usize = match dir {
        Direction::Up => 0,
        Direction::Down => 1,
        Direction::Right => 2,
        Direction::Left => 3,
    };
    match anim {
        AnimationState::Walking => d,
        AnimationState::Idle => 4 + d,
        AnimationState::Attacking => 8 + d,
        AnimationState::Corpse => 4,
    }
}

/// Runs the frame timer; when it fires, counts a frame tick and picks the
/// sprite index from the clip for the current state and facing. The sheet
/// must hold that clip: a sheet without it is broken content.
pub fn animate(
    frame_timer: &mut Timer,
    sprite_index: &mut u64,
    state: &mut EnemyState,
    direction: &Direction,
    anim: &AnimationState,
    data: &AnimationData,
    elapsed_ms: u32,
)
    requires
        old(frame_timer).wf(),
        clip_slot(*anim, *direction) < data.clips@.len(),
    ensures
        final(frame_timer).wf(),
        final(frame_timer).duration_ms == old(frame_timer).duration_ms,
        final(frame_timer).elapsed_ms == (old(frame_timer).elapsed_ms + elapsed_ms) % (old(
            frame_timer,
        ).duration_ms as int),
        final(state).path@ == old(state).path@,
        final(state).path_index == old(state).path_index,
        final(state).name@ == old(state).name@,
        ({
            let fired = old(frame_timer).elapsed_ms + elapsed_ms >= old(frame_timer).duration_ms;
            let clip = data.clips@[clip_slot(*anim, *direction) as int];
            let tick = (old(state).tick + 1) % 0x1_0000_0000;
            if !fired {
                *final(sprite_index) == *old(sprite_index) && final(state).tick == old(state).tick
            } else {
                &&& final(state).tick == tick
                &&& *final(sprite_index) == next_frame(
                    *old(sprite_index) as nat,
                    tick as nat,
                    clip.row as nat * data.cols as nat,
                    clip_length(*anim, clip),
                    frame_modulus(*anim),
                )
            }
        }),
{
    if !frame_timer.tick(elapsed_ms) {
        return;
    }
    let slot = clip_slot_index(anim, direction);
    let clip = data.clips[slot];
    let (length, modulus): (u64, u32) = match anim {
        AnimationState::Walking => (clip.length as u64, 1),
        AnimationState::Idle => (clip.length as u64, 20),
        AnimationState::Attacking => (clip.length as u64, 2),
        AnimationState::Corpse => (1, 2),
    };
    assert(clip.row as nat * data.cols as nat <= 0xffff_ffff * 0xffff_ffff) by (nonlinear_arith)
        requires
            clip.row <= 0xffff_ffff,
            data.cols <= 0xffff_ffff,
    ;
    let start: u64 = clip.row as u64 * data.cols as u64;
    state.tick = if state.tick == u32::MAX { 0 } else { state.tick + 1 };
    let mut index: u64 = *sprite_index;
    if state.tick % modulus == 0 {
        index = index.saturating_add(1);
    }
    if index < start || index >= start + length {
        index = start;
    }
    *sprite_index = index;
}

} // verus!
