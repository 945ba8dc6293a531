//! Detection platforms and birds: lifts that rise while the right-sized
//! player stands on them and sink back once left. Both reuse the shared
//! per-entity state and clock.

use vstd::prelude::*;

use crate::animation::{AnimStep, EntityTimer, Millis, enter_step};
use crate::data::{Flags, GameData};
use crate::params;
use crate::player::PlayerSize;

verus! {

/// The lift's state after one tick of ground feedback: rising while
/// carrying its target, settling to idle a moment after being left.
pub open spec fn spec_lift_step(s0: AnimStep, carrying: bool, time: int) -> AnimStep {
    if carrying {
        AnimStep::Jump
    } else if time > params::PLATFORM_DEAD_TIME {
        AnimStep::Idle
    } else {
        s0
    }
}

/// The lift's vertical velocity (milli-pixels per second) for its state:
/// idle lifts sink back to their start, rising lifts climb to the top of
/// their range.
pub open spec fn spec_lift_velocity(s: AnimStep, y: int, y_0: int, range: int) -> int {
    if s == AnimStep::Idle {
        if y <= y_0 {
            0int
        } else {
            params::PLATFORM_DOWN_SPEED as int
        }
    } else if s == AnimStep::Jump {
        if y < y_0 + range {
            params::PLATFORM_UP_SPEED as int
        } else {
            0int
        }
    } else {
        0int
    }
}

/// One platform tick. `carrying` is the physics report that the player of
/// the platform's target size stands on it (a contact from above); `y`,
/// `y_0` and `range` are milli-pixel heights. A state change resets the
/// platform's clock.
pub fn move_platform(
    step: &mut AnimStep,
    timer: &mut EntityTimer,
    now: Millis,
    target: PlayerSize,
    player_size: PlayerSize,
    standing: bool,
    y: i64,
    y_0: i64,
    range: i64,
) -> (vy: i64)
    requires
        -1000000000 <= y_0 <= 1000000000,
        0 <= range <= 1000000000,
    ensures
        *final(step) == spec_lift_step(
            *old(step),
            target == player_size && standing,
            old(timer).time as int,
        ),
        vy == spec_lift_velocity(*final(step), y as int, y_0 as int, range as int),
        *final(step) == *old(step) ==> *final(timer) == *old(timer),
        *final(step) != *old(step) ==> final(timer).t_0 == now && final(timer).time == 0,
{
    let carrying = target == player_size && standing;
    if carrying {
        enter_step(step, AnimStep::Jump, timer, now);
    } else if timer.time > params::PLATFORM_DEAD_TIME {
        enter_step(step, AnimStep::Idle, timer, now);
    }
    if *step == AnimStep::Idle {
        if y <= y_0 {
            0
        } else {
            params::PLATFORM_DOWN_SPEED
        }
    } else if *step == AnimStep::Jump {
        if y < y_0 + range {
            params::PLATFORM_UP_SPEED
        } else {
            0
        }
    } else {
        0
    }
}

/// One bird tick: the same lift, except a bird gated on a story flag
/// refuses to rise until the flag is set.
pub fn move_bird(
    step: &mut AnimStep,
    timer: &mut EntityTimer,
    now: Millis,
    target: PlayerSize,
    player_size: PlayerSize,
    touching: bool,
    y: i64,
    y_0: i64,
    range: i64,
    gate: Option<Flags>,
    data: &GameData,
) -> (vy: i64)
    requires
        -1000000000 <= y_0 <= 1000000000,
        0 <= range <= 1000000000,
    ensures
        *final(step) == spec_lift_step(
            *old(step),
            target == player_size && touching,
            old(timer).time as int,
        ),
        ({
            let base = spec_lift_velocity(*final(step), y as int, y_0 as int, range as int);
            vy == (if base > 0 && (gate matches Some(f) && !data.spec_has_flag(f)) {
                0int
            } else {
                base
            })
        }),
        *final(step) == *old(step) ==> *final(timer) == *old(timer),
        *final(step) != *old(step) ==> final(timer).t_0 == now && final(timer).time == 0,
{
    let vy = move_platform(step, timer, now, target, player_size, touching, y, y_0, range);
    if vy > 0 {
        match gate {
            Some(f) => {
                if !data.has_flag(f) {
                    return 0;
                }
            },
            None => {},
        }
    }
    vy
}

} // verus!
