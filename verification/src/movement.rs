//! The motion model and the player's motion state machine.
//!
//! Vertical motion uses closed-form kinematics with a midpoint correction:
//! the velocity sampled halfway through the tick, so that constant-timestep
//! integration matches analytic projectile motion with no per-frame drift.
//! With speeds in milli-pixels per second and times in milliseconds, the
//! per-tick displacement `dt * (v(t) + v(t + dt)) / 2` comes out exact in
//! units of half nano-pixels ("npx2", two units per nano-pixel), with no
//! rounding anywhere.

use vstd::prelude::*;

use crate::animation::{AnimStep, EntityTimer, Millis};
use crate::params;
use crate::player::PlayerSize;

verus! {

/// Longest tick the motion model accepts, in ms.
pub const MAX_DELTA: i64 = 1000;

/// Longest stay in one state the motion model accepts, in ms.
pub const MAX_STATE_TIME: i64 = 1000000000;

/// Rising displacement for the tick `[t, t + dt]` of a jump, doubled
/// nano-pixels: `dt * (2000*j - g*(2t + dt))` is exactly twice the integral
/// of `v(x) = j - g*x` over the tick, in nano-pixels.
pub open spec fn rise_step2(j: int, g: int, t: int, dt: int) -> int {
    dt * (2000 * j - g * (2 * t + dt))
}

/// Free-fall displacement for the tick `[t, t + dt]`, doubled nano-pixels.
pub open spec fn fall_step2(g: int, t: int, dt: int) -> int {
    -(dt * g * (2 * t + dt))
}

/// Instantaneous rising displacement, computed exactly.
pub fn jump_dy2(size: PlayerSize, t: Millis, dt: Millis) -> (r: i64)
    requires
        0 <= t <= MAX_STATE_TIME,
        0 <= dt <= MAX_DELTA,
    ensures
        r == rise_step2(params::spec_player_j(size) as int, params::spec_player_g(size) as int, t as int, dt as int),
{
    let j = params::player_j(size);
    let g = params::player_g(size);
    let mid: i64 = 2 * t + dt;
    proof {
        assert(g * mid <= 532000 * (2 * MAX_STATE_TIME + MAX_DELTA)) by (nonlinear_arith)
            requires 0 <= g <= 532000, 0 <= mid <= 2 * MAX_STATE_TIME + MAX_DELTA;
        assert(g * mid >= 0) by (nonlinear_arith)
            requires g >= 0, mid >= 0;
    }
    let v2: i64 = 2000 * j - g * mid;
    proof {
        assert(dt * v2 <= MAX_DELTA * (2000 * 269800)) by (nonlinear_arith)
            requires 0 <= dt <= MAX_DELTA, v2 <= 2000 * 269800;
        assert(dt * v2 >= -(MAX_DELTA as int) * (532000 * (2 * MAX_STATE_TIME + MAX_DELTA)))
            by (nonlinear_arith)
            requires
                0 <= dt <= MAX_DELTA,
                v2 >= -(532000 * (2 * MAX_STATE_TIME + MAX_DELTA));
    }
    dt * v2
}

/// Instantaneous falling displacement, computed exactly (always <= 0).
pub fn fall_dy2(size: PlayerSize, t: Millis, dt: Millis) -> (r: i64)
    requires
        0 <= t <= MAX_STATE_TIME,
        0 <= dt <= MAX_DELTA,
    ensures
        r == fall_step2(params::spec_player_g(size) as int, t as int, dt as int),
        r <= 0,
{
    let g = params::player_g(size);
    let mid: i64 = 2 * t + dt;
    proof {
        assert(g * mid <= 532000 * (2 * MAX_STATE_TIME + MAX_DELTA)) by (nonlinear_arith)
            requires 0 <= g <= 532000, 0 <= mid <= 2 * MAX_STATE_TIME + MAX_DELTA;
        assert(g * mid >= 0) by (nonlinear_arith)
            requires g >= 0, mid >= 0;
    }
    let gm: i64 = g * mid;
    proof {
        assert(dt * gm <= MAX_DELTA * (532000 * (2 * MAX_STATE_TIME + MAX_DELTA)))
            by (nonlinear_arith)
            requires
                0 <= dt <= MAX_DELTA,
                0 <= gm <= 532000 * (2 * MAX_STATE_TIME + MAX_DELTA);
        assert(dt * gm >= 0) by (nonlinear_arith)
            requires dt >= 0, gm >= 0;
        assert(dt * gm == dt * g * mid) by (nonlinear_arith)
            requires gm == g * mid;
    }
    -(dt * gm)
}

/// Total rising displacement over the first `n` ticks of length `dt`.
pub open spec fn rise_total2(j: int, g: int, dt: int, n: nat) -> int
    decreases n,
{
    if n == 0 {
        0
    } else {
        rise_total2(j, g, dt, (n - 1) as nat) + rise_step2(j, g, (n - 1) * dt, dt)
    }
}

/// Total falling displacement over the first `n` ticks of length `dt`.
pub open spec fn fall_total2(g: int, dt: int, n: nat) -> int
    decreases n,
{
    if n == 0 {
        0
    } else {
        fall_total2(g, dt, (n - 1) as nat) + fall_step2(g, (n - 1) * dt, dt)
    }
}

/// Tick-by-tick midpoint integration telescopes to the analytic height:
/// after `n` ticks the summed rise is exactly `2000*j*T - g*T^2` doubled
/// nano-pixels for `T = n*dt`, as if velocity had been integrated in closed
/// form — the property the midpoint correction was chosen for.
pub proof fn lemma_rise_total_closed(j: int, g: int, dt: int, n: nat)
    ensures
        rise_total2(j, g, dt, n) == 2000 * j * (n * dt) - g * (n * dt) * (n * dt),
    decreases n,
{
    if n == 0 {
        assert(2000 * j * (0 * dt) - g * (0 * dt) * (0 * dt) == 0) by (nonlinear_arith);
    } else {
        let m = (n - 1) as nat;
        lemma_rise_total_closed(j, g, dt, m);
        assert(2000 * j * (m * dt) - g * (m * dt) * (m * dt) + dt * (2000 * j - g * (2 * (m
            * dt) + dt)) == 2000 * j * (n * dt) - g * (n * dt) * (n * dt)) by (nonlinear_arith)
            requires n == m + 1;
    }
}

/// The summed fall is exactly `-g*T^2` doubled nano-pixels for `T = n*dt`.
pub proof fn lemma_fall_total_closed(g: int, dt: int, n: nat)
    ensures
        fall_total2(g, dt, n) == -(g * (n * dt) * (n * dt)),
    decreases n,
{
    if n == 0 {
        assert(g * (0 * dt) * (0 * dt) == 0) by (nonlinear_arith);
    } else {
        let m = (n - 1) as nat;
        lemma_fall_total_closed(g, dt, m);
        assert(-(g * (m * dt) * (m * dt)) - dt * g * (2 * (m * dt) + dt) == -(g * (n * dt) * (n
            * dt))) by (nonlinear_arith)
            requires n == m + 1;
    }
}

/// Jump-then-fall imbalance in closed form: rising for `n` ticks and then
/// falling for `n` more leaves the height changed by exactly
/// `2*T*(1000*j - g*T)` doubled nano-pixels, `T = n*dt`. The residue
/// `1000*j - g*T` is the (scaled) velocity left at the turnover tick, so
/// picking `T` at the apex bounds the round trip's error by one tick's
/// worth of velocity.
pub proof fn lemma_trajectory_sum(size: PlayerSize, dt: int, n: nat)
    ensures
        rise_total2(
            params::spec_player_j(size) as int,
            params::spec_player_g(size) as int,
            dt,
            n,
        ) + fall_total2(params::spec_player_g(size) as int, dt, n) == 2 * (n * dt) * (1000
            * params::spec_player_j(size) - params::spec_player_g(size) * (n * dt)),
{
    let j = params::spec_player_j(size) as int;
    let g = params::spec_player_g(size) as int;
    lemma_rise_total_closed(j, g, dt, n);
    lemma_fall_total_closed(g, dt, n);
    assert(2000 * j * (n * dt) - g * (n * dt) * (n * dt) - g * (n * dt) * (n * dt) == 2 * (n
        * dt) * (1000 * j - g * (n * dt))) by (nonlinear_arith);
}

/// Trajectory symmetry: whenever the rise lasts exactly to the apex
/// (`g * T == 1000 * j`, which integer constants admit for the small and
/// medium sizes), an equally long fall returns the character to its
/// starting height exactly — the sign conventions of the two phases cancel.
pub proof fn lemma_trajectory_symmetric(size: PlayerSize, dt: int, n: nat)
    requires
        params::spec_player_g(size) * (n * dt) == 1000 * params::spec_player_j(size),
    ensures
        rise_total2(
            params::spec_player_j(size) as int,
            params::spec_player_g(size) as int,
            dt,
            n,
        ) + fall_total2(params::spec_player_g(size) as int, dt, n) == 0,
{
    lemma_trajectory_sum(size, dt, n);
    let j = params::spec_player_j(size) as int;
    let g = params::spec_player_g(size) as int;
    assert(2 * (n * dt) * (1000 * j - g * (n * dt)) == 0) by (nonlinear_arith)
        requires g * (n * dt) == 1000 * j;
}

/// Double-tap dash detector: direction (`true` = right) and timestamp of
/// the last directional key-down, plus the single dash charge that landing
/// restores.
#[derive(Copy, Clone, Debug)]
pub struct Dash {
    pub last_dir: (bool, Millis),
    pub can_dash: bool,
}

impl Default for Dash {
    fn default() -> (r: Self)
        ensures
            r.last_dir == (false, 0int as i64) && !r.can_dash,
    {
        Dash { last_dir: (false, 0), can_dash: false }
    }
}

/// One tick's sampled input and physics feedback, handed in as plain
/// values: pressed/just-pressed states of the fixed button set, and the
/// physics backend's grounded and ceiling-contact reports.
#[derive(Copy, Clone, Debug)]
pub struct MoveInput {
    /// Current tick timestamp, ms.
    pub now: Millis,
    /// Tick length, ms.
    pub delta: Millis,
    pub pressed_left: bool,
    pub pressed_right: bool,
    pub pressed_jump: bool,
    pub just_left: bool,
    pub just_right: bool,
    pub just_jump: bool,
    /// The character controller reported standing on ground.
    pub grounded: bool,
    /// A converged contact whose normal points down: the head hit a ceiling.
    pub ceiling: bool,
}

pub open spec fn spec_is_jumping(s: AnimStep) -> bool {
    s == AnimStep::Prejump || s == AnimStep::Jump || s == AnimStep::Dash
}

/// Whether this tick's directional key-down completes a double tap: same
/// direction as the last one, within the detection window, with a dash
/// charge available, and not already dashing.
pub open spec fn dash_trigger(step: AnimStep, dash: Dash, inp: MoveInput) -> bool {
    step != AnimStep::Dash && dash.can_dash && ((inp.just_left && !dash.last_dir.0 && inp.now
        - dash.last_dir.1 <= params::DASH_DETECTION) || (!inp.just_left && inp.just_right
        && dash.last_dir.0 && inp.now - dash.last_dir.1 <= params::DASH_DETECTION))
}

/// Dash entry and dash timeout.
pub open spec fn step_after_dash(
    step: AnimStep,
    dash: Dash,
    timer: EntityTimer,
    size: PlayerSize,
    inp: MoveInput,
) -> AnimStep {
    if dash_trigger(step, dash, inp) {
        AnimStep::Dash
    } else if step == AnimStep::Dash && timer.time > params::spec_dash_duration(size) {
        AnimStep::Fall
    } else {
        step
    }
}

/// Walk/idle switching from held directions, only on the ground and
/// outside of jumps.
pub open spec fn step_after_walk(s1: AnimStep, inp: MoveInput) -> AnimStep {
    if s1 != AnimStep::Prejump && s1 != AnimStep::Dash && !spec_is_jumping(s1) && s1
        != AnimStep::Fall {
        if inp.pressed_right || inp.pressed_left {
            AnimStep::Walk
        } else if s1 == AnimStep::Walk {
            AnimStep::Idle
        } else {
            s1
        }
    } else {
        s1
    }
}

/// Ground feedback: landing ends a fall, losing the ground starts one.
pub open spec fn step_after_ground(s2: AnimStep, inp: MoveInput) -> AnimStep {
    if !spec_is_jumping(s2) {
        if inp.grounded {
            if s2 != AnimStep::Idle && s2 != AnimStep::Walk && s2 != AnimStep::Land {
                if s2 == AnimStep::Fall {
                    AnimStep::Land
                } else {
                    AnimStep::Idle
                }
            } else {
                s2
            }
        } else {
            AnimStep::Fall
        }
    } else {
        s2
    }
}

/// A jump input still counts shortly after the ground was lost.
pub open spec fn coyote_ok(s3: AnimStep, timer: EntityTimer, inp: MoveInput) -> bool {
    s3 == AnimStep::Fall && inp.now - timer.t_0 < params::COYOTE_TIME
}

/// Jump input: grounded or within the coyote window, and not mid-jump.
pub open spec fn step_after_jump_input(s3: AnimStep, timer: EntityTimer, inp: MoveInput) -> AnimStep {
    if inp.just_jump && !spec_is_jumping(s3) && (inp.grounded || coyote_ok(s3, timer, inp)) {
        AnimStep::Prejump
    } else {
        s3
    }
}

/// The rising phase ends when its velocity runs out, when the button is
/// released or the ground is met past the minimum jump time, or on a
/// ceiling contact.
pub open spec fn jump_exit(timer: EntityTimer, size: PlayerSize, inp: MoveInput) -> bool {
    let tj = inp.now - timer.t_0;
    ||| rise_step2(
        params::spec_player_j(size) as int,
        params::spec_player_g(size) as int,
        tj,
        inp.delta as int,
    ) <= 0
    ||| (!inp.pressed_jump && tj > params::JUMP_MIN)
    ||| (inp.grounded && tj > params::JUMP_MIN)
}

/// Prejump release, jump exit, and nothing else.
pub open spec fn step_after_vertical(
    s4: AnimStep,
    timer: EntityTimer,
    size: PlayerSize,
    inp: MoveInput,
) -> AnimStep {
    if s4 == AnimStep::Prejump {
        if !inp.pressed_jump {
            AnimStep::Jump
        } else {
            AnimStep::Prejump
        }
    } else if s4 == AnimStep::Jump {
        if jump_exit(timer, size, inp) {
            AnimStep::Fall
        } else if inp.ceiling {
            AnimStep::Fall
        } else {
            AnimStep::Jump
        }
    } else {
        s4
    }
}

/// The complete transition of one movement tick, staged exactly as the
/// decisions are taken: dash, walk, ground feedback, jump input, vertical
/// phase. Every state and signal combination is covered; combinations with
/// no rule leave the state alone.
pub open spec fn next_step(
    step: AnimStep,
    dash: Dash,
    timer: EntityTimer,
    size: PlayerSize,
    inp: MoveInput,
) -> AnimStep {
    step_after_vertical(
        step_after_jump_input(
            step_after_ground(step_after_walk(step_after_dash(step, dash, timer, size, inp), inp), inp),
            timer,
            inp,
        ),
        timer,
        size,
        inp,
    )
}

/// Held-direction factor.
pub open spec fn walk_dir(inp: MoveInput) -> int {
    (if inp.pressed_right { 1int } else { 0int }) - (if inp.pressed_left { 1int } else { 0int })
}

/// This tick's horizontal displacement, doubled nano-pixels: dash speed
/// while dashing, walking speed from held directions otherwise (also in
/// the air), frozen during prejump.
pub open spec fn spec_tx2(
    step: AnimStep,
    dash: Dash,
    timer: EntityTimer,
    size: PlayerSize,
    inp: MoveInput,
) -> int {
    let s1 = step_after_dash(step, dash, timer, size, inp);
    let dash_part: int = if step == AnimStep::Dash {
        inp.delta * params::PLAYER_X * params::DASH_S * 2000 * (
        if dash.last_dir.0 {
            1int
        } else {
            -1int
        })
    } else {
        0int
    };
    let walk_part: int = if s1 != AnimStep::Prejump && s1 != AnimStep::Dash {
        inp.delta * params::PLAYER_X * 2000 * walk_dir(inp)
    } else {
        0int
    };
    dash_part + walk_part
}

/// This tick's vertical displacement, doubled nano-pixels: a small
/// settling pull while grounded, zero the instant the ground is lost, the
/// exact rising kinematics while jumping, and the exact falling kinematics
/// while falling.
pub open spec fn spec_ty2(
    step: AnimStep,
    dash: Dash,
    timer: EntityTimer,
    size: PlayerSize,
    inp: MoveInput,
) -> int {
    let s1 = step_after_dash(step, dash, timer, size, inp);
    let s2 = step_after_walk(s1, inp);
    let s3 = step_after_ground(s2, inp);
    let s4 = step_after_jump_input(s3, timer, inp);
    let base: int = if step == AnimStep::Dash || step == AnimStep::Prejump {
        0int
    } else {
        -200000000int
    };
    let base2: int = if !spec_is_jumping(s2) && !inp.grounded {
        0int
    } else {
        base
    };
    if s4 == AnimStep::Jump {
        if jump_exit(timer, size, inp) {
            base2
        } else {
            base2 + rise_step2(
                params::spec_player_j(size) as int,
                params::spec_player_g(size) as int,
                inp.now - timer.t_0,
                inp.delta as int,
            )
        }
    } else if s4 == AnimStep::Fall {
        base2 + fall_step2(params::spec_player_g(size) as int, inp.now - timer.t_0, inp.delta as int)
    } else {
        base2
    }
}

/// The dash charge after the tick: spent on entering a dash, restored by
/// standing on the ground.
pub open spec fn spec_can_dash(
    step: AnimStep,
    dash: Dash,
    timer: EntityTimer,
    size: PlayerSize,
    inp: MoveInput,
) -> bool {
    let s1 = step_after_dash(step, dash, timer, size, inp);
    let s2 = step_after_walk(s1, inp);
    let cd1 = if dash_trigger(step, dash, inp) {
        false
    } else {
        dash.can_dash
    };
    if !spec_is_jumping(s2) && inp.grounded {
        true
    } else {
        cd1
    }
}

/// The recorded directional key-down after the tick: refreshed by a tap
/// that did not complete a double tap.
pub open spec fn spec_last_dir(step: AnimStep, dash: Dash, inp: MoveInput) -> (bool, i64) {
    if step != AnimStep::Dash && dash.can_dash {
        if inp.just_left {
            if !dash.last_dir.0 && inp.now - dash.last_dir.1 <= params::DASH_DETECTION {
                dash.last_dir
            } else {
                (false, inp.now)
            }
        } else if inp.just_right {
            if dash.last_dir.0 && inp.now - dash.last_dir.1 <= params::DASH_DETECTION {
                dash.last_dir
            } else {
                (true, inp.now)
            }
        } else {
            dash.last_dir
        }
    } else {
        dash.last_dir
    }
}

/// The sprite's facing after the tick: held directions steer it except
/// during prejump and dash; left wins when both are held.
pub open spec fn spec_flip(
    flip: bool,
    step: AnimStep,
    dash: Dash,
    timer: EntityTimer,
    size: PlayerSize,
    inp: MoveInput,
) -> bool {
    let s1 = step_after_dash(step, dash, timer, size, inp);
    if s1 != AnimStep::Prejump && s1 != AnimStep::Dash {
        if inp.pressed_left {
            true
        } else if inp.pressed_right {
            false
        } else {
            flip
        }
    } else {
        flip
    }
}

/// Whether this tick puts the player back on the ground, clearing the
/// mid-air transformation marker.
pub open spec fn spec_grounded_reset(
    step: AnimStep,
    dash: Dash,
    timer: EntityTimer,
    size: PlayerSize,
    inp: MoveInput,
) -> bool {
    let s1 = step_after_dash(step, dash, timer, size, inp);
    let s2 = step_after_walk(s1, inp);
    !spec_is_jumping(s2) && inp.grounded
}

/// One movement tick of the player's state machine.
///
/// Consumes the tick's input and physics signals, updates the motion state
/// and dash detector, and returns `(tx2, ty2, grounded_reset)`: the desired
/// displacement for the tick in doubled nano-pixels, handed to the physics
/// backend, and whether the mid-air transformation marker is to be cleared.
/// An attack owns the entity: while `Attack` is active nothing moves or
/// changes here until the attack timeline signals completion.
pub fn move_player(
    step: &mut AnimStep,
    dash: &mut Dash,
    timer: &EntityTimer,
    size: PlayerSize,
    flip_x: &mut bool,
    inp: &MoveInput,
) -> (r: (i64, i64, bool))
    requires
        0 <= inp.delta <= MAX_DELTA,
        0 <= timer.t_0 <= inp.now,
        inp.now - timer.t_0 <= MAX_STATE_TIME,
        0 <= timer.time <= MAX_STATE_TIME,
        0 <= dash.last_dir.1 <= inp.now,
    ensures
        *old(step) == AnimStep::Attack ==> *final(step) == *old(step) && *final(dash)
            == *old(dash) && *final(flip_x) == *old(flip_x) && r == (0int as i64, 0int as i64, false),
        *old(step) != AnimStep::Attack ==> {
            &&& *final(step) == next_step(*old(step), *old(dash), *timer, size, *inp)
            &&& final(dash).can_dash == spec_can_dash(*old(step), *old(dash), *timer, size, *inp)
            &&& final(dash).last_dir == spec_last_dir(*old(step), *old(dash), *inp)
            &&& *final(flip_x) == spec_flip(*old(flip_x), *old(step), *old(dash), *timer, size, *inp)
            &&& r.0 == spec_tx2(*old(step), *old(dash), *timer, size, *inp)
            &&& r.1 == spec_ty2(*old(step), *old(dash), *timer, size, *inp)
            &&& r.2 == spec_grounded_reset(*old(step), *old(dash), *timer, size, *inp)
        },
{
    if *step == AnimStep::Attack {
        return (0, 0, false);
    }
    let ghost step0 = *step;
    let ghost dash0 = *dash;

    let mut tx2: i64 = 0;
    let mut ty2: i64 = if *step == AnimStep::Dash || *step == AnimStep::Prejump {
        0
    } else {
        -200000000
    };

    // Dash detection and dash movement
    if *step != AnimStep::Dash && dash.can_dash {
        if inp.just_left {
            if !dash.last_dir.0 && inp.now - dash.last_dir.1 <= params::DASH_DETECTION {
                *step = AnimStep::Dash;
                dash.can_dash = false;
            } else {
                dash.last_dir = (false, inp.now);
            }
        } else if inp.just_right {
            if dash.last_dir.0 && inp.now - dash.last_dir.1 <= params::DASH_DETECTION {
                *step = AnimStep::Dash;
                dash.can_dash = false;
            } else {
                dash.last_dir = (true, inp.now);
            }
        }
    } else if *step == AnimStep::Dash {
        let dir: i64 = if dash.last_dir.0 {
            1
        } else {
            -1
        };
        let dash_speed: i64 = inp.delta * params::PLAYER_X * params::DASH_S * 2000;
        proof {
            assert(-960000000000 <= dash_speed * dir <= 960000000000) by (nonlinear_arith)
                requires 0 <= dash_speed <= 960000000000, dir == 1 || dir == -1;
        }
        tx2 = tx2 + dash_speed * dir;
        if timer.time > params::dash_duration(size) {
            *step = AnimStep::Fall;
        }
    }
    proof {
        assert(*step == step_after_dash(step0, dash0, *timer, size, *inp));
    }
    let ghost s1 = *step;

    // Side movement and walk/idle switching
    if *step != AnimStep::Prejump && *step != AnimStep::Dash {
        let right: i64 = if inp.pressed_right {
            *flip_x = false;
            1
        } else {
            0
        };
        let left: i64 = if inp.pressed_left {
            *flip_x = true;
            1
        } else {
            0
        };
        let walk_speed: i64 = inp.delta * params::PLAYER_X * 2000;
        let rl: i64 = right - left;
        proof {
            assert(-160000000000 <= walk_speed * rl <= 160000000000) by (nonlinear_arith)
                requires 0 <= walk_speed <= 160000000000, -1 <= rl <= 1;
        }
        tx2 = tx2 + walk_speed * rl;
        if !step.is_jumping() && *step != AnimStep::Fall {
            if right == 1 || left == 1 {
                *step = AnimStep::Walk;
            } else if *step == AnimStep::Walk {
                *step = AnimStep::Idle;
            }
        }
    }
    proof {
        assert(*step == step_after_walk(s1, *inp));
    }
    let ghost s2 = *step;

    // Ground feedback
    let mut grounded_reset = false;
    if !step.is_jumping() {
        if inp.grounded {
            if *step != AnimStep::Idle && *step != AnimStep::Walk && *step != AnimStep::Land {
                if *step == AnimStep::Fall {
                    *step = AnimStep::Land;
                } else {
                    *step = AnimStep::Idle;
                }
            }
            grounded_reset = true;
            dash.can_dash = true;
        } else {
            ty2 = 0;
            *step = AnimStep::Fall;
        }
    }
    proof {
        assert(*step == step_after_ground(s2, *inp));
    }
    let ghost s3 = *step;

    // Jump input, honoured on the ground or within the coyote window
    if inp.just_jump && !step.is_jumping() {
        let coyote: bool = if *step == AnimStep::Fall {
            inp.now - timer.t_0 < params::COYOTE_TIME
        } else {
            false
        };
        if inp.grounded || coyote {
            *step = AnimStep::Prejump;
        }
    }
    proof {
        assert(*step == step_after_jump_input(s3, *timer, *inp));
    }
    let ghost s4 = *step;

    // Vertical phase
    if *step == AnimStep::Prejump {
        if !inp.pressed_jump {
            // Leave prejump early for small jumps
            *step = AnimStep::Jump;
        }
    } else if *step == AnimStep::Jump {
        let t_jump = inp.now - timer.t_0;
        let dy2 = jump_dy2(size, t_jump, inp.delta);
        let mid_jump_stop = !inp.pressed_jump && t_jump > params::JUMP_MIN;
        let landed = inp.grounded && t_jump > params::JUMP_MIN;
        if dy2 <= 0 || mid_jump_stop || landed {
            *step = AnimStep::Fall;
        } else {
            if inp.ceiling {
                *step = AnimStep::Fall;
            }
            ty2 = ty2 + dy2;
        }
    } else if *step == AnimStep::Fall {
        let t_fall = inp.now - timer.t_0;
        let dy2 = fall_dy2(size, t_fall, inp.delta);
        ty2 = ty2 + dy2;
    }
    proof {
        assert(*step == step_after_vertical(s4, *timer, size, *inp));
    }

    (tx2, ty2, grounded_reset)
}

/// Timer-driven transitions: prejump becomes a jump once its duration has
/// passed, landing settles into idle once the land animation is over. A
/// transition resets the clock; anything else leaves both alone.
pub fn update_state(state: &mut AnimStep, timer: &mut EntityTimer, size: PlayerSize, now: Millis)
    ensures
        *old(state) == AnimStep::Prejump && old(timer).time >= params::spec_prejump_t(size)
            ==> *final(state) == AnimStep::Jump && final(timer).t_0 == now && final(timer).time
            == 0,
        *old(state) == AnimStep::Land && old(timer).time >= params::LAND_T ==> *final(state)
            == AnimStep::Idle && final(timer).t_0 == now && final(timer).time == 0,
        !(*old(state) == AnimStep::Prejump && old(timer).time >= params::spec_prejump_t(size))
            && !(*old(state) == AnimStep::Land && old(timer).time >= params::LAND_T)
            ==> *final(state) == *old(state) && *final(timer) == *old(timer),
{
    if *state == AnimStep::Prejump && timer.time >= params::prejump_t(size) {
        crate::animation::enter_step(state, AnimStep::Jump, timer, now);
    } else if *state == AnimStep::Land && timer.time >= params::LAND_T {
        crate::animation::enter_step(state, AnimStep::Idle, timer, now);
    }
}

} // verus!
