//! The three boss encounters: each one an explicit step enum (or phase
//! counter) with a per-step timer and deterministic advance rules gated by
//! world conditions — the same timed-sequencing pattern as the player's
//! state machine, driven by damage events and proximity instead of input.

use vstd::prelude::*;

use crate::animation::{AnimStep, Millis};
use crate::movement::MAX_DELTA;
use crate::params;

verus! {

/// The first boss: a face whose two eyes must each be put out to cost it
/// one health; at a fixed health it falls into a long stun that fully
/// restores it unless finished in time.
#[derive(Copy, Clone, Debug)]
pub struct Boss1State {
    pub hp: u8,
    pub right_eye: u8,
    pub left_eye: u8,
    pub stun: Millis,
}

impl Default for Boss1State {
    fn default() -> (r: Self)
        ensures
            r == spec_boss1_default(),
    {
        Boss1State { hp: 4, right_eye: 2, left_eye: 2, stun: 0 }
    }
}

pub open spec fn spec_boss1_default() -> Boss1State {
    Boss1State { hp: 4u8, right_eye: 2u8, left_eye: 2u8, stun: 0i64 }
}

/// The stun countdown: while stunned at the stun health, time runs; if it
/// runs out the boss restores itself completely.
pub open spec fn spec_boss1_stun(s: Boss1State, delta: int) -> Boss1State {
    if s.hp == 3 && s.stun != 0 {
        let st = s.stun - delta;
        if st < 0 {
            spec_boss1_default()
        } else {
            Boss1State { stun: st as i64, ..s }
        }
    } else {
        s
    }
}

/// One eye hit: the eye loses a point; when it closes, the boss loses one
/// health, starts its stun at the stun health, and reopens the other eye.
pub open spec fn spec_boss1_hit(s: Boss1State, left: bool) -> Boss1State {
    if left {
        if s.left_eye > 0 {
            let le = (s.left_eye - 1) as u8;
            if le == 0 {
                let hp = if s.hp > 0 {
                    (s.hp - 1) as u8
                } else {
                    s.hp
                };
                let stun = if hp == 3 {
                    params::BOSS_STUN_DELAY
                } else {
                    s.stun
                };
                let re = if hp > 0 {
                    2u8
                } else {
                    s.right_eye
                };
                Boss1State { hp, right_eye: re, left_eye: le, stun }
            } else {
                Boss1State { left_eye: le, ..s }
            }
        } else {
            s
        }
    } else {
        if s.right_eye > 0 {
            let re = (s.right_eye - 1) as u8;
            if re == 0 {
                let hp = if s.hp > 0 {
                    (s.hp - 1) as u8
                } else {
                    s.hp
                };
                let stun = if hp == 3 {
                    params::BOSS_STUN_DELAY
                } else {
                    s.stun
                };
                let le = if hp > 0 {
                    2u8
                } else {
                    s.left_eye
                };
                Boss1State { hp, right_eye: re, left_eye: le, stun }
            } else {
                Boss1State { right_eye: re, ..s }
            }
        } else {
            s
        }
    }
}

/// The tick's eye hits folded in order.
pub open spec fn spec_boss1_hits(s: Boss1State, hits: Seq<bool>) -> Boss1State
    decreases hits.len(),
{
    if hits.len() == 0 {
        s
    } else {
        spec_boss1_hits(spec_boss1_hit(s, hits[0]), hits.skip(1))
    }
}

/// The animation the boss shows after a health change.
pub open spec fn spec_boss1_anim(hp: u8) -> AnimStep {
    if hp == 3 {
        AnimStep::Jump
    } else if hp == 2 || hp == 1 {
        AnimStep::Prejump
    } else if hp == 0 {
        AnimStep::Fall
    } else {
        AnimStep::Idle
    }
}

/// One first-boss tick: the stun counts down (and may restore the boss),
/// then the tick's eye hits apply in order. Returns whether the boss is
/// dead, whether this very tick defeated it, and the animation to show:
/// a fall when dead, the per-health pose after a health change, nothing
/// otherwise.
pub fn boss1_update(
    state: &mut Boss1State,
    hits: &Vec<bool>,
    delta: Millis,
    already_defeated: bool,
) -> (r: (bool, bool, Option<AnimStep>))
    requires
        0 <= delta <= MAX_DELTA,
        -10000 <= old(state).stun <= params::BOSS_STUN_DELAY,
    ensures
        *final(state) == spec_boss1_hits(
            spec_boss1_stun(*old(state), delta as int),
            hits@,
        ),
        r.0 == (final(state).hp == 0 || already_defeated),
        r.1 == (r.0 && !already_defeated),
        r.0 ==> r.2 == Some(AnimStep::Fall),
        !r.0 && old(state).hp != final(state).hp ==> r.2 == Some(
            spec_boss1_anim(final(state).hp),
        ),
        !r.0 && old(state).hp == final(state).hp ==> r.2 is None,
{
    let old_hp = state.hp;

    if state.hp == 3 && state.stun != 0 {
        state.stun = state.stun - delta;
        if state.stun < 0 {
            *state = Boss1State { hp: 4, right_eye: 2, left_eye: 2, stun: 0 };
        }
    }

    let ghost stunned = *state;
    let mut i: usize = 0;
    proof {
        assert(hits@.skip(0) =~= hits@);
    }
    while i < hits.len()
        invariant
            0 <= i <= hits@.len(),
            spec_boss1_hits(stunned, hits@) == spec_boss1_hits(*state, hits@.skip(i as int)),
        decreases hits@.len() - i,
    {
        proof {
            assert(hits@.skip(i as int)[0] == hits@[i as int]);
            assert(hits@.skip(i as int).skip(1) =~= hits@.skip(i + 1));
        }
        let left = hits[i];
        if left {
            if state.left_eye > 0 {
                state.left_eye = state.left_eye - 1;
                if state.left_eye == 0 {
                    if state.hp > 0 {
                        state.hp = state.hp - 1;
                    }
                    if state.hp == 3 {
                        state.stun = params::BOSS_STUN_DELAY;
                    }
                    if state.hp > 0 {
                        state.right_eye = 2;
                    }
                }
            }
        } else {
            if state.right_eye > 0 {
                state.right_eye = state.right_eye - 1;
                if state.right_eye == 0 {
                    if state.hp > 0 {
                        state.hp = state.hp - 1;
                    }
                    if state.hp == 3 {
                        state.stun = params::BOSS_STUN_DELAY;
                    }
                    if state.hp > 0 {
                        state.left_eye = 2;
                    }
                }
            }
        }
        i = i + 1;
    }
    proof {
        assert(hits@.skip(i as int).len() == 0);
    }

    let dead = state.hp == 0 || already_defeated;
    let newly = dead && !already_defeated;
    let anim = if dead {
        Some(AnimStep::Fall)
    } else if old_hp != state.hp {
        Some(
            if state.hp == 3 {
                AnimStep::Jump
            } else if state.hp == 2 || state.hp == 1 {
                AnimStep::Prejump
            } else if state.hp == 0 {
                AnimStep::Fall
            } else {
                AnimStep::Idle
            },
        )
    } else {
        None
    };
    (dead, newly, anim)
}

/// An open eye shows frame 0, a closed or dead one frame 1.
pub fn boss1_eye_frame(count: u8, dead: bool) -> (r: usize)
    ensures
        r == (if count > 0 && !dead {
            0usize
        } else {
            1usize
        }),
{
    if count > 0 && !dead {
        0
    } else {
        1
    }
}

/// Where the eyes sit for each health: they descend (and pull in) as the
/// boss weakens. Milli-pixel vertical position, plus the inward shift
/// applied when the face collapses.
pub fn boss1_eye_y(hp: u8) -> (r: Option<(i64, i64)>)
    ensures
        hp == 4 ==> r == Some((44000int as i64, 0int as i64)),
        hp == 3 ==> r == Some((52000int as i64, 0int as i64)),
        hp == 2 ==> r == Some((3000int as i64, 2000int as i64)),
        hp != 4 && hp != 3 && hp != 2 ==> r is None,
{
    if hp == 4 {
        Some((44000, 0))
    } else if hp == 3 {
        Some((52000, 0))
    } else if hp == 2 {
        Some((3000, 2000))
    } else {
        None
    }
}

/// What a second-boss damage event struck.
#[derive(Copy, Clone, Eq, PartialEq, Structural, Debug)]
pub enum Boss2Target {
    Body,
    Eye,
}

/// The second boss: an armoured body that shrugs off blows until its eye
/// is exposed, then a chase where only the eye is vulnerable.
#[derive(Copy, Clone, Debug)]
pub struct Boss2State {
    pub hp: u8,
}

impl Default for Boss2State {
    fn default() -> (r: Self)
        ensures
            r.hp == 8,
    {
        Boss2State { hp: 8 }
    }
}

/// One hit on the second boss: body hits only count in the armoured
/// opening (down to the eye reveal), eye hits only after it. Alongside
/// the health, the pose the hit sets: the walk at the eye reveal, and in
/// the late chase a turn toward the player's side.
pub open spec fn spec_boss2_hit(
    hp: u8,
    anim: Option<AnimStep>,
    target: Boss2Target,
    player_left: bool,
) -> (u8, Option<AnimStep>) {
    match target {
        Boss2Target::Body => if hp >= 6 {
            let h = (hp - 1) as u8;
            (h, if h == 5 {
                Some(AnimStep::Walk)
            } else {
                anim
            })
        } else {
            (hp, anim)
        },
        Boss2Target::Eye => if 0 < hp <= 5 {
            let h = (hp - 1) as u8;
            (h, if 0 < h <= 2 {
                Some(
                    if player_left {
                        AnimStep::Dash
                    } else {
                        AnimStep::Attack
                    },
                )
            } else {
                anim
            })
        } else {
            (hp, anim)
        },
    }
}

/// The tick's hits folded in order, carrying health and the last pose set.
pub open spec fn spec_boss2_hits(
    hp: u8,
    anim: Option<AnimStep>,
    hits: Seq<Boss2Target>,
    player_left: bool,
) -> (u8, Option<AnimStep>)
    decreases hits.len(),
{
    if hits.len() == 0 {
        (hp, anim)
    } else {
        let (h, a) = spec_boss2_hit(hp, anim, hits[0], player_left);
        spec_boss2_hits(h, a, hits.skip(1), player_left)
    }
}

/// One second-boss tick: folds the tick's hits, reveals the eye when the
/// armoured phase ends, and in the late chase turns toward the player
/// after each eye hit. Returns (dead, newly defeated, spawn the eye now,
/// animation to set); death overrides the pose with a fall.
pub fn boss2_update(
    state: &mut Boss2State,
    hits: &Vec<Boss2Target>,
    player_left_of_eye: bool,
    already_defeated: bool,
) -> (r: (bool, bool, bool, Option<AnimStep>))
    ensures
        final(state).hp == spec_boss2_hits(
            old(state).hp,
            None::<AnimStep>,
            hits@,
            player_left_of_eye,
        ).0,
        r.0 == (final(state).hp == 0 || already_defeated),
        r.1 == (r.0 && !already_defeated),
        r.2 == (old(state).hp > 5 && final(state).hp <= 5),
        r.0 ==> r.3 == Some(AnimStep::Fall),
        !r.0 ==> r.3 == spec_boss2_hits(
            old(state).hp,
            None::<AnimStep>,
            hits@,
            player_left_of_eye,
        ).1,
{
    let old_hp = state.hp;
    let mut anim: Option<AnimStep> = None;
    let mut i: usize = 0;
    proof {
        assert(hits@.skip(0) =~= hits@);
    }
    while i < hits.len()
        invariant
            0 <= i <= hits@.len(),
            spec_boss2_hits(old(state).hp, None::<AnimStep>, hits@, player_left_of_eye)
                == spec_boss2_hits(state.hp, anim, hits@.skip(i as int), player_left_of_eye),
        decreases hits@.len() - i,
    {
        proof {
            assert(hits@.skip(i as int)[0] == hits@[i as int]);
            assert(hits@.skip(i as int).skip(1) =~= hits@.skip(i + 1));
        }
        match hits[i] {
            Boss2Target::Body => {
                if state.hp >= 6 {
                    state.hp = state.hp - 1;
                    if state.hp == 5 {
                        // Phase switch: the eye comes out
                        anim = Some(AnimStep::Walk);
                    }
                }
            },
            Boss2Target::Eye => {
                if state.hp > 0 && state.hp <= 5 {
                    state.hp = state.hp - 1;
                    if state.hp > 0 && state.hp <= 2 {
                        anim = Some(
                            if player_left_of_eye {
                                AnimStep::Dash
                            } else {
                                AnimStep::Attack
                            },
                        );
                    }
                }
            },
        }
        i = i + 1;
    }
    proof {
        assert(hits@.skip(i as int).len() == 0);
    }

    let dead = state.hp == 0 || already_defeated;
    let newly = dead && !already_defeated;
    let spawn_eye = old_hp > 5 && state.hp <= 5;
    if dead {
        anim = Some(AnimStep::Fall);
    }
    (dead, newly, spawn_eye, anim)
}

/// Where the second boss's eye rides for each body frame, and whether it
/// lies sideways: milli-pixel offsets from the body.
pub fn boss2_eye_pose(index: usize, dead: bool) -> (r: (i64, i64, bool))
    ensures
        dead ==> r == (15000int as i64, 16000int as i64, true),
        !dead && index == 2 ==> r == (0int as i64, 38000int as i64, false),
        !dead && index == 3 ==> r == (-1000int as i64, 57000int as i64, false),
        !dead && (index == 5 || index == 6) ==> r == (-36000int as i64, 61000int as i64, true),
        !dead && (index == 7 || index == 8) ==> r == (42000int as i64, 61000int as i64, true),
        !dead && index != 1 && index != 2 && index != 3 && index != 5 && index != 6 && index
            != 7 && index != 8 ==> r == (5000int as i64, 75000int as i64, false),
{
    let idx = if dead {
        1
    } else {
        index
    };
    if idx == 1 {
        (15000, 16000, true)
    } else if idx == 2 {
        (0, 38000, false)
    } else if idx == 3 {
        (-1000, 57000, false)
    } else if idx == 5 || idx == 6 {
        (-36000, 61000, true)
    } else if idx == 7 || idx == 8 {
        (42000, 61000, true)
    } else {
        (5000, 75000, false)
    }
}

/// The final boss's steps: sleep until woken, transform, summon minions
/// while levitating, settle, chase the player with arcing jumps, then the
/// final ground sweep.
#[derive(Copy, Clone, Eq, PartialEq, Structural, Debug)]
pub enum Boss3Step {
    Sleep,
    Transform,
    Step1,
    BeforeStep2,
    Step2,
    AfterJump,
    Step3,
    BeforeDash,
}

/// The final boss's state: health, the current step with its timer, and
/// the jump bookkeeping (whether one is in flight, its target and speed,
/// and its direction).
#[derive(Copy, Clone, Debug)]
pub struct Boss3State {
    pub hp: u8,
    pub step: Boss3Step,
    pub jump: bool,
    pub x_target: i64,
    pub x_speed: i64,
    pub left: bool,
    pub timer: Millis,
}

impl Default for Boss3State {
    fn default() -> (r: Self)
        ensures
            r == spec_boss3_default(),
    {
        Boss3State {
            hp: 12,
            step: Boss3Step::Sleep,
            jump: false,
            x_target: 0,
            x_speed: 0,
            left: false,
            timer: 0,
        }
    }
}

pub open spec fn spec_boss3_default() -> Boss3State {
    Boss3State {
        hp: 12u8,
        step: Boss3Step::Sleep,
        jump: false,
        x_target: 0i64,
        x_speed: 0i64,
        left: false,
        timer: 0i64,
    }
}

/// Bounds under which the boss's clock and position arithmetic is exact.
pub open spec fn wf_boss3(s: Boss3State) -> bool {
    &&& -10000 <= s.timer <= 1000000000
    &&& -100000 <= s.x_speed <= 100000
}

/// A step timer clamped back into its working range.
pub open spec fn clamp_timer(t: int) -> int {
    if t < -10000 {
        -10000
    } else if t > 1000000000 {
        1000000000
    } else {
        t
    }
}

/// One sword hit on the final boss: it only counts during the jump chase
/// while armoured health remains, or any time in the final sweep.
pub open spec fn spec_boss3_hit(s: Boss3State) -> (Boss3State, bool) {
    match s.step {
        Boss3Step::Step2 | Boss3Step::AfterJump => if s.hp > 6 {
            (Boss3State { hp: (s.hp - 1) as u8, ..s }, true)
        } else {
            (s, false)
        },
        Boss3Step::Step3 => if s.hp > 0 {
            (Boss3State { hp: (s.hp - 1) as u8, ..s }, true)
        } else {
            (s, false)
        },
        _ => (s, false),
    }
}

/// The tick's hits folded; the flag says whether any landed (a hurt flash
/// fires).
pub open spec fn spec_boss3_hits(s: Boss3State, n: nat) -> (Boss3State, bool)
    decreases n,
{
    if n == 0 {
        (s, false)
    } else {
        let (s1, h1) = spec_boss3_hit(s);
        let (s2, h2) = spec_boss3_hits(s1, (n - 1) as nat);
        (s2, h1 || h2)
    }
}

/// The jump's height above the ground at `t` into its flight: a parabolic
/// arc through the full height at mid-flight, clamped at touchdown.
pub open spec fn spec_arc(t: int) -> int {
    let d = params::BOSS3_JUMP_DURATION as int;
    let tc = if t < 0 {
        0
    } else if t > d {
        d
    } else {
        t
    };
    4 * params::BOSS3_JUMP_HEIGHT * tc * (d - tc) / (d * d)
}

/// One tick of horizontal flight, milli-pixels: speed (milli-pixels per
/// second) over the tick, rounded toward zero.
pub open spec fn spec_tick_dx(xs: int, delta: int) -> int {
    if xs >= 0 {
        xs * delta / 1000
    } else {
        -((-xs) * delta / 1000)
    }
}

/// The final sweep's offset from the lair's centre: a triangle wave, one
/// sweep every eight seconds, 128 pixels wide.
pub open spec fn spec_sweep(t: int) -> int {
    let m = (if t < 0 { 0int } else { t }) % 8000;
    let tri = if m < 4000 {
        m
    } else {
        8000 - m
    };
    (tri - 2000) * 64
}

/// What one movement tick of the final boss produces.
pub struct Boss3MoveSpec {
    pub state: Boss3State,
    pub x: int,
    pub y: int,
    pub anim: Option<AnimStep>,
    pub spawn_minions: bool,
    pub grant_size_s: bool,
    pub grant_size_l: bool,
}

/// The final boss's movement step: one arm per step of the machine,
/// advancing its timer and position and stepping on the arm's own
/// condition.
pub open spec fn spec_boss3_move(
    s: Boss3State,
    x: int,
    y: int,
    inv_empty: bool,
    player_x: int,
    delta: int,
) -> Boss3MoveSpec {
    let keep = Boss3MoveSpec {
        state: s,
        x,
        y,
        anim: None,
        spawn_minions: false,
        grant_size_s: false,
        grant_size_l: false,
    };
    match s.step {
        Boss3Step::Sleep => Boss3MoveSpec {
            state: Boss3State { step: Boss3Step::Transform, ..s },
            anim: Some(AnimStep::Walk),
            ..keep
        },
        Boss3Step::Transform => {
            let t = s.timer + delta;
            if t >= 4000 {
                Boss3MoveSpec {
                    state: Boss3State { step: Boss3Step::Step1, timer: 0i64, ..s },
                    ..keep
                }
            } else {
                Boss3MoveSpec { state: Boss3State { timer: t as i64, ..s }, ..keep }
            }
        },
        Boss3Step::Step1 => {
            let y2 = params::BOSS3_GROUND + params::BOSS3_LEVITATION_Y;
            if !s.jump {
                Boss3MoveSpec {
                    state: Boss3State { jump: true, ..s },
                    y: y2,
                    anim: Some(AnimStep::Prejump),
                    spawn_minions: true,
                    ..keep
                }
            } else if inv_empty {
                Boss3MoveSpec {
                    state: Boss3State { step: Boss3Step::BeforeStep2, ..s },
                    y: y2,
                    anim: Some(AnimStep::Prejump),
                    ..keep
                }
            } else {
                Boss3MoveSpec { y: y2, anim: Some(AnimStep::Prejump), ..keep }
            }
        },
        Boss3Step::BeforeStep2 => {
            let dy = y - params::BOSS3_GROUND;
            let drop = if dy < params::BOSS3_FALL_SPEED {
                dy
            } else {
                params::BOSS3_FALL_SPEED as int
            };
            let y2 = y - drop;
            if dy <= 0 {
                Boss3MoveSpec {
                    state: Boss3State { step: Boss3Step::Step2, ..s },
                    y: y2,
                    anim: Some(AnimStep::Jump),
                    grant_size_s: true,
                    ..keep
                }
            } else {
                Boss3MoveSpec { y: y2, ..keep }
            }
        },
        Boss3Step::Step2 => {
            if !s.jump {
                let bx = x - 9500;
                let adx0 = if player_x >= bx {
                    player_x - bx
                } else {
                    bx - player_x
                };
                let adx = if adx0 < params::BOSS3_JUMP_X_MAX {
                    adx0
                } else {
                    params::BOSS3_JUMP_X_MAX as int
                };
                if player_x < bx {
                    Boss3MoveSpec {
                        state: Boss3State {
                            x_target: (bx - adx - 4000) as i64,
                            x_speed: (-(adx * 1000 / (params::BOSS3_JUMP_DURATION as int))) as i64,
                            left: true,
                            jump: true,
                            timer: 0i64,
                            ..s
                        },
                        ..keep
                    }
                } else {
                    Boss3MoveSpec {
                        state: Boss3State {
                            x_target: (bx + adx + 4000) as i64,
                            x_speed: (adx * 1000 / (params::BOSS3_JUMP_DURATION as int)) as i64,
                            left: false,
                            jump: true,
                            timer: 0i64,
                            ..s
                        },
                        ..keep
                    }
                }
            } else {
                let t = s.timer + delta;
                let x2 = x + spec_tick_dx(s.x_speed as int, delta);
                let y2 = params::BOSS3_GROUND + spec_arc(t);
                if t >= params::BOSS3_JUMP_DURATION {
                    Boss3MoveSpec {
                        state: Boss3State {
                            step: Boss3Step::AfterJump,
                            timer: params::BOSS3_AFTER_JUMP,
                            ..s
                        },
                        x: x2,
                        y: y2,
                        ..keep
                    }
                } else {
                    Boss3MoveSpec {
                        state: Boss3State { timer: t as i64, ..s },
                        x: x2,
                        y: y2,
                        ..keep
                    }
                }
            }
        },
        Boss3Step::AfterJump => {
            let t = s.timer - delta;
            if t <= 0 {
                if s.hp > 6 {
                    Boss3MoveSpec {
                        state: Boss3State {
                            step: Boss3Step::Step2,
                            jump: false,
                            timer: clamp_timer(t) as i64,
                            ..s
                        },
                        ..keep
                    }
                } else {
                    Boss3MoveSpec {
                        state: Boss3State {
                            step: Boss3Step::BeforeDash,
                            jump: false,
                            timer: 0i64,
                            ..s
                        },
                        anim: Some(AnimStep::Dash),
                        ..keep
                    }
                }
            } else {
                Boss3MoveSpec { state: Boss3State { timer: t as i64, ..s }, ..keep }
            }
        },
        Boss3Step::BeforeDash => {
            let x2 = if x < params::BOSS3_X {
                x + 500
            } else {
                x - 500
            };
            if -1000 < x2 - params::BOSS3_X < 1000 {
                Boss3MoveSpec {
                    state: Boss3State { step: Boss3Step::Step3, timer: 0i64, ..s },
                    x: x2,
                    grant_size_l: true,
                    ..keep
                }
            } else {
                Boss3MoveSpec { x: x2, ..keep }
            }
        },
        Boss3Step::Step3 => {
            let t = clamp_timer(s.timer + delta);
            Boss3MoveSpec {
                state: Boss3State { timer: t as i64, ..s },
                x: params::BOSS3_X + spec_sweep(t),
                ..keep
            }
        },
    }
}

/// What one final-boss tick asks of the world around it.
pub struct Boss3Out {
    pub pos: (i64, i64),
    pub anim: Option<AnimStep>,
    pub spawn_minions: bool,
    pub grant_size_s: bool,
    pub grant_size_l: bool,
    pub hurt: bool,
    pub dead: bool,
    pub newly_defeated: bool,
}

/// One final-boss tick: nothing happens until the fight has started; then
/// the tick's hits land first (per the current step's vulnerability), the
/// step machine advances and moves the boss, and death overrides the
/// animation with a fall. The caller spawns minions, grants sizes, starts
/// the outro and removes colliders exactly as the output says.
pub fn boss3_update(
    state: &mut Boss3State,
    pos: (i64, i64),
    hits: usize,
    started: bool,
    already_defeated: bool,
    inv_empty: bool,
    player_x: i64,
    delta: Millis,
) -> (r: Boss3Out)
    requires
        wf_boss3(*old(state)),
        0 <= delta <= MAX_DELTA,
        -1000000000 <= pos.0 <= 1000000000,
        -1000000000 <= pos.1 <= 1000000000,
        -1000000000 <= player_x <= 1000000000,
    ensures
        wf_boss3(*final(state)),
        !started ==> *final(state) == *old(state) && r.pos == pos && r.anim is None
            && !r.spawn_minions && !r.grant_size_s && !r.grant_size_l && !r.hurt && !r.dead
            && !r.newly_defeated,
        started ==> {
            let (s1, hurt) = spec_boss3_hits(*old(state), hits as nat);
            let mv = spec_boss3_move(s1, pos.0 as int, pos.1 as int, inv_empty, player_x as int, delta as int);
            &&& *final(state) == mv.state
            &&& r.pos == (mv.x as i64, mv.y as i64)
            &&& r.hurt == hurt
            &&& r.spawn_minions == mv.spawn_minions
            &&& r.grant_size_s == mv.grant_size_s
            &&& r.grant_size_l == mv.grant_size_l
            &&& r.dead == (mv.state.hp == 0 || already_defeated)
            &&& r.newly_defeated == (r.dead && !already_defeated)
            &&& (r.dead ==> r.anim == Some(AnimStep::Fall))
            &&& (!r.dead ==> r.anim == mv.anim)
        },
{
    if !started {
        return Boss3Out {
            pos,
            anim: None,
            spawn_minions: false,
            grant_size_s: false,
            grant_size_l: false,
            hurt: false,
            dead: false,
            newly_defeated: false,
        };
    }

    // Damage
    let mut hurt = false;
    let mut i: usize = 0;
    while i < hits
        invariant
            0 <= i <= hits,
            wf_boss3(*state),
            spec_boss3_hits(*old(state), hits as nat) == {
                let (s2, h2) = spec_boss3_hits(*state, (hits - i) as nat);
                (s2, hurt || h2)
            },
        decreases hits - i,
    {
        match state.step {
            Boss3Step::Step2 | Boss3Step::AfterJump => {
                if state.hp > 6 {
                    state.hp = state.hp - 1;
                    hurt = true;
                }
            },
            Boss3Step::Step3 => {
                if state.hp > 0 {
                    state.hp = state.hp - 1;
                    hurt = true;
                }
            },
            _ => {},
        }
        i = i + 1;
    }

    let ghost s1 = *state;
    let ghost mv = spec_boss3_move(
        s1,
        pos.0 as int,
        pos.1 as int,
        inv_empty,
        player_x as int,
        delta as int,
    );

    // Movement
    let mut x = pos.0;
    let mut y = pos.1;
    let mut anim: Option<AnimStep> = None;
    let mut spawn_minions = false;
    let mut grant_size_s = false;
    let mut grant_size_l = false;
    match state.step {
        Boss3Step::Sleep => {
            state.step = Boss3Step::Transform;
            anim = Some(AnimStep::Walk);
        },
        Boss3Step::Transform => {
            state.timer = state.timer + delta;
            if state.timer >= 4000 {
                state.timer = 0;
                state.step = Boss3Step::Step1;
            }
        },
        Boss3Step::Step1 => {
            y = params::BOSS3_GROUND + params::BOSS3_LEVITATION_Y;
            if !state.jump {
                spawn_minions = true;
                state.jump = true;
            } else if inv_empty {
                state.step = Boss3Step::BeforeStep2;
            }
            anim = Some(AnimStep::Prejump);
        },
        Boss3Step::BeforeStep2 => {
            let dy = y - params::BOSS3_GROUND;
            let drop = if dy < params::BOSS3_FALL_SPEED {
                dy
            } else {
                params::BOSS3_FALL_SPEED
            };
            y = y - drop;
            if dy <= 0 {
                state.step = Boss3Step::Step2;
                anim = Some(AnimStep::Jump);
                grant_size_s = true;
            }
        },
        Boss3Step::Step2 => {
            if !state.jump {
                let bx = x - 9500;
                let adx0 = if player_x >= bx {
                    player_x - bx
                } else {
                    bx - player_x
                };
                let adx = if adx0 < params::BOSS3_JUMP_X_MAX {
                    adx0
                } else {
                    params::BOSS3_JUMP_X_MAX
                };
                if player_x < bx {
                    state.x_target = bx - adx - 4000;
                    state.left = true;
                    state.x_speed = -(adx * 1000 / params::BOSS3_JUMP_DURATION);
                } else {
                    state.x_target = bx + adx + 4000;
                    state.left = false;
                    state.x_speed = adx * 1000 / params::BOSS3_JUMP_DURATION;
                }
                state.jump = true;
                state.timer = 0;
            } else {
                state.timer = state.timer + delta;
                let dx = if state.x_speed >= 0 {
                    proof {
                        assert(0 <= state.x_speed * delta <= 100000000) by (nonlinear_arith)
                            requires
                                0 <= state.x_speed <= 100000,
                                0 <= delta <= 1000;
                    }
                    state.x_speed * delta / 1000
                } else {
                    proof {
                        assert(0 <= (-state.x_speed) * delta <= 100000000) by (nonlinear_arith)
                            requires
                                -100000 <= state.x_speed < 0,
                                0 <= delta <= 1000;
                    }
                    -((-state.x_speed) * delta / 1000)
                };
                x = x + dx;
                let d = params::BOSS3_JUMP_DURATION;
                let tc = if state.timer < 0 {
                    0
                } else if state.timer > d {
                    d
                } else {
                    state.timer
                };
                proof {
                    assert(0 <= tc * (d - tc) && tc * (d - tc) <= 750 * 750) by (nonlinear_arith)
                        requires 0 <= tc <= d, d == 750;
                    assert(0 <= 4 * params::BOSS3_JUMP_HEIGHT * tc * (d - tc) <= 64000 * 562500)
                        by (nonlinear_arith)
                        requires 0 <= tc * (d - tc) <= 562500;
                }
                let arc: i64 = 4 * params::BOSS3_JUMP_HEIGHT * tc * (d - tc) / (d * d);
                y = params::BOSS3_GROUND + arc;
                if state.timer >= params::BOSS3_JUMP_DURATION {
                    state.step = Boss3Step::AfterJump;
                    state.timer = params::BOSS3_AFTER_JUMP;
                }
            }
        },
        Boss3Step::AfterJump => {
            state.timer = state.timer - delta;
            if state.timer <= 0 {
                if state.hp > 6 {
                    state.jump = false;
                    state.step = Boss3Step::Step2;
                    if state.timer < -10000 {
                        state.timer = -10000;
                    }
                } else {
                    state.jump = false;
                    state.step = Boss3Step::BeforeDash;
                    state.timer = 0;
                    anim = Some(AnimStep::Dash);
                }
            }
        },
        Boss3Step::BeforeDash => {
            if x < params::BOSS3_X {
                x = x + 500;
            } else {
                x = x - 500;
            }
            let off = x - params::BOSS3_X;
            if -1000 < off && off < 1000 {
                state.step = Boss3Step::Step3;
                state.timer = 0;
                grant_size_l = true;
            }
        },
        Boss3Step::Step3 => {
            state.timer = state.timer + delta;
            if state.timer < -10000 {
                state.timer = -10000;
            }
            if state.timer > 1000000000 {
                state.timer = 1000000000;
            }
            let tnn: i64 = if state.timer < 0 {
                0
            } else {
                state.timer
            };
            let m = tnn % 8000;
            let tri = if m < 4000 {
                m
            } else {
                8000 - m
            };
            x = params::BOSS3_X + (tri - 2000) * 64;
        },
    }
    proof {
        assert(*state == mv.state);
        assert(x as int == mv.x && y as int == mv.y);
        assert(anim == mv.anim);
    }

    let dead = state.hp == 0 || already_defeated;
    let newly = dead && !already_defeated;
    if dead {
        anim = Some(AnimStep::Fall);
    }
    Boss3Out {
        pos: (x, y),
        anim,
        spawn_minions,
        grant_size_s,
        grant_size_l,
        hurt,
        dead,
        newly_defeated: newly,
    }
}

} // verus!
