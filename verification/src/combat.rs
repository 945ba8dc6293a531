//! The combat event pipeline: the attack state hand-off, the transient
//! sword hit-volume with its already-hit set, and the knockback, hit-stop
//! and hurt timers that damage attaches to entities.

use vstd::prelude::*;

use crate::animation::{AnimStep, AnimationEvent, EntityTimer, Millis};
use crate::entity::Enemy;
use crate::movement::{MAX_DELTA, MAX_STATE_TIME};
use crate::player::PlayerSize;

verus! {

/// One contact reported by the physics backend, in plain values: the other
/// entity, how the contact was resolved, and the contact normal in
/// thousandths of a unit vector.
#[derive(Copy, Clone, Debug)]
pub struct Contact {
    pub other: u64,
    pub converged: bool,
    pub penetrating: bool,
    pub normal_x: i64,
    pub normal_y: i64,
}

/// Whether any converged contact reports a ceiling overhead: a normal
/// pointing down means the jump hit a roof.
pub fn hit_ceiling(contacts: &Vec<Contact>) -> (r: bool)
    ensures
        r == exists|i: int|
            0 <= i < contacts@.len() && (#[trigger] contacts@[i]).converged && contacts@[i].normal_y
                < -500,
{
    let mut i: usize = 0;
    loop
        invariant
            0 <= i <= contacts@.len(),
            forall|k: int|
                0 <= k < i ==> !((#[trigger] contacts@[k]).converged && contacts@[k].normal_y
                    < -500),
        decreases contacts@.len() - i,
    {
        if i >= contacts.len() {
            return false;
        }
        let c = contacts[i];
        if c.converged && c.normal_y < -500 {
            proof {
                assert((contacts@[i as int]).converged && contacts@[i as int].normal_y < -500);
            }
            return true;
        }
        i = i + 1;
    }
}

/// The sword's transient hit-volume: the entities this swing has already
/// hit, each damaged at most once per swing.
pub struct Sword(pub Vec<u64>);

/// A target was struck this tick; `right_dir` carries the swing's facing
/// for the knockback direction.
#[derive(Copy, Clone, Eq, PartialEq, Structural, Debug)]
pub struct Damaged {
    pub entity: u64,
    pub right_dir: bool,
}

/// One tick of hit detection for a live hit-volume: every overlapping
/// target not yet in the already-hit set is recorded there and struck
/// exactly once; targets already in the set are never struck again.
pub fn collide_sword(sword: &mut Sword, overlaps: &Vec<u64>, flip_x: bool) -> (r: Vec<Damaged>)
    ensures
        forall|e: u64| #[trigger]
            final(sword).0@.contains(e) == (old(sword).0@.contains(e) || overlaps@.contains(e)),
        forall|k: int|
            0 <= k < r@.len() ==> overlaps@.contains((#[trigger] r@[k]).entity) && !old(
                sword,
            ).0@.contains(r@[k].entity) && r@[k].right_dir == !flip_x,
        forall|e: u64|
            #[trigger] overlaps@.contains(e) && !old(sword).0@.contains(e) ==> exists|k: int|
                0 <= k < r@.len() && (#[trigger] r@[k]).entity == e,
        forall|a: int, b: int| 0 <= a < b < r@.len() ==> (#[trigger] r@[a]).entity != (
        #[trigger] r@[b]).entity,
{
    let ghost hits0 = sword.0@;
    let mut out: Vec<Damaged> = Vec::new();
    let mut i: usize = 0;
    loop
        invariant
            0 <= i <= overlaps@.len(),
            hits0 == old(sword).0@,
            forall|e: u64| #[trigger]
                sword.0@.contains(e) == (hits0.contains(e) || overlaps@.subrange(
                    0,
                    i as int,
                ).contains(e)),
            forall|k: int|
                0 <= k < out@.len() ==> overlaps@.subrange(0, i as int).contains(
                    (#[trigger] out@[k]).entity,
                ) && !hits0.contains(out@[k].entity) && out@[k].right_dir == !flip_x,
            forall|e: u64|
                #[trigger] overlaps@.subrange(0, i as int).contains(e) && !hits0.contains(e)
                    ==> exists|k: int| 0 <= k < out@.len() && (#[trigger] out@[k]).entity == e,
            forall|a: int, b: int| 0 <= a < b < out@.len() ==> (#[trigger] out@[a]).entity != (
            #[trigger] out@[b]).entity,
        decreases overlaps@.len() - i,
    {
        if i >= overlaps.len() {
            proof {
                assert(overlaps@.subrange(0, i as int) =~= overlaps@);
            }
            return out;
        }
        let e = overlaps[i];
        let ghost pre = overlaps@.subrange(0, i as int);
        proof {
            assert(overlaps@.subrange(0, i + 1) =~= pre.push(e));
            assert forall|x: u64| #[trigger]
                pre.push(e).contains(x) == (pre.contains(x) || x == e) by {
                if pre.push(e).contains(x) {
                    let k = choose|k: int| 0 <= k < pre.push(e).len() && pre.push(e)[k] == x;
                    if k < pre.len() {
                        assert(pre[k] == x);
                    }
                }
                if pre.contains(x) {
                    let k = choose|k: int| 0 <= k < pre.len() && pre[k] == x;
                    assert(pre.push(e)[k] == x);
                }
                assert(pre.push(e)[pre.len() as int] == e);
            }
        }
        if !sword_contains(sword, e) {
            let ghost hits_before = sword.0@;
            let ghost out_before = out@;
            sword.0.push(e);
            out.push(Damaged { entity: e, right_dir: !flip_x });
            proof {
                assert forall|x: u64| #[trigger]
                    sword.0@.contains(x) == (hits_before.contains(x) || x == e) by {
                    if sword.0@.contains(x) {
                        let k = choose|k: int| 0 <= k < sword.0@.len() && sword.0@[k] == x;
                        if k < hits_before.len() {
                            assert(hits_before[k] == x);
                        }
                    }
                    if hits_before.contains(x) {
                        let k = choose|k: int|
                            0 <= k < hits_before.len() && hits_before[k] == x;
                        assert(sword.0@[k] == x);
                    }
                    assert(sword.0@[hits_before.len() as int] == e);
                }
                assert(out@[out_before.len() as int].entity == e);
                assert(overlaps@.subrange(0, i + 1).contains(e)) by {
                    assert(overlaps@.subrange(0, i + 1)[i as int] == e);
                }
                assert forall|x: u64|
                    #[trigger] overlaps@.subrange(0, i + 1).contains(x) && !hits0.contains(x)
                        implies exists|k: int|
                        0 <= k < out@.len() && (#[trigger] out@[k]).entity == x by {
                    if x == e {
                        assert(out@[out_before.len() as int].entity == x);
                    } else {
                        assert(pre.contains(x));
                        let k = choose|k: int|
                            0 <= k < out_before.len() && (#[trigger] out_before[k]).entity == x;
                        assert(out@[k].entity == x);
                    }
                }
                assert forall|k: int|
                    0 <= k < out@.len() implies overlaps@.subrange(0, i + 1).contains(
                        (#[trigger] out@[k]).entity,
                    ) && !hits0.contains(out@[k].entity) && out@[k].right_dir == !flip_x by {
                    if k < out_before.len() {
                        assert(out@[k] == out_before[k]);
                        assert(pre.contains(out_before[k].entity));
                    } else {
                        assert(out@[k].entity == e);
                        assert(!hits_before.contains(e));
                    }
                }
                assert forall|a: int, b: int|
                    0 <= a < b < out@.len() implies (#[trigger] out@[a]).entity != (
                #[trigger] out@[b]).entity by {
                    if b == out@.len() - 1 {
                        assert(out@[a] == out_before[a]);
                        assert(pre.contains(out_before[a].entity) || hits_before.contains(
                            out_before[a].entity,
                        ));
                        assert(!hits_before.contains(e));
                    }
                }
            }
        } else {
            proof {
                assert forall|x: u64|
                    #[trigger] overlaps@.subrange(0, i + 1).contains(x) && !hits0.contains(x)
                        implies exists|k: int|
                        0 <= k < out@.len() && (#[trigger] out@[k]).entity == x by {
                    if x == e {
                        assert(sword.0@.contains(e));
                        assert(pre.contains(e));
                    } else {
                        assert(pre.contains(x));
                    }
                }
            }
        }
        i = i + 1;
    }
}

fn sword_contains(sword: &Sword, e: u64) -> (r: bool)
    ensures
        r == sword.0@.contains(e),
{
    let mut i: usize = 0;
    loop
        invariant
            0 <= i <= sword.0@.len(),
            forall|k: int| 0 <= k < i ==> sword.0@[k] != e,
        decreases sword.0@.len() - i,
    {
        if i >= sword.0.len() {
            proof {
                assert(!sword.0@.contains(e));
            }
            return false;
        }
        if sword.0[i] == e {
            proof {
                assert(sword.0@[i as int] == e);
            }
            return true;
        }
        i = i + 1;
    }
}

/// The already-hit sets a swing accumulates over a run of ticks, as sets.
pub open spec fn hits_after(h: Set<u64>, overlaps: Set<u64>) -> Set<u64> {
    h.union(overlaps)
}

/// How many of a run of ticks strike target `e`, starting from the
/// already-hit set `h`.
pub open spec fn strike_count(h: Set<u64>, ticks: Seq<Set<u64>>, e: u64) -> int
    decreases ticks.len(),
{
    if ticks.len() == 0 {
        0
    } else {
        (if ticks[0].contains(e) && !h.contains(e) {
            1int
        } else {
            0int
        }) + strike_count(hits_after(h, ticks[0]), ticks.skip(1), e)
    }
}

/// At most one damage per swing per target: over any run of ticks of one
/// hit-volume — each striking exactly the overlapping targets not yet in
/// the already-hit set, as `collide_sword` ensures — a given target is
/// struck at most once, and never if it was in the set to begin with.
pub proof fn lemma_at_most_one_damage(h: Set<u64>, ticks: Seq<Set<u64>>, e: u64)
    ensures
        strike_count(h, ticks, e) <= 1,
        h.contains(e) ==> strike_count(h, ticks, e) == 0,
    decreases ticks.len(),
{
    if ticks.len() == 0 {
    } else {
        lemma_at_most_one_damage(hits_after(h, ticks[0]), ticks.skip(1), e);
        if ticks[0].contains(e) {
            assert(hits_after(h, ticks[0]).contains(e));
        }
    }
}

/// Attack input and the attack-over hand-off: an attack pre-empts every
/// other state until its timeline fires the completion event, which exits
/// to idle or to a fall by the grounded report. Any real transition resets
/// the entity's clock.
pub fn attack(
    step: &mut AnimStep,
    timer: &mut EntityTimer,
    now: Millis,
    grounded: bool,
    just_attack: bool,
    events: &Vec<AnimationEvent>,
)
    ensures
        *final(step) == spec_attack_step(*old(step), grounded, just_attack, events@),
        spec_attack_changed(*old(step), grounded, just_attack, events@) ==> final(timer).t_0
            == now && final(timer).time == 0,
        !spec_attack_changed(*old(step), grounded, just_attack, events@) ==> *final(timer)
            == *old(timer),
{
    let s0 = *step;
    let mut changed = false;
    if just_attack && *step != AnimStep::Attack {
        *step = AnimStep::Attack;
        changed = true;
    }
    let ghost s1 = *step;
    let mut i: usize = 0;
    while i < events.len()
        invariant
            0 <= i <= events@.len(),
            s1 == (if just_attack && s0 != AnimStep::Attack {
                AnimStep::Attack
            } else {
                s0
            }),
            *timer == *old(timer),
            events@.subrange(0, i as int).contains(AnimationEvent::AttackOver) ==> *step == (
            if grounded {
                AnimStep::Idle
            } else {
                AnimStep::Fall
            }),
            !events@.subrange(0, i as int).contains(AnimationEvent::AttackOver) ==> *step == s1,
            changed == (s1 != s0 || (events@.subrange(0, i as int).contains(
                AnimationEvent::AttackOver,
            ) && (if grounded {
                AnimStep::Idle
            } else {
                AnimStep::Fall
            }) != s1)),
        decreases events@.len() - i,
    {
        let ghost pre = events@.subrange(0, i as int);
        proof {
            assert(events@.subrange(0, i + 1) =~= pre.push(events@[i as int]));
            assert forall|ev: AnimationEvent| #[trigger]
                pre.push(events@[i as int]).contains(ev) == (pre.contains(ev) || ev == events@[i
                as int]) by {
                if pre.push(events@[i as int]).contains(ev) {
                    let k = choose|k: int|
                        0 <= k < pre.push(events@[i as int]).len() && pre.push(
                            events@[i as int],
                        )[k] == ev;
                    if k < pre.len() {
                        assert(pre[k] == ev);
                    }
                }
                if pre.contains(ev) {
                    let k = choose|k: int| 0 <= k < pre.len() && pre[k] == ev;
                    assert(pre.push(events@[i as int])[k] == ev);
                }
                assert(pre.push(events@[i as int])[pre.len() as int] == events@[i as int]);
            }
        }
        if events[i] == AnimationEvent::AttackOver {
            let target = if grounded {
                AnimStep::Idle
            } else {
                AnimStep::Fall
            };
            if *step != target {
                *step = target;
                changed = true;
            }
        }
        i = i + 1;
    }
    proof {
        assert(events@.subrange(0, i as int) =~= events@);
    }
    if changed {
        crate::animation::reset_time(timer, now);
    }
}

/// The attack tick's resulting state: attack input starts an attack unless
/// one is running; the attack-over event then hands control back.
pub open spec fn spec_attack_step(
    s0: AnimStep,
    grounded: bool,
    just_attack: bool,
    events: Seq<AnimationEvent>,
) -> AnimStep {
    let s1 = if just_attack && s0 != AnimStep::Attack {
        AnimStep::Attack
    } else {
        s0
    };
    if events.contains(AnimationEvent::AttackOver) {
        if grounded {
            AnimStep::Idle
        } else {
            AnimStep::Fall
        }
    } else {
        s1
    }
}

/// Whether the attack tick performed any real transition (and so resets
/// the clock).
pub open spec fn spec_attack_changed(
    s0: AnimStep,
    grounded: bool,
    just_attack: bool,
    events: Seq<AnimationEvent>,
) -> bool {
    let s1 = if just_attack && s0 != AnimStep::Attack {
        AnimStep::Attack
    } else {
        s0
    };
    ||| s1 != s0
    ||| (events.contains(AnimationEvent::AttackOver) && (if grounded {
        AnimStep::Idle
    } else {
        AnimStep::Fall
    }) != s1)
}

/// The sword hit-volume's dimensions for a size and facing: offset of the
/// volume's centre from the attacker and its half-extents, milli-pixels.
pub struct SwordSpawn {
    pub offset_x: i64,
    pub offset_y: i64,
    pub half_w: i64,
    pub half_h: i64,
}

pub open spec fn spec_sword_collider(size: PlayerSize, flip: bool) -> (int, int, int, int) {
    let dir: int = if flip {
        -1int
    } else {
        1int
    };
    match size {
        PlayerSize::S => (7000 * dir, 7500int, 4000int, 1500int),
        PlayerSize::M => (14000 * dir, 10500int, 6000int, 2500int),
        PlayerSize::L => (25500 * dir, 19500int, 10500int, 2500int),
    }
}

/// The sword hit-volume sized and offset by the attacker's size and
/// facing.
pub fn sword_collider(size: &PlayerSize, flip: bool) -> (r: SwordSpawn)
    ensures
        (r.offset_x as int, r.offset_y as int, r.half_w as int, r.half_h as int)
            == spec_sword_collider(*size, flip),
{
    let dir: i64 = if flip {
        -1
    } else {
        1
    };
    match size {
        PlayerSize::S => SwordSpawn {
            offset_x: 7000 * dir,
            offset_y: 7500,
            half_w: 4000,
            half_h: 1500,
        },
        PlayerSize::M => SwordSpawn {
            offset_x: 14000 * dir,
            offset_y: 10500,
            half_w: 6000,
            half_h: 2500,
        },
        PlayerSize::L => SwordSpawn {
            offset_x: 25500 * dir,
            offset_y: 19500,
            half_w: 10500,
            half_h: 2500,
        },
    }
}

/// What this tick's timeline events do to the sword volume: the swing
/// event spawns it (with an empty already-hit set), the recoil event
/// retracts it.
pub fn update_sword(events: &Vec<AnimationEvent>, size: &PlayerSize, flip: bool) -> (r: (
    Option<SwordSpawn>,
    bool,
))
    ensures
        r.0 is Some <==> events@.contains(AnimationEvent::AttackSwing),
        (r.0 matches Some(s) ==> (s.offset_x as int, s.offset_y as int, s.half_w as int,
        s.half_h as int) == spec_sword_collider(*size, flip)),
        r.1 <==> events@.contains(AnimationEvent::AttackRecoil),
{
    let mut spawn = false;
    let mut despawn = false;
    let mut i: usize = 0;
    while i < events.len()
        invariant
            0 <= i <= events@.len(),
            spawn == events@.subrange(0, i as int).contains(AnimationEvent::AttackSwing),
            despawn == events@.subrange(0, i as int).contains(AnimationEvent::AttackRecoil),
        decreases events@.len() - i,
    {
        let ghost pre = events@.subrange(0, i as int);
        proof {
            assert(events@.subrange(0, i + 1) =~= pre.push(events@[i as int]));
            assert forall|ev: AnimationEvent|
                pre.push(events@[i as int]).contains(ev) == (pre.contains(ev) || ev == events@[i
                    as int]) by {
                if pre.push(events@[i as int]).contains(ev) {
                    let k = choose|k: int|
                        0 <= k < pre.push(events@[i as int]).len() && pre.push(
                            events@[i as int],
                        )[k] == ev;
                    if k < pre.len() {
                        assert(pre[k] == ev);
                    }
                }
                if pre.contains(ev) {
                    let k = choose|k: int| 0 <= k < pre.len() && pre[k] == ev;
                    assert(pre.push(events@[i as int])[k] == ev);
                }
                assert(pre.push(events@[i as int])[pre.len() as int] == events@[i as int]);
            }
        }
        match events[i] {
            AnimationEvent::AttackSwing => {
                spawn = true;
            },
            AnimationEvent::AttackRecoil => {
                despawn = true;
            },
            _ => {},
        }
        i = i + 1;
    }
    proof {
        assert(events@.subrange(0, i as int) =~= events@);
    }
    if spawn {
        (Some(sword_collider(size, flip)), despawn)
    } else {
        (None, despawn)
    }
}

/// A velocity override that decays linearly to zero over its duration.
/// Velocity components are micro-pixels per second.
pub struct Knockback {
    pub velocity: (i64, i64),
    pub duration: Millis,
    pub time_left: Millis,
}

/// Bounds under which the knockback arithmetic is exact: a positive
/// bounded duration and speeds within one screen per tick.
pub open spec fn wf_knockback(k: Knockback) -> bool {
    &&& 0 < k.duration <= 1000000
    &&& k.time_left <= k.duration
    &&& -1000000000 <= k.velocity.0 <= 1000000000
    &&& -1000000000 <= k.velocity.1 <= 1000000000
}

impl Knockback {
    pub fn new(velocity: (i64, i64), duration: Millis) -> (r: Self)
        ensures
            r.velocity == velocity,
            r.duration == duration,
            r.time_left == duration,
    {
        Knockback { velocity, duration, time_left: duration }
    }
}

/// The linear decay factor for one tick, in doubled nano-pixel units per
/// micro-pixel-second: remaining share of the duration times the tick.
pub open spec fn spec_knockback_scale(time_left: int, duration: int, delta: int) -> int {
    2 * delta * time_left / duration
}

/// One knockback tick: while time remains, the override contributes a
/// displacement scaled by the remaining share of the duration, and the
/// clock runs down; once expired the override reports `None` and the
/// caller detaches it.
pub fn process_knockback(k: &mut Knockback, delta: Millis) -> (r: Option<(i64, i64)>)
    requires
        wf_knockback(*old(k)),
        0 <= delta <= MAX_DELTA,
    ensures
        wf_knockback(*final(k)),
        old(k).time_left > 0 ==> {
            let scale = spec_knockback_scale(
                old(k).time_left as int,
                old(k).duration as int,
                delta as int,
            );
            &&& r == Some(
                (
                    (old(k).velocity.0 * scale) as i64,
                    (old(k).velocity.1 * scale) as i64,
                ),
            )
            &&& final(k).time_left == old(k).time_left - delta
            &&& final(k).velocity == old(k).velocity
            &&& final(k).duration == old(k).duration
        },
        old(k).time_left <= 0 ==> r is None && *final(k) == *old(k),
{
    if k.time_left > 0 {
        proof {
            let tl = k.time_left as int;
            let du = k.duration as int;
            let de = delta as int;
            assert(0 <= 2 * de * tl && 2 * de * tl <= 2000 * du) by (nonlinear_arith)
                requires
                    0 <= de <= 1000,
                    0 < tl <= du;
            assert(0 <= 2 * de * tl / du && 2 * de * tl / du <= 2000) by (nonlinear_arith)
                requires
                    0 < du <= 1000000,
                    0 <= 2 * de * tl <= 2000 * du;
        }
        let scale: i64 = 2 * delta * k.time_left / k.duration;
        proof {
            assert(-2000000000000 <= k.velocity.0 * scale <= 2000000000000)
                by (nonlinear_arith)
                requires
                    -1000000000 <= k.velocity.0 <= 1000000000,
                    0 <= scale <= 2000;
            assert(-2000000000000 <= k.velocity.1 * scale <= 2000000000000)
                by (nonlinear_arith)
                requires
                    -1000000000 <= k.velocity.1 <= 1000000000,
                    0 <= scale <= 2000;
        }
        let r = Some((k.velocity.0 * scale, k.velocity.1 * scale));
        k.time_left = k.time_left - delta;
        r
    } else {
        None
    }
}

/// A global freeze-frame timer: while it runs, every character's per-tick
/// displacement is zeroed, whatever their own state says.
#[derive(Copy, Clone, Debug)]
pub struct HitStop {
    pub time_left: Millis,
}

impl HitStop {
    pub fn new(time_left: Millis) -> (r: Self)
        ensures
            r.time_left == time_left,
    {
        Self { time_left }
    }
}

impl Default for HitStop {
    fn default() -> (r: Self)
        ensures
            r.time_left == 0,
    {
        Self::new(0)
    }
}

/// One hit-stop tick: reports whether motion is frozen this tick and runs
/// the timer down.
pub fn process_hit_stop(hit_stop: &mut HitStop, delta: Millis) -> (freeze: bool)
    requires
        0 <= delta,
        old(hit_stop).time_left > i64::MIN + delta,
    ensures
        freeze == (old(hit_stop).time_left > 0),
        freeze ==> final(hit_stop).time_left == old(hit_stop).time_left - delta,
        !freeze ==> *final(hit_stop) == *old(hit_stop),
{
    if hit_stop.time_left > 0 {
        hit_stop.time_left = hit_stop.time_left - delta;
        true
    } else {
        false
    }
}

/// The hurt timer: blocks repeated damage while it runs and drives the
/// flashing tint.
#[derive(Copy, Clone, Debug)]
pub struct Hurt {
    pub time_left: Millis,
}

impl Hurt {
    pub fn new(time_left: Millis) -> (r: Self)
        ensures
            r.time_left == time_left,
    {
        Self { time_left }
    }
}

impl Default for Hurt {
    fn default() -> (r: Self)
        ensures
            r.time_left == 300,
    {
        Self::new(300)
    }
}

/// One hurt tick: the timer runs down; while it lasts the sprite blinks
/// with a fixed period, and when it expires the tint is cleared and the
/// hurt state detaches.
pub fn process_hurt(hurt: &mut Hurt, delta: Millis) -> (r: (bool, bool))
    requires
        0 <= delta,
        old(hurt).time_left > i64::MIN + delta,
        old(hurt).time_left <= MAX_STATE_TIME,
    ensures
        final(hurt).time_left == old(hurt).time_left - delta,
        r.0 == (final(hurt).time_left <= 0),
        !r.0 ==> r.1 == (final(hurt).time_left % 100 < 50),
        r.0 ==> !r.1,
{
    hurt.time_left = hurt.time_left - delta;
    if hurt.time_left <= 0 {
        (true, false)
    } else {
        (false, hurt.time_left % 100 < 50)
    }
}

/// The player was touched by an enemy: the enemy's stats and the contact
/// normal (thousandths).
#[derive(Copy, Clone, Debug)]
pub struct PlayerHitEvent {
    pub enemy_entity: u64,
    pub enemy: Enemy,
    pub normal_x: i64,
    pub normal_y: i64,
}

/// Applies the first hit of the tick that is not ignored: the player loses
/// one point of health and the knockback and hurt timers to attach are
/// returned. While the player's hurt timer still runs (`hurt_active`) no
/// hit is applied at all: the hurt state blocks repeated damage for its
/// whole duration. A hit is ignored when the enemy spares the player's
/// current size. Velocity components come out in micro-pixels per second.
pub fn player_hit(
    events: &Vec<PlayerHitEvent>,
    ignored: &Vec<bool>,
    hurt_active: bool,
    life: &mut crate::hearts::PlayerLife,
) -> (r: Option<(Knockback, Hurt)>)
    requires
        events@.len() == ignored@.len(),
        forall|i: int| 0 <= i < events@.len() ==> wf_hit(#[trigger] events@[i]),
    ensures
        hurt_active ==> r is None,
        (r is Some) == (!hurt_active && exists|i: int|
            0 <= i < ignored@.len() && !(#[trigger] ignored@[i])),
        (match r {
            Some(pair) => {
                &&& exists|i: int|
                    {
                        &&& 0 <= i < events@.len()
                        &&& !(#[trigger] ignored@[i])
                        &&& (forall|k: int| 0 <= k < i ==> #[trigger] ignored@[k])
                        &&& pair.0.velocity == (
                            (events@[i].normal_x * events@[i].enemy.player_knockback_speed) as i64,
                            (events@[i].normal_y * events@[i].enemy.player_knockback_speed) as i64,
                        )
                        &&& pair.0.duration == events@[i].enemy.player_knockback_time
                        &&& pair.0.time_left == pair.0.duration
                        &&& pair.1.time_left == events@[i].enemy.player_hurt_time
                    }
                &&& final(life).spec_current() == (if old(life).spec_current() >= 1 {
                    (old(life).spec_current() - 1) as usize
                } else {
                    0usize
                })
                &&& final(life).spec_max() == old(life).spec_max()
            },
            None => *final(life) == *old(life),
        }),
{
    if hurt_active {
        return None;
    }
    let mut i: usize = 0;
    loop
        invariant
            !hurt_active,
            events@.len() == ignored@.len(),
            forall|k: int| 0 <= k < events@.len() ==> wf_hit(#[trigger] events@[k]),
            0 <= i <= ignored@.len(),
            forall|k: int| 0 <= k < i ==> #[trigger] ignored@[k],
            *life == *old(life),
        decreases ignored@.len() - i,
    {
        if i >= events.len() {
            return None;
        }
        if !ignored[i] {
            let ev = events[i];
            life.lose();
            proof {
                assert(-1000000000 <= ev.normal_x * ev.enemy.player_knockback_speed
                    <= 1000000000) by (nonlinear_arith)
                    requires
                        -1000 <= ev.normal_x <= 1000,
                        0 <= ev.enemy.player_knockback_speed <= 1000000;
                assert(-1000000000 <= ev.normal_y * ev.enemy.player_knockback_speed
                    <= 1000000000) by (nonlinear_arith)
                    requires
                        -1000 <= ev.normal_y <= 1000,
                        0 <= ev.enemy.player_knockback_speed <= 1000000;
            }
            let kb = Knockback::new(
                (
                    ev.normal_x * ev.enemy.player_knockback_speed,
                    ev.normal_y * ev.enemy.player_knockback_speed,
                ),
                ev.enemy.player_knockback_time,
            );
            let hurt = Hurt::new(ev.enemy.player_hurt_time);
            return Some((kb, hurt));
        }
        i = i + 1;
    }
}

/// A hit event whose normal is a unit vector in thousandths and whose
/// enemy stats are in range.
pub open spec fn wf_hit(e: PlayerHitEvent) -> bool {
    &&& -1000 <= e.normal_x <= 1000
    &&& -1000 <= e.normal_y <= 1000
    &&& 0 <= e.enemy.player_knockback_speed <= 1000000
    &&& 0 < e.enemy.player_knockback_time <= 1000000
    &&& 0 <= e.enemy.player_hurt_time <= 1000000
}

} // verus!
