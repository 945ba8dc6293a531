//! The declarative animation-timeline evaluator.
//!
//! A rule maps the elapsed time in the owning entity's current state to a
//! sprite frame index, and emits each step's event exactly once, at the tick
//! whose window `(time - delta, time]` crosses the step's end.

use vstd::prelude::*;

use crate::entity::EntityID;
use crate::player::PlayerSize;

verus! {

/// Sprite frame index inside the entity's atlas.
pub type Index = usize;

/// Engine time: integer milliseconds.
pub type Millis = i64;

/// One-shot gameplay cues fired from timelines at specific timestamps.
#[derive(Copy, Clone, Eq, PartialEq, Structural, Debug)]
pub enum AnimationEvent {
    AttackSwing,
    AttackRecoil,
    AttackOver,
}

/// A piece of a timeline: show a frame, or hold for a duration, optionally
/// firing an event when the hold's window is exited.
#[derive(Copy, Clone, Eq, PartialEq, Structural, Debug)]
pub enum SeqPart {
    Frame(Index),
    Wait(Millis),
    WaitAnd(Millis, AnimationEvent),
}

/// Elapsed-time-in-current-state clock, one per animated entity.
///
/// `t_0` is the tick timestamp at which the current state was entered and
/// `time` the milliseconds spent in it, so `t_0 + time` is always the
/// current tick timestamp.
#[derive(Copy, Clone, Debug)]
pub struct EntityTimer {
    pub t_0: Millis,
    pub time: Millis,
}

impl EntityTimer {
    pub fn new() -> (r: Self)
        ensures
            r.t_0 == 0 && r.time == 0,
    {
        EntityTimer { t_0: 0, time: 0 }
    }
}

/// State of a character; drives both motion and animation lookup.
#[derive(Copy, Clone, Eq, PartialEq, Structural, Debug, Hash)]
pub enum AnimStep {
    Idle,
    Walk,
    Prejump,
    Jump,
    Fall,
    Dash,
    Land,
    Attack,
}

impl Default for AnimStep {
    fn default() -> (r: Self)
        ensures
            r == AnimStep::Idle,
    {
        AnimStep::Idle
    }
}

impl AnimStep {
    pub fn is_jumping(&self) -> (r: bool)
        ensures
            r == (*self == AnimStep::Prejump || *self == AnimStep::Jump
                || *self == AnimStep::Dash),
    {
        *self == AnimStep::Prejump || *self == AnimStep::Jump || *self == AnimStep::Dash
    }
}

/// Resets the clock at a state change; `t_0` becomes the current timestamp.
pub fn reset_time(e: &mut EntityTimer, now: Millis)
    ensures
        final(e).t_0 == now && final(e).time == 0,
{
    e.t_0 = now;
    e.time = 0;
}

/// Advances the clock by one tick's delta.
pub fn update_timer(e: &mut EntityTimer, delta: Millis)
    requires
        0 <= delta,
        old(e).time + delta <= i64::MAX,
    ensures
        final(e).time == old(e).time + delta,
        final(e).t_0 == old(e).t_0,
{
    e.time = e.time + delta;
}

/// Writes `new` into `step`; the clock resets exactly when this is a real
/// transition. Re-entering the current state keeps the clock running.
pub fn enter_step(step: &mut AnimStep, new: AnimStep, timer: &mut EntityTimer, now: Millis) -> (changed: bool)
    ensures
        *final(step) == new,
        changed == (new != *old(step)),
        changed ==> final(timer).t_0 == now && final(timer).time == 0,
        !changed ==> *final(timer) == *old(timer),
{
    if new != *step {
        *step = new;
        reset_time(timer, now);
        true
    } else {
        false
    }
}

/// The declarative shape of a timeline.
pub enum AnimationRule {
    /// A single frame, forever; no events.
    Still(Index),
    /// Played once; evaluating past the total duration is an authoring bug.
    Sequence(Vec<SeqPart>),
    /// Wraps modulo its total duration; never exhausts.
    Loop(Vec<SeqPart>),
    /// No timeline authored for this entity and state.
    Missing,
}

/// Milliseconds a part holds the timeline.
pub open spec fn part_wait(p: SeqPart) -> int {
    match p {
        SeqPart::Frame(_) => 0,
        SeqPart::Wait(d) => d as int,
        SeqPart::WaitAnd(d, _) => d as int,
    }
}

/// Total duration of a timeline: the sum of its holds.
pub open spec fn total_duration(s: Seq<SeqPart>) -> int
    decreases s.len(),
{
    if s.len() == 0 {
        0
    } else {
        part_wait(s[0]) + total_duration(s.skip(1))
    }
}

/// A single hold no longer than this keeps every cumulative sum small.
pub const MAX_PART_WAIT: i64 = 1000000;

/// Well-formed timeline parts: short nonnegative holds, and a frame set
/// before the first hold so evaluation always has a frame to show.
pub open spec fn wf_parts(s: Seq<SeqPart>) -> bool {
    &&& s.len() >= 1
    &&& s.len() <= 64
    &&& (forall|i: int| 0 <= i < s.len() ==> 0 <= #[trigger] part_wait(s[i]) <= MAX_PART_WAIT)
    &&& s[0] is Frame
}

/// The frame shown at `t` milliseconds into the timeline, with `cur` the
/// frame on display when the timeline began: walk the parts, keeping the
/// latest frame, until a hold reaches past `t`.
pub open spec fn frame_at(s: Seq<SeqPart>, t: int, cur: Option<Index>) -> Option<Index>
    decreases s.len(),
{
    if s.len() == 0 {
        cur
    } else {
        match s[0] {
            SeqPart::Frame(i) => frame_at(s.skip(1), t, Some(i)),
            SeqPart::Wait(d) => if t < d { cur } else { frame_at(s.skip(1), t - d, cur) },
            SeqPart::WaitAnd(d, _) => if t < d { cur } else { frame_at(s.skip(1), t - d, cur) },
        }
    }
}

/// The events of holds whose end lies in the window `(lo, hi]`.
pub open spec fn events_between(s: Seq<SeqPart>, lo: int, hi: int) -> Seq<AnimationEvent>
    decreases s.len(),
{
    if s.len() == 0 {
        Seq::empty()
    } else {
        match s[0] {
            SeqPart::Frame(_) => events_between(s.skip(1), lo, hi),
            SeqPart::Wait(d) => events_between(s.skip(1), lo - d, hi - d),
            SeqPart::WaitAnd(d, e) => {
                let rest = events_between(s.skip(1), lo - d, hi - d);
                if lo < d && d <= hi {
                    seq![e] + rest
                } else {
                    rest
                }
            },
        }
    }
}

proof fn lemma_total_duration_bounds(s: Seq<SeqPart>)
    requires
        forall|i: int| 0 <= i < s.len() ==> 0 <= #[trigger] part_wait(s[i]) <= MAX_PART_WAIT,
    ensures
        0 <= total_duration(s) <= s.len() * MAX_PART_WAIT,
    decreases s.len(),
{
    if s.len() == 0 {
    } else {
        assert(part_wait(s[0]) <= MAX_PART_WAIT);
        lemma_total_duration_bounds(s.skip(1));
        assert(s.len() * MAX_PART_WAIT == (s.len() - 1) * MAX_PART_WAIT + MAX_PART_WAIT)
            by (nonlinear_arith);
    }
}

/// Walks a timeline: returns the frame on display at `time`, and appends to
/// `events` every event whose hold ends inside this tick's window
/// `(time - delta, time]` — each is therefore delivered exactly once across
/// ticks whose windows partition the elapsed time.
pub fn get_index_for_sequence(
    time: Millis,
    delta: Millis,
    seq: &Vec<SeqPart>,
    events: &mut Vec<AnimationEvent>,
) -> (r: Option<Index>)
    requires
        0 <= time,
        0 <= delta,
        wf_parts(seq@),
    ensures
        r == frame_at(seq@, time as int, None::<Index>),
        final(events)@ == old(events)@ + events_between(seq@, time - delta, time as int),
{
    let ghost s = seq@;
    let mut acc: i64 = 0;
    let mut cur: Option<Index> = None;
    let mut i: usize = 0;
    proof {
        assert(s.skip(0) =~= s);
    }
    loop
        invariant
            wf_parts(s),
            seq@ == s,
            0 <= time,
            0 <= delta,
            0 <= i <= s.len(),
            0 <= acc <= i * MAX_PART_WAIT,
            acc <= time,
            frame_at(s, time as int, None::<Index>) == frame_at(
                s.skip(i as int),
                time - acc,
                cur,
            ),
            old(events)@ + events_between(s, time - delta, time as int) == events@
                + events_between(s.skip(i as int), time - delta - acc, time - acc),
        decreases s.len() - i,
    {
        if i >= seq.len() {
            proof {
                assert(s.skip(i as int) =~= Seq::<SeqPart>::empty());
                assert(old(events)@ + events_between(s, time - delta, time as int) =~= events@);
            }
            return cur;
        }
        let ghost rest = s.skip(i as int);
        proof {
            assert(rest[0] == s[i as int]);
            assert(rest.skip(1) =~= s.skip(i + 1));
            assert(0 <= part_wait(s[i as int]) <= MAX_PART_WAIT);
            assert(i * MAX_PART_WAIT + MAX_PART_WAIT == (i + 1) * MAX_PART_WAIT)
                by (nonlinear_arith);
            assert(forall|j: int|
                0 <= j < rest.skip(1).len() ==> 0 <= #[trigger] part_wait(rest.skip(1)[j]));
        }
        match seq[i] {
            SeqPart::Frame(f) => {
                cur = Some(f);
            },
            SeqPart::Wait(d) => {
                let end = acc + d;
                if time < end {
                    proof {
                        lemma_events_empty_when_past(rest.skip(1), time - delta - end, time - end);
                        assert(events_between(rest, time - delta - acc, time - acc)
                            =~= Seq::<AnimationEvent>::empty());
                        assert(old(events)@ + events_between(s, time - delta, time as int)
                            =~= events@);
                    }
                    return cur;
                }
                acc = end;
            },
            SeqPart::WaitAnd(d, e) => {
                let end = acc + d;
                if time < end {
                    proof {
                        lemma_events_empty_when_past(rest.skip(1), time - delta - end, time - end);
                        assert(events_between(rest, time - delta - acc, time - acc)
                            =~= Seq::<AnimationEvent>::empty());
                        assert(old(events)@ + events_between(s, time - delta, time as int)
                            =~= events@);
                    }
                    return cur;
                }
                if time - delta < end {
                    events.push(e);
                    proof {
                        assert(events_between(rest, time - delta - acc, time - acc)
                            =~= seq![e] + events_between(
                            rest.skip(1),
                            time - delta - end,
                            time - end,
                        ));
                    }
                }
                acc = end;
            },
        }
        i = i + 1;
    }
}

/// The shape of a rule at the specification level.
pub enum RuleSpec {
    Still(Index),
    Sequence(Seq<SeqPart>),
    Loop(Seq<SeqPart>),
    Missing,
}

impl View for AnimationRule {
    type V = RuleSpec;

    open spec fn view(&self) -> RuleSpec {
        match self {
            AnimationRule::Still(i) => RuleSpec::Still(*i),
            AnimationRule::Sequence(v) => RuleSpec::Sequence(v@),
            AnimationRule::Loop(v) => RuleSpec::Loop(v@),
            AnimationRule::Missing => RuleSpec::Missing,
        }
    }
}

/// A rule the evaluator accepts: well-formed parts, and a positive period
/// for loops so the modulo is meaningful.
pub open spec fn wf_rule(r: RuleSpec) -> bool {
    match r {
        RuleSpec::Still(_) => true,
        RuleSpec::Sequence(s) => wf_parts(s),
        RuleSpec::Loop(s) => wf_parts(s) && total_duration(s) > 0,
        RuleSpec::Missing => true,
    }
}

/// The frame a rule shows at `t`: `None` means the rule is missing or the
/// sequence is exhausted, and the displayed frame must stay unchanged.
pub open spec fn rule_frame(r: RuleSpec, t: int) -> Option<Index> {
    match r {
        RuleSpec::Still(i) => Some(i),
        RuleSpec::Sequence(s) => if t < total_duration(s) {
            frame_at(s, t, None::<Index>)
        } else {
            None
        },
        RuleSpec::Loop(s) => frame_at(s, t % total_duration(s), None::<Index>),
        RuleSpec::Missing => None,
    }
}

/// The events a rule fires during the tick that moved its clock to `t` by
/// `delta`; loops fire by their wrapped clock.
pub open spec fn rule_events(r: RuleSpec, t: int, delta: int) -> Seq<AnimationEvent> {
    match r {
        RuleSpec::Still(_) => Seq::empty(),
        RuleSpec::Sequence(s) => events_between(s, t - delta, t),
        RuleSpec::Loop(s) => events_between(
            s,
            t % total_duration(s) - delta,
            t % total_duration(s),
        ),
        RuleSpec::Missing => Seq::empty(),
    }
}

/// A timeline whose hold at `w` is positive lasts a positive time.
proof fn lemma_total_duration_pos(s: Seq<SeqPart>, w: int)
    requires
        forall|i: int| 0 <= i < s.len() ==> 0 <= #[trigger] part_wait(s[i]) <= MAX_PART_WAIT,
        0 <= w < s.len(),
        part_wait(s[w]) > 0,
    ensures
        total_duration(s) > 0,
    decreases s.len(),
{
    lemma_total_duration_bounds(s.skip(1));
    if w == 0 {
    } else {
        assert(s.skip(1)[w - 1] == s[w]);
        lemma_total_duration_pos(s.skip(1), w - 1);
    }
}

/// Once a frame is on display, walking a timeline always leaves one on
/// display.
proof fn lemma_frame_at_some(s: Seq<SeqPart>, t: int, i: Index)
    ensures
        frame_at(s, t, Some(i)) is Some,
    decreases s.len(),
{
    if s.len() == 0 {
    } else {
        match s[0] {
            SeqPart::Frame(f) => lemma_frame_at_some(s.skip(1), t, f),
            SeqPart::Wait(d) => {
                if t >= d {
                    lemma_frame_at_some(s.skip(1), t - d, i);
                }
            },
            SeqPart::WaitAnd(d, _) => {
                if t >= d {
                    lemma_frame_at_some(s.skip(1), t - d, i);
                }
            },
        }
    }
}

/// A well-formed timeline opens with a frame, so evaluation never comes
/// back empty-handed.
proof fn lemma_wf_frame_at_some(s: Seq<SeqPart>, t: int)
    requires
        wf_parts(s),
    ensures
        frame_at(s, t, None::<Index>) is Some,
{
    match s[0] {
        SeqPart::Frame(f) => {
            lemma_frame_at_some(s.skip(1), t, f);
        },
        SeqPart::Wait(_) => {
            assert(false);
        },
        SeqPart::WaitAnd(_, _) => {
            assert(false);
        },
    }
}

/// Adds up a timeline's holds.
fn sum_waits(seq: &Vec<SeqPart>) -> (r: i64)
    requires
        seq@.len() <= 64,
        forall|i: int| 0 <= i < seq@.len() ==> 0 <= #[trigger] part_wait(seq@[i]) <= MAX_PART_WAIT,
    ensures
        r == total_duration(seq@),
{
    let ghost s = seq@;
    let mut acc: i64 = 0;
    let mut i: usize = 0;
    proof {
        assert(s.skip(0) =~= s);
        lemma_total_duration_bounds(s);
    }
    loop
        invariant
            seq@ == s,
            s.len() <= 64,
            forall|j: int| 0 <= j < s.len() ==> 0 <= #[trigger] part_wait(s[j]) <= MAX_PART_WAIT,
            0 <= i <= s.len(),
            0 <= acc <= i * MAX_PART_WAIT,
            acc + total_duration(s.skip(i as int)) == total_duration(s),
        decreases s.len() - i,
    {
        if i >= seq.len() {
            proof {
                assert(s.skip(i as int) =~= Seq::<SeqPart>::empty());
            }
            return acc;
        }
        let ghost rest = s.skip(i as int);
        proof {
            assert(rest[0] == s[i as int]);
            assert(rest.skip(1) =~= s.skip(i + 1));
            assert(0 <= part_wait(s[i as int]) <= MAX_PART_WAIT);
            assert(i * MAX_PART_WAIT + MAX_PART_WAIT == (i + 1) * MAX_PART_WAIT)
                by (nonlinear_arith);
        }
        match seq[i] {
            SeqPart::Frame(_) => {},
            SeqPart::Wait(d) => {
                acc = acc + d;
            },
            SeqPart::WaitAnd(d, _) => {
                acc = acc + d;
            },
        }
        i = i + 1;
    }
}

/// What evaluating a rule at a tick produced.
#[derive(Copy, Clone, Eq, PartialEq, Structural, Debug)]
pub enum RuleEval {
    /// Show this frame.
    Frame(Index),
    /// A play-once timeline was evaluated past its total duration: a
    /// data-authoring bug that must be surfaced loudly.
    Exhausted,
    /// No timeline is authored for this entity and state.
    MissingRule,
}

/// Evaluates one rule at `time`, appending the tick's events.
pub fn evaluate_rule(
    rule: &AnimationRule,
    time: Millis,
    delta: Millis,
    events: &mut Vec<AnimationEvent>,
) -> (r: RuleEval)
    requires
        0 <= time,
        0 <= delta,
        wf_rule(rule@),
    ensures
        final(events)@ == old(events)@ + rule_events(rule@, time as int, delta as int),
        (match rule@ {
            RuleSpec::Still(i) => r == RuleEval::Frame(i),
            RuleSpec::Sequence(s) => if time < total_duration(s) {
                r == RuleEval::Frame(frame_at(s, time as int, None::<Index>).unwrap())
            } else {
                r == RuleEval::Exhausted
            },
            RuleSpec::Loop(s) => r == RuleEval::Frame(
                frame_at(s, time as int % total_duration(s), None::<Index>).unwrap(),
            ),
            RuleSpec::Missing => r == RuleEval::MissingRule,
        }),
{
    match rule {
        AnimationRule::Still(i) => {
            proof {
                assert(events@ + Seq::<AnimationEvent>::empty() =~= events@);
            }
            RuleEval::Frame(*i)
        },
        AnimationRule::Sequence(v) => {
            let idx = get_index_for_sequence(time, delta, v, events);
            let d = sum_waits(v);
            if time < d {
                proof {
                    lemma_wf_frame_at_some(v@, time as int);
                }
                match idx {
                    Some(i) => RuleEval::Frame(i),
                    None => {
                        proof {
                            assert(false);
                        }
                        RuleEval::Exhausted
                    },
                }
            } else {
                RuleEval::Exhausted
            }
        },
        AnimationRule::Loop(v) => {
            let d = sum_waits(v);
            let m = time % d;
            let idx = get_index_for_sequence(m, delta, v, events);
            proof {
                lemma_wf_frame_at_some(v@, m as int);
            }
            match idx {
                Some(i) => RuleEval::Frame(i),
                None => {
                    proof {
                        assert(false);
                    }
                    RuleEval::Exhausted
                },
            }
        },
        AnimationRule::Missing => {
            proof {
                assert(events@ + Seq::<AnimationEvent>::empty() =~= events@);
            }
            RuleEval::MissingRule
        },
    }
}

/// Past the current hold, no later hold can end inside the tick window:
/// once `hi < 0`, the remaining timeline contributes no events.
proof fn lemma_events_empty_when_past(s: Seq<SeqPart>, lo: int, hi: int)
    requires
        hi < 0,
        forall|i: int| 0 <= i < s.len() ==> 0 <= #[trigger] part_wait(s[i]),
    ensures
        events_between(s, lo, hi) == Seq::<AnimationEvent>::empty(),
    decreases s.len(),
{
    if s.len() == 0 {
    } else {
        assert(part_wait(s[0]) >= 0);
        assert(forall|i: int|
            0 <= i < s.skip(1).len() ==> 0 <= #[trigger] part_wait(s.skip(1)[i]));
        match s[0] {
            SeqPart::Frame(_) => {
                lemma_events_empty_when_past(s.skip(1), lo, hi);
            },
            SeqPart::Wait(d) => {
                lemma_events_empty_when_past(s.skip(1), lo - d, hi - d);
            },
            SeqPart::WaitAnd(d, _) => {
                lemma_events_empty_when_past(s.skip(1), lo - d, hi - d);
            },
        }
    }
}

/// The player's timeline for each state, tuned per size.
pub open spec fn spec_player_rule(state: AnimStep, size: PlayerSize) -> RuleSpec {
    match state {
        AnimStep::Idle => RuleSpec::Loop(
            seq![
                SeqPart::Frame(0),
                SeqPart::Wait(crate::params::PLAYER_IDLE_INTERFRAME),
                SeqPart::Frame(11),
                SeqPart::Wait(crate::params::PLAYER_IDLE_INTERFRAME),
            ],
        ),
        AnimStep::Walk => RuleSpec::Loop(
            seq![
                SeqPart::Frame(13),
                SeqPart::Wait(crate::params::PLAYER_WALK_INTERFRAME),
                SeqPart::Frame(12),
                SeqPart::Wait(crate::params::PLAYER_WALK_INTERFRAME),
                SeqPart::Frame(14),
                SeqPart::Wait(crate::params::PLAYER_WALK_INTERFRAME),
                SeqPart::Frame(12),
                SeqPart::Wait(crate::params::PLAYER_WALK_INTERFRAME),
            ],
        ),
        AnimStep::Prejump => RuleSpec::Still(5),
        AnimStep::Jump => RuleSpec::Sequence(
            seq![
                SeqPart::Frame(2),
                SeqPart::Wait(crate::params::JUMP_T),
                SeqPart::Frame(3),
            ],
        ),
        AnimStep::Fall => RuleSpec::Sequence(
            seq![
                SeqPart::Frame(4),
                SeqPart::Wait(crate::params::LAND_T),
                SeqPart::Frame(2),
            ],
        ),
        AnimStep::Land => RuleSpec::Still(1),
        AnimStep::Attack => RuleSpec::Sequence(
            seq![
                SeqPart::Frame(6),
                SeqPart::Wait(crate::params::spec_attack_steps(size).0),
                SeqPart::Frame(7),
                SeqPart::Wait(crate::params::spec_attack_steps(size).1),
                SeqPart::Frame(8),
                SeqPart::WaitAnd(
                    crate::params::spec_attack_steps(size).2,
                    AnimationEvent::AttackSwing,
                ),
                SeqPart::Frame(9),
                SeqPart::WaitAnd(
                    crate::params::spec_attack_steps(size).3,
                    AnimationEvent::AttackRecoil,
                ),
                SeqPart::Frame(10),
                SeqPart::WaitAnd(
                    crate::params::spec_attack_steps(size).4,
                    AnimationEvent::AttackOver,
                ),
            ],
        ),
        AnimStep::Dash => RuleSpec::Still(8),
    }
}

pub fn get_player_rule(state: &AnimStep, size: &PlayerSize) -> (r: AnimationRule)
    ensures
        r@ == spec_player_rule(*state, *size),
        wf_rule(r@),
{
    match state {
        AnimStep::Idle => {
            let v: Vec<SeqPart> = vec![
                SeqPart::Frame(0),
                SeqPart::Wait(crate::params::PLAYER_IDLE_INTERFRAME),
                SeqPart::Frame(11),
                SeqPart::Wait(crate::params::PLAYER_IDLE_INTERFRAME),
            ];
            proof {
                assert(wf_parts(v@));
                lemma_total_duration_pos(v@, 1);
            }
            AnimationRule::Loop(v)
        },
        AnimStep::Walk => {
            let v: Vec<SeqPart> = vec![
                SeqPart::Frame(13),
                SeqPart::Wait(crate::params::PLAYER_WALK_INTERFRAME),
                SeqPart::Frame(12),
                SeqPart::Wait(crate::params::PLAYER_WALK_INTERFRAME),
                SeqPart::Frame(14),
                SeqPart::Wait(crate::params::PLAYER_WALK_INTERFRAME),
                SeqPart::Frame(12),
                SeqPart::Wait(crate::params::PLAYER_WALK_INTERFRAME),
            ];
            proof {
                assert(wf_parts(v@));
                lemma_total_duration_pos(v@, 1);
            }
            AnimationRule::Loop(v)
        },
        AnimStep::Prejump => AnimationRule::Still(5),
        AnimStep::Jump => {
            let v: Vec<SeqPart> = vec![
                SeqPart::Frame(2),
                SeqPart::Wait(crate::params::JUMP_T),
                SeqPart::Frame(3),
            ];
            proof {
                assert(wf_parts(v@));
            }
            AnimationRule::Sequence(v)
        },
        AnimStep::Fall => {
            let v: Vec<SeqPart> = vec![
                SeqPart::Frame(4),
                SeqPart::Wait(crate::params::LAND_T),
                SeqPart::Frame(2),
            ];
            proof {
                assert(wf_parts(v@));
            }
            AnimationRule::Sequence(v)
        },
        AnimStep::Land => AnimationRule::Still(1),
        AnimStep::Attack => {
            let steps = crate::params::attack_steps(*size);
            let v: Vec<SeqPart> = vec![
                SeqPart::Frame(6),
                SeqPart::Wait(steps.0),
                SeqPart::Frame(7),
                SeqPart::Wait(steps.1),
                SeqPart::Frame(8),
                SeqPart::WaitAnd(steps.2, AnimationEvent::AttackSwing),
                SeqPart::Frame(9),
                SeqPart::WaitAnd(steps.3, AnimationEvent::AttackRecoil),
                SeqPart::Frame(10),
                SeqPart::WaitAnd(steps.4, AnimationEvent::AttackOver),
            ];
            proof {
                assert(wf_parts(v@));
            }
            AnimationRule::Sequence(v)
        },
        AnimStep::Dash => AnimationRule::Still(8),
    }
}

/// The zombie's timelines.
pub open spec fn spec_zombie_rule(state: AnimStep) -> RuleSpec {
    match state {
        AnimStep::Idle => RuleSpec::Loop(
            seq![
                SeqPart::Frame(0),
                SeqPart::Wait(750),
                SeqPart::Frame(1),
                SeqPart::Wait(750),
            ],
        ),
        _ => RuleSpec::Missing,
    }
}

pub fn get_zombie_rule(state: &AnimStep) -> (r: AnimationRule)
    ensures
        r@ == spec_zombie_rule(*state),
        wf_rule(r@),
{
    match state {
        AnimStep::Idle => {
            let v: Vec<SeqPart> = vec![
                SeqPart::Frame(0),
                SeqPart::Wait(750),
                SeqPart::Frame(1),
                SeqPart::Wait(750),
            ];
            proof {
                assert(wf_parts(v@));
                lemma_total_duration_pos(v@, 1);
            }
            AnimationRule::Loop(v)
        },
        _ => AnimationRule::Missing,
    }
}

/// The detection platform's timelines: a raised and a resting frame.
pub open spec fn spec_platform_rule(state: AnimStep) -> RuleSpec {
    match state {
        AnimStep::Idle => RuleSpec::Still(0),
        AnimStep::Jump => RuleSpec::Still(1),
        _ => RuleSpec::Missing,
    }
}

pub fn get_platform_rule(state: &AnimStep) -> (r: AnimationRule)
    ensures
        r@ == spec_platform_rule(*state),
        wf_rule(r@),
{
    match state {
        AnimStep::Idle => AnimationRule::Still(0),
        AnimStep::Jump => AnimationRule::Still(1),
        _ => AnimationRule::Missing,
    }
}

/// The first boss's timelines.
pub open spec fn spec_boss_1_rule(state: AnimStep) -> RuleSpec {
    match state {
        AnimStep::Idle => RuleSpec::Sequence(
            seq![SeqPart::Frame(1), SeqPart::Wait(200), SeqPart::Frame(0)],
        ),
        AnimStep::Jump => RuleSpec::Sequence(
            seq![
                SeqPart::Frame(1),
                SeqPart::Wait(350),
                SeqPart::Frame(2),
                SeqPart::Wait(350),
                SeqPart::Frame(4),
            ],
        ),
        AnimStep::Prejump => RuleSpec::Loop(
            seq![
                SeqPart::Frame(5),
                SeqPart::Wait(350),
                SeqPart::Frame(6),
                SeqPart::Wait(350),
            ],
        ),
        AnimStep::Fall => RuleSpec::Still(3),
        _ => RuleSpec::Missing,
    }
}

pub fn get_boss_1_rule(state: &AnimStep) -> (r: AnimationRule)
    ensures
        r@ == spec_boss_1_rule(*state),
        wf_rule(r@),
{
    match state {
        AnimStep::Idle => {
            let v: Vec<SeqPart> = vec![
                SeqPart::Frame(1),
                SeqPart::Wait(200),
                SeqPart::Frame(0),
            ];
            proof {
                assert(wf_parts(v@));
            }
            AnimationRule::Sequence(v)
        },
        AnimStep::Jump => {
            let v: Vec<SeqPart> = vec![
                SeqPart::Frame(1),
                SeqPart::Wait(350),
                SeqPart::Frame(2),
                SeqPart::Wait(350),
                SeqPart::Frame(4),
            ];
            proof {
                assert(wf_parts(v@));
            }
            AnimationRule::Sequence(v)
        },
        AnimStep::Prejump => {
            let v: Vec<SeqPart> = vec![
                SeqPart::Frame(5),
                SeqPart::Wait(350),
                SeqPart::Frame(6),
                SeqPart::Wait(350),
            ];
            proof {
                assert(wf_parts(v@));
                lemma_total_duration_pos(v@, 1);
            }
            AnimationRule::Loop(v)
        },
        AnimStep::Fall => AnimationRule::Still(3),
        _ => AnimationRule::Missing,
    }
}

/// Timelines looked up by entity kind and state.
pub open spec fn spec_get_rule(id: EntityID, step: AnimStep) -> RuleSpec {
    match id {
        EntityID::Player(size) => spec_player_rule(step, size),
        EntityID::Zombie(_) => spec_zombie_rule(step),
        EntityID::DetectionPlatform(_) => spec_platform_rule(step),
        EntityID::Boss1 => spec_boss_1_rule(step),
        _ => RuleSpec::Missing,
    }
}

impl EntityID {
    /// The timeline for this entity in the given state.
    pub fn get_rule(&self, step: &AnimStep) -> (r: AnimationRule)
        ensures
            r@ == spec_get_rule(*self, *step),
            wf_rule(r@),
    {
        match self {
            EntityID::Player(size) => get_player_rule(step, size),
            EntityID::Zombie(_) => get_zombie_rule(step),
            EntityID::DetectionPlatform(_) => get_platform_rule(step),
            EntityID::Boss1 => get_boss_1_rule(step),
            _ => AnimationRule::Missing,
        }
    }
}

/// Diagnostic sink for entity/state pairs with no authored timeline:
/// each distinct pair is reported once, and the caller degrades gracefully.
pub struct MissingAnimations {
    seen: Vec<(EntityID, AnimStep)>,
}

impl View for MissingAnimations {
    type V = Seq<(EntityID, AnimStep)>;

    closed spec fn view(&self) -> Seq<(EntityID, AnimStep)> {
        self.seen@
    }
}

impl MissingAnimations {
    pub fn new() -> (r: Self)
        ensures
            r@ == Seq::<(EntityID, AnimStep)>::empty(),
    {
        MissingAnimations { seen: Vec::new() }
    }

    pub fn contains(&self, id: &EntityID, step: &AnimStep) -> (r: bool)
        ensures
            r == self@.contains((*id, *step)),
    {
        let mut j: usize = 0;
        loop
            invariant
                0 <= j <= self.seen@.len(),
                forall|k: int| 0 <= k < j ==> self.seen@[k] != (*id, *step),
            decreases self.seen@.len() - j,
        {
            if j >= self.seen.len() {
                proof {
                    assert(!self@.contains((*id, *step)));
                }
                return false;
            }
            let p = self.seen[j];
            if p.0 == *id && p.1 == *step {
                proof {
                    assert(self.seen@[j as int] == (*id, *step));
                }
                return true;
            }
            proof {
                assert(self.seen@[j as int] != (*id, *step));
            }
            j = j + 1;
        }
    }

    /// Records the pair; says whether it was new. A pair already seen is
    /// left alone, so each misconfiguration is reported exactly once.
    pub fn report_once(&mut self, id: EntityID, step: AnimStep) -> (fresh: bool)
        ensures
            fresh == !old(self)@.contains((id, step)),
            fresh ==> final(self)@ == old(self)@.push((id, step)),
            !fresh ==> final(self)@ == old(self)@,
    {
        if self.contains(&id, &step) {
            false
        } else {
            self.seen.push((id, step));
            true
        }
    }
}

/// A play-once timeline was evaluated past its end: malformed static data,
/// surfaced loudly instead of wrapping around silently.
#[derive(Copy, Clone, Eq, PartialEq, Structural, Debug)]
pub struct SequenceExhausted {
    pub id: EntityID,
    pub state: AnimStep,
}

/// Refreshes one entity's displayed frame from its timeline and clock, and
/// appends the events the tick fired. A missing timeline leaves the frame
/// unchanged and is reported once; an exhausted sequence leaves the frame
/// unchanged and is an error.
pub fn update_index(
    sprite_index: &mut Index,
    id: &EntityID,
    state: &AnimStep,
    timer: &EntityTimer,
    delta: Millis,
    missing: &mut MissingAnimations,
    events: &mut Vec<AnimationEvent>,
) -> (r: Result<(), SequenceExhausted>)
    requires
        0 <= timer.time,
        0 <= delta,
    ensures
        final(events)@ == old(events)@ + rule_events(
            spec_get_rule(*id, *state),
            timer.time as int,
            delta as int,
        ),
        (match rule_frame(spec_get_rule(*id, *state), timer.time as int) {
            Some(i) => *final(sprite_index) == i && r is Ok,
            None => *final(sprite_index) == *old(sprite_index),
        }),
        r is Err <==> (spec_get_rule(*id, *state) matches RuleSpec::Sequence(s)
            && timer.time >= total_duration(s)),
        spec_get_rule(*id, *state) is Missing && !old(missing)@.contains((*id, *state))
            ==> final(missing)@ == old(missing)@.push((*id, *state)),
        spec_get_rule(*id, *state) is Missing && old(missing)@.contains((*id, *state))
            ==> final(missing)@ == old(missing)@,
        !(spec_get_rule(*id, *state) is Missing) ==> final(missing)@ == old(missing)@,
{
    let rule = id.get_rule(state);
    proof {
        match spec_get_rule(*id, *state) {
            RuleSpec::Sequence(s) => {
                if timer.time < total_duration(s) {
                    lemma_wf_frame_at_some(s, timer.time as int);
                }
            },
            RuleSpec::Loop(s) => {
                lemma_wf_frame_at_some(s, timer.time as int % total_duration(s));
            },
            _ => {},
        }
    }
    match evaluate_rule(&rule, timer.time, delta, events) {
        RuleEval::Frame(i) => {
            *sprite_index = i;
            Ok(())
        },
        RuleEval::Exhausted => Err(SequenceExhausted { id: *id, state: *state }),
        RuleEval::MissingRule => {
            missing.report_once(*id, *state);
            Ok(())
        },
    }
}

/// A part that holds the timeline for a while.
pub open spec fn is_hold(p: SeqPart) -> bool {
    !(p is Frame)
}

/// Whether any part of the timeline is a hold.
pub open spec fn has_hold(s: Seq<SeqPart>) -> bool
    decreases s.len(),
{
    s.len() > 0 && (is_hold(s[0]) || has_hold(s.skip(1)))
}

/// The duration of the timeline's final hold: the length of its last
/// step's display window.
pub open spec fn last_wait(s: Seq<SeqPart>) -> int
    decreases s.len(),
{
    if s.len() == 0 {
        0
    } else if has_hold(s.skip(1)) {
        last_wait(s.skip(1))
    } else if is_hold(s[0]) {
        part_wait(s[0])
    } else {
        0
    }
}

proof fn lemma_no_hold_total_zero(s: Seq<SeqPart>)
    requires
        !has_hold(s),
    ensures
        total_duration(s) == 0,
    decreases s.len(),
{
    if s.len() == 0 {
    } else {
        lemma_no_hold_total_zero(s.skip(1));
    }
}

proof fn lemma_last_wait_bounds(s: Seq<SeqPart>)
    requires
        forall|i: int| 0 <= i < s.len() ==> 0 <= #[trigger] part_wait(s[i]) <= MAX_PART_WAIT,
    ensures
        0 <= last_wait(s) <= total_duration(s),
    decreases s.len(),
{
    lemma_total_duration_bounds(s);
    if s.len() == 0 {
    } else {
        assert(part_wait(s[0]) >= 0);
        assert(forall|i: int|
            0 <= i < s.skip(1).len() ==> 0 <= #[trigger] part_wait(s.skip(1)[i]) <= MAX_PART_WAIT);
        lemma_last_wait_bounds(s.skip(1));
        if has_hold(s.skip(1)) {
        } else {
            lemma_no_hold_total_zero(s.skip(1));
        }
    }
}

/// Within the final display window the shown frame does not move.
proof fn lemma_frame_stable_in_last_window(s: Seq<SeqPart>, cur: Option<Index>, t1: int, t2: int)
    requires
        forall|i: int| 0 <= i < s.len() ==> 0 <= #[trigger] part_wait(s[i]) <= MAX_PART_WAIT,
        total_duration(s) - last_wait(s) <= t1 < total_duration(s),
        total_duration(s) - last_wait(s) <= t2 < total_duration(s),
    ensures
        frame_at(s, t1, cur) == frame_at(s, t2, cur),
    decreases s.len(),
{
    if s.len() == 0 {
    } else {
        let tail = s.skip(1);
        assert(forall|i: int|
            0 <= i < tail.len() ==> 0 <= #[trigger] part_wait(tail[i]) <= MAX_PART_WAIT);
        lemma_last_wait_bounds(tail);
        match s[0] {
            SeqPart::Frame(f) => {
                if has_hold(tail) {
                    lemma_frame_stable_in_last_window(tail, Some(f), t1, t2);
                } else {
                    lemma_no_hold_total_zero(tail);
                }
            },
            SeqPart::Wait(d) => {
                if has_hold(tail) {
                    lemma_frame_stable_in_last_window(tail, cur, t1 - d, t2 - d);
                } else {
                    lemma_no_hold_total_zero(tail);
                }
            },
            SeqPart::WaitAnd(d, _) => {
                if has_hold(tail) {
                    lemma_frame_stable_in_last_window(tail, cur, t1 - d, t2 - d);
                } else {
                    lemma_no_hold_total_zero(tail);
                }
            },
        }
    }
}

/// A play-once timeline shows its last step's frame at every instant of
/// that step's window, and no frame at all once its duration has passed:
/// exhaustion is signalled, never a silent wraparound.
pub proof fn lemma_sequence_end(s: Seq<SeqPart>, t1: int, t2: int, t_past: int)
    requires
        wf_parts(s),
        total_duration(s) - last_wait(s) <= t1 < total_duration(s),
        total_duration(s) - last_wait(s) <= t2 < total_duration(s),
        t_past >= total_duration(s),
    ensures
        rule_frame(RuleSpec::Sequence(s), t1) == rule_frame(RuleSpec::Sequence(s), t2),
        rule_frame(RuleSpec::Sequence(s), t1) is Some,
        rule_frame(RuleSpec::Sequence(s), t_past) is None,
{
    lemma_frame_stable_in_last_window(s, None::<Index>, t1, t2);
    lemma_wf_frame_at_some(s, t1);
}

/// A looping timeline is periodic: advancing the clock by any whole number
/// of periods shows the same frame.
pub proof fn lemma_loop_periodic(s: Seq<SeqPart>, t: int, k: int)
    requires
        wf_parts(s),
        total_duration(s) > 0,
        0 <= t,
        0 <= k,
    ensures
        rule_frame(RuleSpec::Loop(s), t + k * total_duration(s)) == rule_frame(
            RuleSpec::Loop(s),
            t,
        ),
{
    let d = total_duration(s);
    vstd::arithmetic::div_mod::lemma_mod_multiples_vanish(k, t, d);
    assert(d * k == k * d) by (nonlinear_arith);
    assert((t + k * d) % d == t % d);
}

/// Adjacent tick windows split a span's events without loss or repetition:
/// every hold whose end lies in `(a, c]` fires in exactly one of the two
/// ticks `(a, b]` and `(b, c]`.
pub proof fn lemma_events_partition(s: Seq<SeqPart>, a: int, b: int, c: int)
    requires
        a <= b <= c,
        forall|i: int| 0 <= i < s.len() ==> 0 <= #[trigger] part_wait(s[i]),
    ensures
        events_between(s, a, c) == events_between(s, a, b) + events_between(s, b, c),
    decreases s.len(),
{
    if s.len() == 0 {
        assert(events_between(s, a, c) =~= events_between(s, a, b) + events_between(s, b, c));
    } else {
        let tail = s.skip(1);
        assert(forall|i: int| 0 <= i < tail.len() ==> 0 <= #[trigger] part_wait(tail[i]));
        match s[0] {
            SeqPart::Frame(_) => {
                lemma_events_partition(tail, a, b, c);
            },
            SeqPart::Wait(d) => {
                lemma_events_partition(tail, a - d, b - d, c - d);
            },
            SeqPart::WaitAnd(d, e) => {
                lemma_events_partition(tail, a - d, b - d, c - d);
                if b < d && d <= c {
                    lemma_events_empty_when_past(tail, a - d, b - d);
                }
                assert(events_between(s, a, c) =~= events_between(s, a, b) + events_between(
                    s,
                    b,
                    c,
                ));
            },
        }
    }
}

} // verus!

