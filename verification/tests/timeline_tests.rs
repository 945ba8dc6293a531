//! Timeline evaluator behaviour: sequence exhaustion, loop periodicity,
//! exactly-once event delivery, and the missing-rule diagnostic.

use platformer_core::animation::{
    enter_step, evaluate_rule, get_index_for_sequence, get_player_rule, update_index,
    update_timer, AnimStep, AnimationEvent, AnimationRule, EntityTimer, MissingAnimations,
    RuleEval, SeqPart,
};
use platformer_core::entity::EntityID;
use platformer_core::player::PlayerSize;

fn two_step_sequence() -> Vec<SeqPart> {
    vec![
        SeqPart::Frame(7),
        SeqPart::Wait(100),
        SeqPart::Frame(9),
        SeqPart::Wait(50),
    ]
}

#[test]
fn sequence_last_window_shows_last_frame() {
    // Total duration 150; the last step's window is [100, 150).
    let rule = AnimationRule::Sequence(two_step_sequence());
    let mut events = Vec::new();
    // t = D - 1 yields the last step's frame
    assert!(matches!(evaluate_rule(&rule, 149, 5, &mut events), RuleEval::Frame(9)));
    assert!(matches!(evaluate_rule(&rule, 100, 5, &mut events), RuleEval::Frame(9)));
    // inside the first window the first frame shows
    assert!(matches!(evaluate_rule(&rule, 99, 5, &mut events), RuleEval::Frame(7)));
}

#[test]
fn sequence_past_duration_is_exhausted_not_wrapped() {
    let rule = AnimationRule::Sequence(two_step_sequence());
    let mut events = Vec::new();
    // t = D + 1 is exhausted: no silent wraparound
    assert!(matches!(evaluate_rule(&rule, 151, 5, &mut events), RuleEval::Exhausted));
    assert!(matches!(evaluate_rule(&rule, 150, 5, &mut events), RuleEval::Exhausted));
}

#[test]
fn loop_wraps_by_whole_periods() {
    // Period 150: evaluate(t) == evaluate(t + k * 150) for k = 1, 2, 7
    let rule = AnimationRule::Loop(two_step_sequence());
    for t in [0i64, 40, 99, 100, 149] {
        for k in [1i64, 2, 7] {
            let mut e1 = Vec::new();
            let mut e2 = Vec::new();
            let a = evaluate_rule(&rule, t, 0, &mut e1);
            let b = evaluate_rule(&rule, t + k * 150, 0, &mut e2);
            assert_eq!(a, b);
        }
    }
}

#[test]
fn event_fires_exactly_once_across_ticks() {
    // One event at the end of a 100 ms hold; ticks of 30 ms cover
    // [0, 150] without firing it twice or losing it.
    let seq = vec![
        SeqPart::Frame(0),
        SeqPart::WaitAnd(100, AnimationEvent::AttackSwing),
        SeqPart::Frame(1),
        SeqPart::Wait(100),
    ];
    let mut fired = 0;
    let mut t = 0i64;
    while t <= 150 {
        let mut events = Vec::new();
        get_index_for_sequence(t, 30, &seq, &mut events);
        fired += events.len();
        t += 30;
    }
    assert_eq!(fired, 1);
}

#[test]
fn attack_timeline_fires_swing_recoil_over_in_order() {
    // Medium attack holds: 150, 50, 50, 250, 200 — swing at 250,
    // recoil at 500, over at 700.
    let rule = get_player_rule(&AnimStep::Attack, &PlayerSize::M);
    let mut all = Vec::new();
    let mut t = 0i64;
    while t <= 700 {
        let mut events = Vec::new();
        evaluate_rule(&rule, t, 10, &mut events);
        all.extend(events);
        t += 10;
    }
    assert_eq!(
        all,
        vec![
            AnimationEvent::AttackSwing,
            AnimationEvent::AttackRecoil,
            AnimationEvent::AttackOver,
        ]
    );
}

#[test]
fn player_idle_rule_loops_two_frames() {
    let rule = get_player_rule(&AnimStep::Idle, &PlayerSize::M);
    let mut events = Vec::new();
    assert!(matches!(evaluate_rule(&rule, 0, 5, &mut events), RuleEval::Frame(0)));
    assert!(matches!(evaluate_rule(&rule, 900, 5, &mut events), RuleEval::Frame(11)));
    // wraps at 1600
    assert!(matches!(evaluate_rule(&rule, 1700, 5, &mut events), RuleEval::Frame(0)));
    assert!(events.is_empty());
}

#[test]
fn missing_rule_reported_once_and_frame_unchanged() {
    let mut sprite = 42usize;
    let mut missing = MissingAnimations::new();
    let mut events = Vec::new();
    let timer = EntityTimer { t_0: 0, time: 100 };
    // The second boss has no authored timelines: every lookup misses.
    let id = EntityID::Boss2;
    let state = AnimStep::Walk;
    assert!(update_index(&mut sprite, &id, &state, &timer, 5, &mut missing, &mut events).is_ok());
    assert_eq!(sprite, 42);
    assert!(missing.contains(&id, &state));
    // Reported once: a second tick does not add another entry.
    assert!(update_index(&mut sprite, &id, &state, &timer, 5, &mut missing, &mut events).is_ok());
    assert!(!missing.report_once(id, state));
}

#[test]
fn exhausted_sequence_is_a_loud_error() {
    let mut sprite = 3usize;
    let mut missing = MissingAnimations::new();
    let mut events = Vec::new();
    // The player's jump sequence lasts 125 ms; far past it the evaluator
    // reports exhaustion and leaves the frame alone.
    let timer = EntityTimer { t_0: 0, time: 10000 };
    let id = EntityID::Player(PlayerSize::M);
    let r = update_index(&mut sprite, &id, &AnimStep::Jump, &timer, 5, &mut missing, &mut events);
    assert!(r.is_err());
    assert_eq!(sprite, 3);
}

#[test]
fn reentering_same_state_keeps_the_clock() {
    // Idempotence: enter_step to the same state must not reset the clock.
    let mut step = AnimStep::Walk;
    let mut timer = EntityTimer { t_0: 100, time: 340 };
    let changed = enter_step(&mut step, AnimStep::Walk, &mut timer, 700);
    assert!(!changed);
    assert_eq!(timer.t_0, 100);
    assert_eq!(timer.time, 340);
    // A real transition resets it.
    let changed = enter_step(&mut step, AnimStep::Idle, &mut timer, 700);
    assert!(changed);
    assert_eq!(timer.t_0, 700);
    assert_eq!(timer.time, 0);
}

#[test]
fn timers_accumulate_deltas() {
    let mut timer = EntityTimer { t_0: 0, time: 0 };
    update_timer(&mut timer, 16);
    update_timer(&mut timer, 16);
    assert_eq!(timer.time, 32);
}
