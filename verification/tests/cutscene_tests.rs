//! Cutscene sequencer behaviour: the scripted scenario, skip semantics,
//! the empty-queue no-op, fades and the script triggers.

use std::collections::VecDeque;

use platformer_core::cutscene::{
    cinema_fade_in, cutscene_idle_decay, update, CSEvent, Cutscene,
};
use platformer_core::data::{Flags, GameData};
use platformer_core::hearts::PlayerLife;
use platformer_core::music::BGM;
use platformer_core::scripts::{
    boss_1, boss_2, boss_2_end, boss_3, dash, death, intro, outro, sword_1, sword_2,
    trigger_cutscene,
};

fn fresh_world() -> (GameData, PlayerLife) {
    (GameData::default(), PlayerLife::new(6, 6))
}

#[test]
fn wait_text_fadeout_scenario() {
    // [Wait(1.0s), ShowText("hi"), FadeOut] with no skips, 100 ms ticks.
    let (mut data, mut life) = fresh_world();
    let mut q: VecDeque<CSEvent> = VecDeque::new();
    q.push_back(CSEvent::Wait(1000));
    q.push_back(CSEvent::text_centered("hi".to_owned()));
    q.push_back(CSEvent::fade_out());
    let mut cs = Cutscene::from(q);

    // The wait completes after exactly 1.0 s.
    let mut ticks = 0;
    while cs.len() == 3 {
        update(&mut cs, &mut data, &mut life, false, 100);
        ticks += 1;
        assert!(ticks <= 10);
    }
    assert_eq!(ticks, 10);

    // The text stays until len("hi") * char_time + 2 * fade_time = 920 ms.
    let mut ticks = 0;
    while cs.len() == 2 {
        let out = update(&mut cs, &mut data, &mut life, false, 100);
        let text = out.text.expect("text display");
        assert_eq!(text.content, "hi".to_owned());
        ticks += 1;
        assert!(ticks <= 10);
    }
    assert_eq!(ticks, 10);

    // The fade proceeds until the overlay alpha reaches 1.0.
    let mut last_alpha = 0;
    let mut ticks = 0;
    let mut finished = false;
    while cs.len() == 1 {
        let out = update(&mut cs, &mut data, &mut life, false, 100);
        let a = out.frame_alpha.expect("fade alpha");
        assert!(a >= last_alpha);
        last_alpha = a;
        finished = out.finished;
        ticks += 1;
        assert!(ticks <= 10);
    }
    assert_eq!(ticks, 10);
    assert_eq!(last_alpha, 1000);
    assert!(finished);
}

#[test]
fn fade_alpha_is_the_cubic_ease() {
    // Halfway through a speed-1.0 fade the ease reads 0.125.
    let (mut data, mut life) = fresh_world();
    let mut q: VecDeque<CSEvent> = VecDeque::new();
    q.push_back(CSEvent::FadeOut(400, 1000));
    let mut cs = Cutscene::from(q);
    let out = update(&mut cs, &mut data, &mut life, false, 100);
    // elapsed 500 ms at speed 1.0: (0.5)^3 = 0.125
    assert_eq!(out.frame_alpha, Some(125));
}

#[test]
fn skip_completes_wait_within_the_tick() {
    let (mut data, mut life) = fresh_world();
    let mut q: VecDeque<CSEvent> = VecDeque::new();
    q.push_back(CSEvent::Wait(5000));
    let mut cs = Cutscene::from(q);
    let out = update(&mut cs, &mut data, &mut life, true, 16);
    assert_eq!(cs.len(), 0);
    assert!(out.finished);
}

#[test]
fn skip_completes_fadeout_and_snaps_to_opaque() {
    let (mut data, mut life) = fresh_world();
    let mut q: VecDeque<CSEvent> = VecDeque::new();
    q.push_back(CSEvent::fade_out());
    let mut cs = Cutscene::from(q);
    let out = update(&mut cs, &mut data, &mut life, true, 16);
    assert_eq!(cs.len(), 0);
    // Skipping snaps to the extremum rather than bypassing the effect.
    assert_eq!(out.frame_alpha, Some(1000));
}

#[test]
fn skip_adds_nothing_to_an_instantaneous_step() {
    // SetFlag applies and completes in one tick with or without skip.
    let (mut data, mut life) = fresh_world();
    let mut q: VecDeque<CSEvent> = VecDeque::new();
    q.push_back(CSEvent::AddFlag(Flags::Dash));
    let mut cs = Cutscene::from(q);
    update(&mut cs, &mut data, &mut life, true, 16);
    assert_eq!(cs.len(), 0);
    assert!(data.has_flag(Flags::Dash));

    let (mut data2, mut life2) = fresh_world();
    let mut q2: VecDeque<CSEvent> = VecDeque::new();
    q2.push_back(CSEvent::AddFlag(Flags::Dash));
    let mut cs2 = Cutscene::from(q2);
    update(&mut cs2, &mut data2, &mut life2, false, 16);
    assert_eq!(cs2.len(), 0);
    assert!(data2.has_flag(Flags::Dash));
}

#[test]
fn empty_queue_step_is_a_no_op() {
    let (mut data, mut life) = fresh_world();
    data.set_flag(Flags::Intro);
    let mut cs = Cutscene::from(VecDeque::new());
    let out = update(&mut cs, &mut data, &mut life, true, 16);
    assert_eq!(cs.len(), 0);
    assert!(!out.finished);
    assert!(data.has_flag(Flags::Intro));
    assert_eq!(life.current(), 6);
}

#[test]
fn instantaneous_mutations_apply() {
    let (mut data, mut life) = fresh_world();
    data.set_flag(Flags::Tension);
    let mut q: VecDeque<CSEvent> = VecDeque::new();
    q.push_back(CSEvent::RemoveFlag(Flags::Tension));
    q.push_back(CSEvent::SetLife(2));
    q.push_back(CSEvent::SetRelativeTime(250));
    q.push_back(CSEvent::BGM(BGM::Caves));
    q.push_back(CSEvent::Teleport("z1_start".to_owned()));
    let mut cs = Cutscene::from(q);

    update(&mut cs, &mut data, &mut life, false, 16);
    assert!(!data.has_flag(Flags::Tension));
    update(&mut cs, &mut data, &mut life, false, 16);
    assert_eq!(life.current(), 2);
    let out = update(&mut cs, &mut data, &mut life, false, 16);
    assert_eq!(out.time_factor, Some(250));
    let out = update(&mut cs, &mut data, &mut life, false, 16);
    assert_eq!(out.bgm, Some(BGM::Caves));
    let out = update(&mut cs, &mut data, &mut life, false, 16);
    assert_eq!(out.teleport, Some("z1_start".to_owned()));
    assert!(out.reload);
    assert!(out.finished);
}

#[test]
fn eternal_text_never_completes() {
    let (mut data, mut life) = fresh_world();
    let mut q: VecDeque<CSEvent> = VecDeque::new();
    q.push_back(CSEvent::eternal_text("THE END".to_owned()));
    let mut cs = Cutscene::from(q);
    for _ in 0..100 {
        let out = update(&mut cs, &mut data, &mut life, true, 1000);
        assert!(!out.finished);
    }
    assert_eq!(cs.len(), 1);
}

#[test]
fn cinema_overlay_fades_in_and_decays() {
    let mut alpha = 0i64;
    cinema_fade_in(&mut alpha, 600);
    cinema_fade_in(&mut alpha, 600);
    assert_eq!(alpha, 1000);
    cutscene_idle_decay(&mut alpha, 300);
    assert_eq!(alpha, 700);
    cutscene_idle_decay(&mut alpha, 1000);
    assert_eq!(alpha, 0);
}

#[test]
fn script_lengths() {
    assert_eq!(intro().len(), 61);
    assert_eq!(outro().len(), 15);
    assert_eq!(dash().len(), 5);
    assert_eq!(boss_1().len(), 3);
    assert_eq!(boss_2().len(), 3);
    assert_eq!(boss_2_end().len(), 10);
    assert_eq!(boss_3().len(), 9);
    assert_eq!(death().len(), 9);
    assert_eq!(sword_1().len(), 9);
    assert_eq!(sword_2().len(), 9);
}

#[test]
fn trigger_cutscene_gating() {
    let data = GameData::default();
    // The first sword beat plays only before the small size is unlocked.
    let r = trigger_cutscene(&"sword1".to_owned(), &data);
    let (cs, idle) = r.expect("sword1 fires on fresh data");
    assert!(idle);
    assert_eq!(cs.len(), 9);

    let mut unlocked = GameData::default();
    unlocked.set_flag(Flags::SizeS);
    assert!(trigger_cutscene(&"sword1".to_owned(), &unlocked).is_none());

    // The first boss fires unless started or defeated.
    assert!(trigger_cutscene(&"boss1".to_owned(), &data).is_some());
    let mut started = GameData::default();
    started.set_flag(Flags::Boss1Start);
    assert!(trigger_cutscene(&"boss1".to_owned(), &started).is_none());

    // Unknown ids start nothing.
    assert!(trigger_cutscene(&"sword9".to_owned(), &data).is_none());
}

#[test]
fn sword_script_grants_the_small_size() {
    // Playing the first sword beat through (skipping everything timed)
    // ends with the small size unlocked: the script's content shows.
    let (mut data, mut life) = fresh_world();
    let mut cs = Cutscene::from(sword_1());
    for _ in 0..20 {
        update(&mut cs, &mut data, &mut life, true, 100);
        if cs.len() == 0 {
            break;
        }
    }
    assert_eq!(cs.len(), 0);
    assert!(data.has_flag(Flags::SizeS));
}

#[test]
fn death_script_restores_life_and_reloads() {
    let (mut data, mut life) = fresh_world();
    life.set_current(0);
    let mut cs = Cutscene::from(death());
    let mut reloaded = false;
    for _ in 0..60 {
        let out = update(&mut cs, &mut data, &mut life, false, 100);
        reloaded = reloaded || out.reload;
        if cs.len() == 0 {
            break;
        }
    }
    assert_eq!(cs.len(), 0);
    assert_eq!(life.current(), 6);
    assert!(reloaded);
}
