//! Persisted data, health, levels, music, sizes, bosses and the small
//! world helpers.

use platformer_core::animation::{AnimStep, EntityTimer};
use platformer_core::boss::{
    boss1_eye_frame, boss1_eye_y, boss1_update, boss2_eye_pose, boss2_update, boss3_update,
    Boss1State, Boss2State, Boss2Target, Boss3State, Boss3Step,
};
use platformer_core::data::{name_to_flag, parse_flag, reset, save, Flags, GameData};
use platformer_core::graphics::{Palette, TextStyles};
use platformer_core::entity::{
    get_enemy, get_entity_id, sensor_payload, sensor_transition, sword_should_disappear,
    wall_should_be_present, EntityID,
};
use platformer_core::hearts::{collect_new_heart, die, heart_index, PlayerLife};
use platformer_core::level::{
    check_player_in_checkpoint, Checkpoint, LevelManager, LevelOutline,
};
use platformer_core::music::{bgm_for_level, trigger_bgm, BGM};
use platformer_core::platform::{move_bird, move_platform};
use platformer_core::player::{change_size, size_from_name, PlayerSize};
use platformer_core::vanish::{update_vanish, Vanish};

#[test]
fn flags_set_remove_has() {
    let mut data = GameData::default();
    assert!(!data.has_flag(Flags::Dash));
    data.set_flag(Flags::Dash);
    data.set_flag(Flags::Dash);
    assert!(data.has_flag(Flags::Dash));
    data.set_flag(Flags::SizeS);
    data.remove_flag(Flags::Dash);
    assert!(!data.has_flag(Flags::Dash));
    assert!(data.has_flag(Flags::SizeS));
    reset(&mut data, true);
    assert!(!data.has_flag(Flags::SizeS));
    assert_eq!(*data.last_spawner(), "start".to_owned());
    assert_eq!(data.max_life(), 6);
}

#[test]
fn wall_names_map_to_flags() {
    assert_eq!(name_to_flag(&"Boss1Wall".to_owned()), Some(Flags::Boss1WallPresent));
    assert_eq!(name_to_flag(&"Boss3Wall".to_owned()), Some(Flags::Boss3WallPresent));
    assert_eq!(name_to_flag(&"Gate".to_owned()), None);

    let mut data = GameData::default();
    data.set_flag(Flags::Boss2WallPresent);
    assert_eq!(wall_should_be_present(&"Boss2Wall".to_owned(), &data), Some(true));
    assert_eq!(wall_should_be_present(&"Boss1Wall".to_owned(), &data), Some(false));
    assert_eq!(wall_should_be_present(&"Fence".to_owned(), &data), None);
}

#[test]
fn flag_names_parse() {
    assert_eq!(parse_flag(&"Tension".to_owned()), Some(Flags::Tension));
    assert_eq!(parse_flag(&"Boss3Defeated".to_owned()), Some(Flags::Boss3Defeated));
    assert_eq!(parse_flag(&"SizeL".to_owned()), Some(Flags::SizeL));
    assert_eq!(parse_flag(&"NoSuchFlag".to_owned()), None);
}

#[test]
fn save_folds_changes_in() {
    let mut data = GameData::default();
    save(&mut data, &"z2_mid".to_owned(), 8, true, false);
    assert_eq!(*data.last_spawner(), "z2_mid".to_owned());
    assert_eq!(data.max_life(), 6);
    save(&mut data, &"ignored".to_owned(), 8, false, true);
    assert_eq!(*data.last_spawner(), "z2_mid".to_owned());
    assert_eq!(data.max_life(), 8);
}

#[test]
fn life_pool_arithmetic() {
    let mut life = PlayerLife::new(6, 1);
    life.lose();
    life.lose();
    assert_eq!(life.current(), 0);
    life.gain();
    assert_eq!(life.current(), 1);
    life.heal();
    assert_eq!(life.current(), 6);
    life.gain();
    assert_eq!(life.current(), 6);
    life.grow();
    assert_eq!((life.max_life(), life.current()), (8, 8));
    // An over-full pool settles back down to the maximum on a gain.
    life.set_current(20);
    life.gain();
    assert_eq!(life.current(), 8);
}

#[test]
fn heart_display_indices() {
    // 3 health over hearts at positions 0 and 1: full, half, empty.
    assert_eq!(heart_index(3, 0), 0);
    assert_eq!(heart_index(3, 1), 1);
    assert_eq!(heart_index(3, 2), 2);
    assert_eq!(heart_index(0, 0), 2);
    assert_eq!(heart_index(4, 1), 0);
}

#[test]
fn death_clears_boss_progress() {
    let mut data = GameData::default();
    data.set_flag(Flags::Boss1Start);
    data.set_flag(Flags::Boss1Defeated);
    data.set_flag(Flags::Boss2WallPresent);
    let life = PlayerLife::new(6, 0);
    assert!(die(&life, true, &mut data));
    assert!(!data.has_flag(Flags::Boss1Start));
    assert!(!data.has_flag(Flags::Boss2WallPresent));
    // Defeats are kept.
    assert!(data.has_flag(Flags::Boss1Defeated));
    // No death when health is up or nothing changed.
    assert!(!die(&PlayerLife::new(6, 3), true, &mut data));
    assert!(!die(&life, false, &mut data));
}

#[test]
fn heart_pickup_consumes_the_name_once() {
    let mut data = GameData::default();
    let mut life = PlayerLife::new(6, 3);
    let names = vec!["h1".to_owned(), "h2".to_owned()];
    let r = collect_new_heart(&"h2".to_owned(), &names, &mut data, &mut life);
    assert_eq!(r, Some(1));
    assert_eq!((life.max_life(), life.current()), (8, 8));
    // The same heart cannot be collected twice.
    let r = collect_new_heart(&"h2".to_owned(), &names, &mut data, &mut life);
    assert_eq!(r, None);
    assert_eq!(life.max_life(), 8);
}

#[test]
fn level_manager_checkpoints() {
    let mut lm = LevelManager::from_spawner("start".to_owned());
    lm.register_level(LevelOutline {
        pos: (0, 0),
        size: (320000, -180000),
        iid: "lvl1".to_owned(),
    });
    lm.register_spawner("start".to_owned(), "uuid-a".to_owned(), "lvl1".to_owned());
    lm.register_spawner("mid".to_owned(), "uuid-b".to_owned(), "lvl1".to_owned());
    // Duplicate ids are kept as first registered.
    lm.register_spawner("start".to_owned(), "uuid-x".to_owned(), "lvl1".to_owned());
    assert_eq!(*lm.spawner_uuid(), "uuid-a".to_owned());

    let l = lm.determine_level(&"mid".to_owned()).expect("level of mid");
    assert_eq!(l.iid, "lvl1".to_owned());
    assert!(lm.determine_level(&"nowhere".to_owned()).is_none());
    let l = lm.determine_level_by_iid(&"uuid-b".to_owned()).expect("level by iid");
    assert_eq!(l.iid, "lvl1".to_owned());

    assert!(lm.is_vec_inside_any_level((100000, -90000)));
    assert!(!lm.is_vec_inside_any_level((400000, -90000)));

    // Standing in a checkpoint switches the current spawner.
    let cps = vec![Checkpoint {
        pos: (50000, -50000),
        width: 20000,
        height: 20000,
        spawner_iid: "uuid-b".to_owned(),
    }];
    check_player_in_checkpoint((50000, -50000), &cps, &mut lm);
    assert_eq!(*lm.spawner_id(), "mid".to_owned());
    // Out of the area nothing changes.
    lm.set_spawner_id("start".to_owned());
    check_player_in_checkpoint((200000, -50000), &cps, &mut lm);
    assert_eq!(*lm.spawner_id(), "start".to_owned());

    lm.reload();
    assert!(lm.take_reload());
    assert!(!lm.take_reload());
}

#[test]
fn music_decisions() {
    assert_eq!(BGM::Caves.get_loop(), Some(36571));
    assert_eq!(BGM::Intro.get_loop(), None);
    assert_eq!(BGM::FinalBoss.get_loop(), Some(45939));
    assert_eq!(bgm_for_level(&"Zone_1".to_owned()), BGM::Caves);

    let data = GameData::default();
    assert_eq!(trigger_bgm(&"zone1".to_owned(), &data), Some(BGM::Caves));
    assert_eq!(trigger_bgm(&"zone2".to_owned(), &data), Some(BGM::Forest));
    assert_eq!(trigger_bgm(&"zone9".to_owned(), &data), None);
    let mut tense = GameData::default();
    tense.set_flag(Flags::Tension);
    assert_eq!(trigger_bgm(&"zone1".to_owned(), &tense), None);
}

#[test]
fn size_changes_are_gated() {
    let mut data = GameData::default();
    // Growing from M needs the large unlock.
    assert_eq!(change_size(PlayerSize::M, true, false, AnimStep::Idle, &data, false), None);
    data.set_flag(Flags::SizeL);
    assert_eq!(
        change_size(PlayerSize::M, true, false, AnimStep::Idle, &data, false),
        Some(PlayerSize::L)
    );
    // Blocked by level geometry: refused.
    assert_eq!(change_size(PlayerSize::M, true, false, AnimStep::Idle, &data, true), None);
    // Mid-attack: refused.
    assert_eq!(change_size(PlayerSize::M, true, false, AnimStep::Attack, &data, false), None);
    // Already at the ceiling: nothing to do.
    assert_eq!(change_size(PlayerSize::L, true, false, AnimStep::Idle, &data, false), None);
    // Shrinking needs the small unlock.
    assert_eq!(change_size(PlayerSize::M, false, true, AnimStep::Idle, &data, false), None);
    data.set_flag(Flags::SizeS);
    assert_eq!(
        change_size(PlayerSize::M, false, true, AnimStep::Idle, &data, false),
        Some(PlayerSize::S)
    );
}

#[test]
fn size_names_parse_with_medium_fallback() {
    assert_eq!(size_from_name(&"S".to_owned()), PlayerSize::S);
    assert_eq!(size_from_name(&"M".to_owned()), PlayerSize::M);
    assert_eq!(size_from_name(&"XL".to_owned()), PlayerSize::M);
}

#[test]
fn sensor_names_route_by_prefix() {
    let p = sensor_payload("cutscene:sword1", "cutscene:").expect("prefix matches");
    assert_eq!(p, "sword1".to_owned());
    assert!(sensor_payload("bgm:zone1", "cutscene:").is_none());
    let p = sensor_payload("new-heart:h2", "new-heart:").expect("prefix matches");
    assert_eq!(p, "h2".to_owned());
    assert_eq!(sensor_transition(false, true), (true, false));
    assert_eq!(sensor_transition(true, false), (false, true));
    assert_eq!(sensor_transition(true, true), (false, false));
}

#[test]
fn entity_tables() {
    assert_eq!(
        get_entity_id(&"Player".to_owned(), 0),
        Some(Some(EntityID::Player(PlayerSize::M)))
    );
    assert_eq!(get_entity_id(&"Zombie".to_owned(), 2), Some(Some(EntityID::Zombie(2))));
    assert_eq!(get_entity_id(&"Wall".to_owned(), 0), Some(None));
    assert_eq!(get_entity_id(&"Gremlin".to_owned(), 0), None);

    let e = get_enemy(&"Zombie".to_owned()).expect("zombies hurt");
    assert_eq!(e.player_knockback_speed, 300000);
    let e = get_enemy(&"DamageZone".to_owned()).expect("spikes hurt more");
    assert_eq!(e.player_knockback_speed, 400000);
    assert!(get_enemy(&"OldGuy".to_owned()).is_none());

    let mut data = GameData::default();
    data.set_flag(Flags::SizeS);
    assert!(sword_should_disappear(&"Sword1".to_owned(), &data));
    assert!(!sword_should_disappear(&"Sword2".to_owned(), &data));
}

#[test]
fn palette_and_text_styles() {
    assert_eq!(Palette::Background.color(), (0, 0, 0, 255));
    assert_eq!(TextStyles::Basic.style(), (32, (255, 255, 255, 255)));
    assert_eq!(TextStyles::Black.style(), (32, (0, 0, 0, 255)));
    // Half alpha maps onto the byte range.
    assert_eq!(TextStyles::Basic.style_with_alpha(500), (32, (255, 255, 255, 127)));
    assert_eq!(TextStyles::Black.style_with_alpha(0).1 .3, 0);
}

#[test]
fn vanish_fades_and_finishes() {
    let v = Vanish::new(100);
    let mut alpha = 1000i64;
    assert!(!update_vanish(&v, &mut alpha, 50));
    assert_eq!(alpha, 500);
    assert!(update_vanish(&v, &mut alpha, 60));
    assert_eq!(alpha, 0);
    assert!(v.remove);
}

#[test]
fn platform_rises_with_its_target_and_sinks_after() {
    let mut step = AnimStep::Idle;
    let mut timer = EntityTimer { t_0: 0, time: 0 };
    // The right size stands on it: it rises.
    let vy = move_platform(
        &mut step, &mut timer, 10, PlayerSize::S, PlayerSize::S, true, 0, 0, 32000,
    );
    assert_eq!(step, AnimStep::Jump);
    assert_eq!(vy, 80000);
    // At the top of its range it holds.
    let vy = move_platform(
        &mut step, &mut timer, 20, PlayerSize::S, PlayerSize::S, true, 32000, 0, 32000,
    );
    assert_eq!(vy, 0);
    // Left for longer than the dead time: it settles and sinks.
    timer.time = 400;
    let vy = move_platform(
        &mut step, &mut timer, 500, PlayerSize::S, PlayerSize::M, true, 32000, 0, 32000,
    );
    assert_eq!(step, AnimStep::Idle);
    assert_eq!(vy, -100000);
}

#[test]
fn bird_refuses_to_rise_until_its_flag() {
    let data = GameData::default();
    let mut step = AnimStep::Idle;
    let mut timer = EntityTimer { t_0: 0, time: 0 };
    let vy = move_bird(
        &mut step, &mut timer, 10, PlayerSize::S, PlayerSize::S, true, 0, 0, 32000,
        Some(Flags::Boss1Defeated), &data,
    );
    assert_eq!(vy, 0);
    let mut done = GameData::default();
    done.set_flag(Flags::Boss1Defeated);
    let vy = move_bird(
        &mut step, &mut timer, 20, PlayerSize::S, PlayerSize::S, true, 0, 0, 32000,
        Some(Flags::Boss1Defeated), &done,
    );
    assert_eq!(vy, 80000);
}

#[test]
fn boss1_eyes_cost_health_and_stun_restores() {
    let mut s = Boss1State::default();
    // Two left-eye hits close it: one health gone, the right eye reopens.
    let (dead, newly, anim) = boss1_update(&mut s, &vec![true, true], 16, false);
    assert!(!dead && !newly);
    assert_eq!((s.hp, s.left_eye, s.right_eye), (3, 0, 2));
    assert_eq!(anim, Some(AnimStep::Jump));
    assert_eq!(s.stun, 20000);
    // The stun expiring restores the boss completely.
    s.stun = 5;
    let (_, _, _) = boss1_update(&mut s, &Vec::new(), 16, false);
    assert_eq!((s.hp, s.left_eye, s.right_eye, s.stun), (4, 2, 2, 0));

    assert_eq!(boss1_eye_frame(2, false), 0);
    assert_eq!(boss1_eye_frame(0, false), 1);
    assert_eq!(boss1_eye_frame(2, true), 1);
    assert_eq!(boss1_eye_y(4), Some((44000, 0)));
    assert_eq!(boss1_eye_y(2), Some((3000, 2000)));
    assert_eq!(boss1_eye_y(1), None);
}

#[test]
fn boss2_phases() {
    let mut s = Boss2State::default();
    // Body hits chip the armoured opening; the eye comes out at 5.
    let (_, _, spawn, anim) = boss2_update(&mut s, &vec![Boss2Target::Body; 3], false, false);
    assert_eq!(s.hp, 5);
    assert!(spawn);
    assert_eq!(anim, Some(AnimStep::Walk));
    // Body hits no longer count; eye hits do.
    let (_, _, spawn, _) = boss2_update(&mut s, &vec![Boss2Target::Body], false, false);
    assert_eq!(s.hp, 5);
    assert!(!spawn);
    let (_, _, _, anim) = boss2_update(
        &mut s,
        &vec![Boss2Target::Eye, Boss2Target::Eye, Boss2Target::Eye],
        true,
        false,
    );
    assert_eq!(s.hp, 2);
    assert_eq!(anim, Some(AnimStep::Dash));
    let (dead, newly, _, anim) = boss2_update(
        &mut s,
        &vec![Boss2Target::Eye, Boss2Target::Eye],
        false,
        false,
    );
    assert!(dead && newly);
    assert_eq!(s.hp, 0);
    assert_eq!(anim, Some(AnimStep::Fall));

    assert_eq!(boss2_eye_pose(2, false), (0, 38000, false));
    assert_eq!(boss2_eye_pose(7, false), (42000, 61000, true));
    assert_eq!(boss2_eye_pose(2, true), (15000, 16000, true));
}

#[test]
fn boss3_walks_its_steps() {
    let mut s = Boss3State::default();
    let pos = (-1000000i64, -52000i64);
    // Asleep until the fight starts.
    let out = boss3_update(&mut s, pos, 0, false, false, true, 0, 16);
    assert_eq!(s.step, Boss3Step::Sleep);
    assert_eq!(out.pos, pos);
    // Waking up begins the transformation.
    let out = boss3_update(&mut s, pos, 0, true, false, true, 0, 16);
    assert_eq!(s.step, Boss3Step::Transform);
    assert_eq!(out.anim, Some(AnimStep::Walk));
    // Four seconds later the summon phase begins and spawns minions once.
    s.timer = 4000;
    boss3_update(&mut s, pos, 0, true, false, false, 0, 16);
    assert_eq!(s.step, Boss3Step::Step1);
    let out = boss3_update(&mut s, pos, 0, true, false, false, 0, 16);
    assert!(out.spawn_minions);
    let out = boss3_update(&mut s, pos, 0, true, false, false, 0, 16);
    assert!(!out.spawn_minions);
    assert_eq!(s.step, Boss3Step::Step1);
    // Minions gone: it settles to the ground and the chase begins.
    let out = boss3_update(&mut s, pos, 0, true, false, true, 0, 16);
    assert_eq!(s.step, Boss3Step::BeforeStep2);
    let mut pos = out.pos;
    for _ in 0..200 {
        let out = boss3_update(&mut s, pos, 0, true, false, true, 0, 16);
        pos = out.pos;
        if s.step == Boss3Step::Step2 {
            break;
        }
    }
    assert_eq!(s.step, Boss3Step::Step2);
    assert_eq!(pos.1, -66000);
    // The summon phase left the jump flag set, so the chase opens with a
    // phantom hop; after it resolves, the next aim targets the player.
    let mut aimed = false;
    for _ in 0..400 {
        let out = boss3_update(&mut s, pos, 0, true, false, true, pos.0 - 30000, 16);
        pos = out.pos;
        if s.step == Boss3Step::Step2 && s.jump && s.x_speed != 0 {
            aimed = true;
            break;
        }
    }
    assert!(aimed);
    assert!(s.left);
    assert!(s.x_speed < 0);
    // Hits land during the chase, down to the armour floor.
    let out2 = boss3_update(&mut s, pos, 1, true, false, true, 0, 16);
    assert!(out2.hurt);
    assert_eq!(s.hp, 11);
}
