//! Combat pipeline behaviour: at-most-one damage per swing per target,
//! sword lifecycle, knockback decay, hit-stop and the hurt flash.

use platformer_core::animation::{AnimStep, AnimationEvent, EntityTimer};
use platformer_core::combat::PlayerHitEvent;
use platformer_core::combat::{
    attack, collide_sword, hit_ceiling, player_hit, process_hit_stop, process_hurt,
    process_knockback, sword_collider, update_sword, Contact, HitStop, Hurt, Knockback, Sword,
};
use platformer_core::entity::Enemy;
use platformer_core::hearts::PlayerLife;
use platformer_core::player::PlayerSize;
use platformer_core::zombie::{patrol_step, zombie_hit, Zombie};

#[test]
fn at_most_one_damage_per_swing_per_target() {
    // The same target overlaps the hit-volume for 5 consecutive ticks and
    // is struck exactly once.
    let mut sword = Sword(Vec::new());
    let overlaps = vec![77u64];
    let mut struck = 0;
    for _ in 0..5 {
        let hits = collide_sword(&mut sword, &overlaps, false);
        struck += hits.len();
    }
    assert_eq!(struck, 1);
}

#[test]
fn each_new_target_is_struck_once_with_the_swing_facing() {
    let mut sword = Sword(Vec::new());
    let first = collide_sword(&mut sword, &vec![1u64, 2, 2, 3], true);
    assert_eq!(first.len(), 3);
    for d in &first {
        assert!(!d.right_dir);
    }
    // A later tick only strikes the newcomer.
    let second = collide_sword(&mut sword, &vec![2u64, 3, 4], true);
    assert_eq!(second.len(), 1);
    assert_eq!(second[0].entity, 4);
}

#[test]
fn attack_input_starts_and_attack_over_ends() {
    let mut step = AnimStep::Walk;
    let mut timer = EntityTimer { t_0: 0, time: 77 };
    attack(&mut step, &mut timer, 100, true, true, &Vec::new());
    assert_eq!(step, AnimStep::Attack);
    assert_eq!(timer.time, 0);

    // The completion event exits to idle when grounded...
    let over = vec![AnimationEvent::AttackOver];
    attack(&mut step, &mut timer, 800, true, false, &over);
    assert_eq!(step, AnimStep::Idle);

    // ...and to a fall when airborne.
    let mut step = AnimStep::Attack;
    attack(&mut step, &mut timer, 900, false, false, &over);
    assert_eq!(step, AnimStep::Fall);

    // Attack input during an attack is refused.
    let mut step = AnimStep::Attack;
    let mut timer = EntityTimer { t_0: 0, time: 50 };
    attack(&mut step, &mut timer, 950, true, true, &Vec::new());
    assert_eq!(step, AnimStep::Attack);
    assert_eq!(timer.time, 50);
}

#[test]
fn sword_spawns_on_swing_and_retracts_on_recoil() {
    let events = vec![AnimationEvent::AttackSwing];
    let (spawn, despawn) = update_sword(&events, &PlayerSize::M, false);
    let s = spawn.expect("swing spawns the volume");
    assert_eq!((s.offset_x, s.offset_y, s.half_w, s.half_h), (14000, 10500, 6000, 2500));
    assert!(!despawn);

    // Facing left mirrors the offset.
    let (spawn, _) = update_sword(&events, &PlayerSize::L, true);
    assert_eq!(spawn.unwrap().offset_x, -25500);

    let events = vec![AnimationEvent::AttackRecoil];
    let (spawn, despawn) = update_sword(&events, &PlayerSize::M, false);
    assert!(spawn.is_none());
    assert!(despawn);

    // The small size's blade.
    let s = sword_collider(&PlayerSize::S, false);
    assert_eq!((s.offset_x, s.offset_y, s.half_w, s.half_h), (7000, 7500, 4000, 1500));
}

#[test]
fn knockback_decays_linearly_and_expires() {
    // 300 px/s rightward for 300 ms, ticked at 100 ms.
    let mut kb = Knockback::new((300000000, 0), 300);
    // Full strength on the first tick: scale 2*100*300/300 = 200.
    let (dx, dy) = process_knockback(&mut kb, 100).unwrap();
    assert_eq!((dx, dy), (300000000i64 * 200, 0));
    // Two thirds strength next.
    let (dx, _) = process_knockback(&mut kb, 100).unwrap();
    assert_eq!(dx, 300000000i64 * 133);
    let (dx, _) = process_knockback(&mut kb, 100).unwrap();
    assert_eq!(dx, 300000000i64 * 66);
    // Expired: the override detaches.
    assert!(process_knockback(&mut kb, 100).is_none());
}

#[test]
fn hit_stop_freezes_until_it_runs_out() {
    let mut hs = HitStop::new(150);
    assert!(process_hit_stop(&mut hs, 100));
    assert!(process_hit_stop(&mut hs, 100));
    assert!(!process_hit_stop(&mut hs, 100));
    assert_eq!(hs.time_left, -50);
}

#[test]
fn hurt_flash_blinks_and_expires() {
    let mut hurt = Hurt::new(250);
    // After 30 ms: 220 left, 220 % 100 = 20 < 50: tinted.
    let (expired, tint) = process_hurt(&mut hurt, 30);
    assert!(!expired);
    assert!(tint);
    // After 60 more: 160 left, 160 % 100 = 60: plain.
    let (expired, tint) = process_hurt(&mut hurt, 60);
    assert!(!expired);
    assert!(!tint);
    // Running out clears the tint and detaches.
    let (expired, tint) = process_hurt(&mut hurt, 200);
    assert!(expired);
    assert!(!tint);
}

fn stock_enemy() -> Enemy {
    Enemy { player_knockback_speed: 300000, player_knockback_time: 300, player_hurt_time: 300 }
}

#[test]
fn player_hit_applies_first_unignored_event() {
    let events = vec![
        PlayerHitEvent { enemy_entity: 5, enemy: stock_enemy(), normal_x: 1000, normal_y: 0 },
        PlayerHitEvent { enemy_entity: 6, enemy: stock_enemy(), normal_x: -1000, normal_y: 0 },
    ];
    let mut life = PlayerLife::new(6, 6);
    // The first event is ignored (the enemy spares this size).
    let r = player_hit(&events, &vec![true, false], false, &mut life);
    let (kb, hurt) = r.expect("second event lands");
    assert_eq!(kb.velocity, (-1000 * 300000, 0));
    assert_eq!(kb.duration, 300);
    assert_eq!(hurt.time_left, 300);
    assert_eq!(life.current(), 5);

    // All ignored: nothing happens.
    let mut life = PlayerLife::new(6, 6);
    assert!(player_hit(&events, &vec![true, true], false, &mut life).is_none());
    assert_eq!(life.current(), 6);
}

#[test]
fn running_hurt_timer_blocks_repeated_damage() {
    // While the hurt timer runs, no pending hit is applied at all.
    let events = vec![
        PlayerHitEvent { enemy_entity: 5, enemy: stock_enemy(), normal_x: 1000, normal_y: 0 },
    ];
    let mut life = PlayerLife::new(6, 6);
    assert!(player_hit(&events, &vec![false], true, &mut life).is_none());
    assert_eq!(life.current(), 6);
    // Once it expires the same hit lands.
    assert!(player_hit(&events, &vec![false], false, &mut life).is_some());
    assert_eq!(life.current(), 5);
}

#[test]
fn ceiling_detection_reads_converged_down_normals() {
    let contacts = vec![
        Contact { other: 1, converged: false, penetrating: true, normal_x: 0, normal_y: -1000 },
        Contact { other: 2, converged: true, penetrating: false, normal_x: 0, normal_y: -600 },
    ];
    assert!(hit_ceiling(&contacts));
    let contacts = vec![
        Contact { other: 2, converged: true, penetrating: false, normal_x: 0, normal_y: 600 },
    ];
    assert!(!hit_ceiling(&contacts));
}

#[test]
fn zombie_turns_on_walls_and_rides_knockback() {
    // Walking right at 350 milli-pixels per tick; a wall normal pushes
    // back leftward: the patrol turns.
    let mut z = Zombie::from_fields(1, 350, 2);
    let contacts = vec![
        Contact { other: 9, converged: true, penetrating: false, normal_x: -1000, normal_y: 0 },
    ];
    let ((dx, _), flip) = patrol_step(&mut z, &contacts, &vec![false], true, 16);
    assert_eq!(z.direction, -1000);
    assert_eq!(dx, -1000);
    assert_eq!(flip, Some(false));

    // Sensors are ignored.
    let mut z = Zombie::from_fields(1, 350, 2);
    patrol_step(&mut z, &contacts, &vec![true], true, 16);
    assert_eq!(z.direction, 350);

    // Knockback outruns the walk and decays toward zero.
    let mut z = Zombie::from_fields(1, 350, 2);
    z.knockback_dir = 8000;
    let ((dx, _), flip) = patrol_step(&mut z, &Vec::new(), &Vec::new(), true, 150);
    // decay = 8000 * 150 / 300 = 4000
    assert_eq!(dx, 4000);
    assert!(flip.is_none());
}

#[test]
fn zombie_coin_toss_resolves_undecided_walk() {
    let mut z = Zombie::from_fields(0, 350, 2);
    assert_eq!(z.direction, 0);
    let ((dx, _), _) = patrol_step(&mut z, &Vec::new(), &Vec::new(), false, 16);
    assert_eq!(z.direction, -350);
    assert_eq!(dx, -350);
}

#[test]
fn zombie_hits_cost_lives_then_destroy() {
    let mut z = Zombie::from_fields(1, 350, 1);
    let mut hurt = Hurt::new(0);
    let mut hs = HitStop::new(0);
    assert!(!zombie_hit(&mut z, &mut hurt, &mut hs, true));
    assert_eq!(z.knockback_dir, 8000);
    assert_eq!(hurt.time_left, 250);
    assert_eq!(hs.time_left, 150);
    assert_eq!(z.lives, 0);
    assert!(zombie_hit(&mut z, &mut hurt, &mut hs, false));
    assert_eq!(z.knockback_dir, -8000);
}
