//! Motion model and player state machine behaviour: trajectory symmetry,
//! the full jump scenario, coyote time and the dash detector.

use platformer_core::animation::{AnimStep, EntityTimer};
use platformer_core::movement::{
    fall_dy2, jump_dy2, move_player, update_state, Dash, MoveInput,
};
use platformer_core::player::PlayerSize;

fn quiet_input(now: i64, delta: i64, grounded: bool) -> MoveInput {
    MoveInput {
        now,
        delta,
        pressed_left: false,
        pressed_right: false,
        pressed_jump: false,
        just_left: false,
        just_right: false,
        just_jump: false,
        grounded,
        ceiling: false,
    }
}

#[test]
fn trajectory_symmetric_medium_and_small() {
    // For medium, the apex falls exactly at 475 ms (1000*J/G); rising 95
    // ticks of 5 ms and falling 95 more cancels exactly, with no drift.
    for (size, n) in [(PlayerSize::M, 95i64), (PlayerSize::S, 100i64)] {
        let dt = 5i64;
        let mut total: i64 = 0;
        for k in 0..n {
            total += jump_dy2(size, k * dt, dt);
        }
        for k in 0..n {
            total += fall_dy2(size, k * dt, dt);
        }
        assert_eq!(total, 0);
    }
}

#[test]
fn trajectory_residue_matches_closed_form_for_large() {
    // The large size has no integer apex; the imbalance over T = 507 ms is
    // exactly 2*T*(1000*J - G*T) doubled nano-pixels.
    let dt = 3i64;
    let n = 169i64;
    let t = n * dt;
    let j = 269800i64;
    let g = 532000i64;
    let mut total: i64 = 0;
    for k in 0..n {
        total += jump_dy2(PlayerSize::L, k * dt, dt);
    }
    for k in 0..n {
        total += fall_dy2(PlayerSize::L, k * dt, dt);
    }
    assert_eq!(total, 2 * t * (1000 * j - g * t));
}

#[test]
fn rise_step_value_is_exact() {
    // dt * (2000*J - G*(2t + dt)) for medium at t = 0, dt = 5:
    // 5 * (361_000_000 - 380_000 * 5) = 1_795_500_000 doubled nano-pixels.
    assert_eq!(jump_dy2(PlayerSize::M, 0, 5), 5 * (2000 * 180500 - 380000 * 5));
    // Falling is the pure gravity term, negative.
    assert_eq!(fall_dy2(PlayerSize::M, 100, 5), -(5 * 380000 * 205));
}

#[test]
fn full_jump_scenario_medium() {
    // Medium player, idle and grounded, jump pressed at t=0 and held:
    // Idle -> Prejump -> Jump -> Fall -> Land -> Idle, with the airtime
    // near 2*J/G = 950 ms.
    let size = PlayerSize::M;
    let dt = 5i64;
    let mut step = AnimStep::Idle;
    let mut dash = Dash { last_dir: (false, 0), can_dash: false };
    let mut timer = EntityTimer { t_0: 0, time: 0 };
    let mut flip = false;
    let mut now = 0i64;
    let mut y2: i64 = 0;  // height in doubled nano-pixels
    let mut visited = vec![AnimStep::Idle];
    let mut airtime = 0i64;
    let mut jump_entries = 0;

    for tick in 0..600 {
        let grounded = y2 <= 0;
        let inp = MoveInput {
            now,
            delta: dt,
            pressed_left: false,
            pressed_right: false,
            pressed_jump: true,
            just_left: false,
            just_right: false,
            just_jump: tick == 0,
            grounded,
            ceiling: false,
        };
        let before = step;
        let (_, dy2, _) = move_player(&mut step, &mut dash, &timer, size, &mut flip, &inp);
        if !grounded || dy2 > 0 {
            y2 += dy2;
        }
        if y2 < 0 {
            y2 = 0;
        }
        now += dt;
        timer.time += dt;
        if step != before {
            timer.t_0 = now;
            timer.time = 0;
        }
        update_state(&mut step, &mut timer, size, now);
        if *visited.last().unwrap() != step {
            visited.push(step);
            if step == AnimStep::Jump {
                jump_entries += 1;
            }
        }
        if step == AnimStep::Jump || step == AnimStep::Fall {
            airtime += dt;
        }
    }

    assert_eq!(
        visited,
        vec![
            AnimStep::Idle,
            AnimStep::Prejump,
            AnimStep::Jump,
            AnimStep::Fall,
            AnimStep::Land,
            AnimStep::Idle,
        ]
    );
    assert_eq!(jump_entries, 1);
    // 2*J/G for medium is 950 ms; the constant settling pull during the
    // rise shaves a few ticks off, so allow a tolerance.
    assert!((airtime - 950).abs() <= 120, "airtime {airtime}");
}

#[test]
fn coyote_window_honours_late_jump() {
    // Falling for less than the 50 ms window still lets a jump through.
    let size = PlayerSize::M;
    let mut step = AnimStep::Fall;
    let mut dash = Dash { last_dir: (false, 0), can_dash: true };
    // Fell off the ledge at t_0 = 1000; it is now 1030.
    let timer = EntityTimer { t_0: 1000, time: 30 };
    let mut flip = false;
    let mut inp = quiet_input(1030, 5, false);
    inp.just_jump = true;
    inp.pressed_jump = true;
    move_player(&mut step, &mut dash, &timer, size, &mut flip, &inp);
    assert_eq!(step, AnimStep::Prejump);

    // Past the window the jump is refused and the fall goes on.
    let mut step = AnimStep::Fall;
    let timer = EntityTimer { t_0: 1000, time: 80 };
    let mut inp = quiet_input(1080, 5, false);
    inp.just_jump = true;
    inp.pressed_jump = true;
    move_player(&mut step, &mut dash, &timer, size, &mut flip, &inp);
    assert_eq!(step, AnimStep::Fall);
}

#[test]
fn double_tap_within_window_dashes() {
    let size = PlayerSize::M;
    let mut step = AnimStep::Walk;
    let mut dash = Dash { last_dir: (false, 0), can_dash: true };
    let timer = EntityTimer { t_0: 0, time: 500 };
    let mut flip = false;

    // First left tap at t = 500: recorded, no dash.
    let mut inp = quiet_input(500, 5, true);
    inp.just_left = true;
    inp.pressed_left = true;
    move_player(&mut step, &mut dash, &timer, size, &mut flip, &inp);
    assert_ne!(step, AnimStep::Dash);
    assert_eq!(dash.last_dir, (false, 500));

    // Second left tap 150 ms later (inside the 200 ms window): dash.
    let mut inp = quiet_input(650, 5, true);
    inp.just_left = true;
    inp.pressed_left = true;
    move_player(&mut step, &mut dash, &timer, size, &mut flip, &inp);
    assert_eq!(step, AnimStep::Dash);
    assert!(!dash.can_dash);
}

#[test]
fn double_tap_outside_window_only_rerecords() {
    let size = PlayerSize::M;
    let mut step = AnimStep::Walk;
    let mut dash = Dash { last_dir: (false, 500), can_dash: true };
    let timer = EntityTimer { t_0: 0, time: 800 };
    let mut flip = false;
    let mut inp = quiet_input(800, 5, true);
    inp.just_left = true;
    inp.pressed_left = true;
    move_player(&mut step, &mut dash, &timer, size, &mut flip, &inp);
    assert_ne!(step, AnimStep::Dash);
    assert_eq!(dash.last_dir, (false, 800));
}

#[test]
fn dash_times_out_into_fall_and_landing_restores_charge() {
    let size = PlayerSize::M;
    let mut step = AnimStep::Dash;
    let mut dash = Dash { last_dir: (true, 0), can_dash: false };
    // Past the medium dash duration of 120 ms.
    let timer = EntityTimer { t_0: 0, time: 130 };
    let mut flip = false;
    let inp = quiet_input(130, 5, false);
    let (tx2, _, _) = move_player(&mut step, &mut dash, &timer, size, &mut flip, &inp);
    assert_eq!(step, AnimStep::Fall);
    // The dash still carried the entity this tick (rightward).
    assert!(tx2 > 0);

    // Once grounded, the charge returns.
    let inp = quiet_input(200, 5, true);
    move_player(&mut step, &mut dash, &timer, size, &mut flip, &inp);
    assert!(dash.can_dash);
}

#[test]
fn attack_state_freezes_movement() {
    let size = PlayerSize::M;
    let mut step = AnimStep::Attack;
    let mut dash = Dash { last_dir: (false, 0), can_dash: true };
    let timer = EntityTimer { t_0: 0, time: 50 };
    let mut flip = false;
    let mut inp = quiet_input(50, 5, true);
    inp.pressed_right = true;
    let (tx2, ty2, reset) = move_player(&mut step, &mut dash, &timer, size, &mut flip, &inp);
    assert_eq!((tx2, ty2, reset), (0, 0, false));
    assert_eq!(step, AnimStep::Attack);
}

#[test]
fn walk_and_idle_switch_on_held_direction() {
    let size = PlayerSize::M;
    let mut step = AnimStep::Idle;
    let mut dash = Dash { last_dir: (false, 0), can_dash: true };
    let timer = EntityTimer { t_0: 0, time: 0 };
    let mut flip = false;
    let mut inp = quiet_input(0, 5, true);
    inp.pressed_right = true;
    let (tx2, _, _) = move_player(&mut step, &mut dash, &timer, size, &mut flip, &inp);
    assert_eq!(step, AnimStep::Walk);
    assert!(!flip);
    // 5 ms * 80 px/s: 5 * 80_000 * 2000 doubled nano-pixels.
    assert_eq!(tx2, 5 * 80000 * 2000);

    let inp = quiet_input(5, 5, true);
    move_player(&mut step, &mut dash, &timer, size, &mut flip, &inp);
    assert_eq!(step, AnimStep::Idle);
}

#[test]
fn ceiling_contact_ends_the_rise() {
    let size = PlayerSize::M;
    let mut step = AnimStep::Jump;
    let mut dash = Dash { last_dir: (false, 0), can_dash: false };
    let timer = EntityTimer { t_0: 0, time: 50 };
    let mut flip = false;
    let mut inp = quiet_input(50, 5, false);
    inp.pressed_jump = true;
    inp.ceiling = true;
    move_player(&mut step, &mut dash, &timer, size, &mut flip, &inp);
    assert_eq!(step, AnimStep::Fall);
}

#[test]
fn update_state_advances_prejump_and_land() {
    let size = PlayerSize::M;
    let mut step = AnimStep::Prejump;
    let mut timer = EntityTimer { t_0: 0, time: 120 };
    update_state(&mut step, &mut timer, size, 120);
    assert_eq!(step, AnimStep::Jump);
    assert_eq!(timer.time, 0);

    let mut step = AnimStep::Land;
    let mut timer = EntityTimer { t_0: 0, time: 200 };
    update_state(&mut step, &mut timer, size, 200);
    assert_eq!(step, AnimStep::Idle);

    // Early: nothing moves.
    let mut step = AnimStep::Land;
    let mut timer = EntityTimer { t_0: 0, time: 100 };
    update_state(&mut step, &mut timer, size, 100);
    assert_eq!(step, AnimStep::Land);
    assert_eq!(timer.time, 100);
}
