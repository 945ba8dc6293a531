//! Tuning constants for the whole engine, in integer fixed point.
//!
//! Units, used consistently everywhere:
//! - durations and timestamps: milliseconds (`i64`);
//! - positions and lengths: milli-pixels (`i64`);
//! - speeds: milli-pixels per second, gravity milli-pixels per second squared;
//! - overlay alphas: thousandths, `0` transparent to `1000` opaque.

use vstd::prelude::*;

use crate::player::PlayerSize;

verus! {

// --- Physics
pub const GRAVITY: i64 = 380000;
pub const PLAYER_X: i64 = 80000;

pub const COYOTE_TIME: i64 = 50;
pub const JUMP: i64 = 190000;
pub const JUMP_MIN: i64 = 150;

/// A value given per player size.
pub struct SizeVal<T> {
    pub m: T,
    pub s: T,
    pub l: T,
}

impl<T: Copy> SizeVal<T> {
    pub fn new(m: T, s: T, l: T) -> (r: Self)
        ensures
            r.m == m && r.s == s && r.l == l,
    {
        SizeVal { m, s, l }
    }

    pub fn same(value: T) -> (r: Self)
        ensures
            r.m == value && r.s == value && r.l == value,
    {
        SizeVal { m: value, s: value, l: value }
    }

    pub fn get(&self, size: &PlayerSize) -> (r: T)
        ensures
            r == self.spec_get(*size),
    {
        match size {
            PlayerSize::M => self.m,
            PlayerSize::S => self.s,
            PlayerSize::L => self.l,
        }
    }
}

impl<T> SizeVal<T> {
    pub open spec fn spec_get(&self, size: PlayerSize) -> T {
        match size {
            PlayerSize::M => self.m,
            PlayerSize::S => self.s,
            PlayerSize::L => self.l,
        }
    }
}

/// Per-size gravity: small characters are floatier, large ones heavier.
pub open spec fn spec_player_g(size: PlayerSize) -> i64 {
    match size {
        PlayerSize::M => 380000int as i64,
        PlayerSize::S => 209000int as i64,
        PlayerSize::L => 532000int as i64,
    }
}

#[verifier::when_used_as_spec(spec_player_g)]
pub fn player_g(size: PlayerSize) -> (r: i64)
    ensures
        r == spec_player_g(size),
{
    match size {
        PlayerSize::M => 380000,
        PlayerSize::S => 209000,
        PlayerSize::L => 532000,
    }
}

/// Per-size jump impulse.
pub open spec fn spec_player_j(size: PlayerSize) -> i64 {
    match size {
        PlayerSize::M => 180500int as i64,
        PlayerSize::S => 104500int as i64,
        PlayerSize::L => 269800int as i64,
    }
}

#[verifier::when_used_as_spec(spec_player_j)]
pub fn player_j(size: PlayerSize) -> (r: i64)
    ensures
        r == spec_player_j(size),
{
    match size {
        PlayerSize::M => 180500,
        PlayerSize::S => 104500,
        PlayerSize::L => 269800,
    }
}

// --- Jump step durations (ms)
pub open spec fn spec_prejump_t(size: PlayerSize) -> i64 {
    match size {
        PlayerSize::M => 120int as i64,
        PlayerSize::S => 60int as i64,
        PlayerSize::L => 240int as i64,
    }
}

#[verifier::when_used_as_spec(spec_prejump_t)]
pub fn prejump_t(size: PlayerSize) -> (r: i64)
    ensures
        r == spec_prejump_t(size),
{
    match size {
        PlayerSize::M => 120,
        PlayerSize::S => 60,
        PlayerSize::L => 240,
    }
}

pub const JUMP_T: i64 = 125;
pub const FALL_T: i64 = 300;
pub const LAND_T: i64 = 200;

// --- Dash
pub const DASH_DETECTION: i64 = 200;

pub open spec fn spec_dash_duration(size: PlayerSize) -> i64 {
    match size {
        PlayerSize::M => 120int as i64,
        PlayerSize::S => 100int as i64,
        PlayerSize::L => 150int as i64,
    }
}

#[verifier::when_used_as_spec(spec_dash_duration)]
pub fn dash_duration(size: PlayerSize) -> (r: i64)
    ensures
        r == spec_dash_duration(size),
{
    match size {
        PlayerSize::M => 120,
        PlayerSize::S => 100,
        PlayerSize::L => 150,
    }
}

/// Dash speed as a multiple of the walking speed.
pub const DASH_S: i64 = 6;

// --- Player
pub const STARTING_LIFE: usize = 6;

/// Attack timeline step durations (ms), in playback order.
pub open spec fn spec_attack_steps(size: PlayerSize) -> (i64, i64, i64, i64, i64) {
    match size {
        PlayerSize::M => (
            150int as i64,
            50int as i64,
            50int as i64,
            250int as i64,
            200int as i64,
        ),
        PlayerSize::S => (
            150int as i64,
            50int as i64,
            50int as i64,
            250int as i64,
            200int as i64,
        ),
        PlayerSize::L => (
            150int as i64,
            50int as i64,
            200int as i64,
            350int as i64,
            200int as i64,
        ),
    }
}

#[verifier::when_used_as_spec(spec_attack_steps)]
pub fn attack_steps(size: PlayerSize) -> (r: (i64, i64, i64, i64, i64))
    ensures
        r == spec_attack_steps(size),
{
    match size {
        PlayerSize::M => (150, 50, 50, 250, 200),
        PlayerSize::S => (150, 50, 50, 250, 200),
        PlayerSize::L => (150, 50, 200, 350, 200),
    }
}

pub const PLAYER_IDLE_INTERFRAME: i64 = 800;
pub const PLAYER_WALK_INTERFRAME: i64 = 100;

// --- Platform
pub const PLATFORM_UP_SPEED: i64 = 80000;
pub const PLATFORM_DOWN_SPEED: i64 = -100000;
/// Delay before a platform switches from rising to sinking once left.
pub const PLATFORM_DEAD_TIME: i64 = 350;

// --- Enemies
pub const ENEMY_HURT_TIME: i64 = 250;
pub const ENEMIES_KNOCKBACK_SPEED: i64 = 300000;
pub const ENEMIES_KNOCKBACK_TIME: i64 = 300;
pub const SPIKES_KNOCKBACK_SPEED: i64 = 400000;
pub const SPIKES_KNOCKBACK_TIME: i64 = 500;

// --- Zombie (patrol speeds are milli-pixels per tick)
pub const DEFAULT_ZOMBIE_SPEED: i64 = 350;
pub const DEFAULT_ZOMBIE_LIVES: usize = 2;
pub const ZOMBIE_INITIAL_KNOCKBACK_SPEED: i64 = 8000;
pub const ZOMBIE_KNOCKBACK_TIME: i64 = 300;
pub const ZOMBIE_HIT_STOP_DURATION: i64 = 150;

// --- Bosses
pub const BOSS_STUN_DELAY: i64 = 20000;
pub const BOSS_EYES_DX: i64 = 26000;

// --- Boss 3 (positions in milli-pixels, durations in ms)
pub const BOSS3_GROUND: i64 = -66000;
pub const BOSS3_X: i64 = -1087000;
pub const BOSS3_LEVITATION_Y: i64 = 14000;
pub const BOSS3_JUMP_X_MAX: i64 = 48000;
pub const BOSS3_JUMP_HEIGHT: i64 = 16000;
pub const BOSS3_JUMP_DURATION: i64 = 750;
pub const BOSS3_AFTER_JUMP: i64 = 1000;
/// Descent per tick while the boss settles back to the ground.
pub const BOSS3_FALL_SPEED: i64 = 500;

// --- Cutscenes
pub const TEXT_FADE_TIME: i64 = 400;
pub const CHAR_DISPLAY_TIME: i64 = 60;

/// Spawner the game starts from when no save data names another.
pub fn initial_spawner_id() -> (r: String)
    ensures
        r@ == "start"@,
{
    "start".to_owned()
}

} // verus!
