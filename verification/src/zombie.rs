//! The zombie's patrol state machine: walk a direction, turn on walls,
//! get knocked around by sword hits, die after too many.
//!
//! Zombie speeds are milli-pixels per tick: the patrol hands the physics
//! backend a fixed displacement each tick, not a velocity.

use vstd::prelude::*;

use crate::combat::{Contact, HitStop, Hurt};
use crate::movement::MAX_DELTA;
use crate::params;

verus! {

/// Patrol state of one zombie.
#[derive(Copy, Clone, Debug)]
pub struct Zombie {
    /// Current walk displacement per tick (signed); zero means the zombie
    /// has not picked a direction yet.
    pub direction: i64,
    /// Remaining knockback displacement per tick (signed).
    pub knockback_dir: i64,
    /// Walk speed, positive.
    pub speed: i64,
    /// Hits left before the zombie is destroyed.
    pub lives: usize,
}

/// Bounds under which the patrol arithmetic is exact.
pub open spec fn wf_zombie(z: Zombie) -> bool {
    &&& 0 < z.speed <= 1000000
    &&& -1000000 <= z.direction <= 1000000
    &&& -10000000 <= z.knockback_dir <= 10000000
}

impl Zombie {
    /// Builds a zombie from its level-authored fields: the walk starts in
    /// the sign of `direction` at `speed`, or undecided when the field is
    /// zero (a coin toss picks it on the first tick).
    pub fn from_fields(direction: i64, speed: i64, lives: usize) -> (r: Self)
        requires
            0 < speed <= 1000000,
        ensures
            r.speed == speed,
            r.lives == lives,
            r.knockback_dir == 0,
            direction > 0 ==> r.direction == speed,
            direction < 0 ==> r.direction == -speed,
            direction == 0 ==> r.direction == 0,
            wf_zombie(r),
    {
        let d: i64 = if direction > 0 {
            speed
        } else if direction < 0 {
            -speed
        } else {
            0
        };
        Zombie { direction: d, knockback_dir: 0, speed, lives }
    }
}

/// Relies on `rand::random::<bool>`: draws one uniformly random boolean
/// from the thread's generator. Nothing can be promised of the value.
#[verifier::external_body]
fn random_sign() -> bool {
    rand::random::<bool>()
}

/// The sign of a displacement.
pub open spec fn sgn(x: int) -> int {
    if x > 0 {
        1
    } else if x < 0 {
        -1
    } else {
        0
    }
}

/// Whether a contact is ignored by the patrol: unresolved, roughly
/// vertical, on the walking side's back, or a sensor.
pub open spec fn contact_ignored(c: Contact, sensor: bool, dir: int) -> bool {
    ||| (!c.converged && !c.penetrating)
    ||| sgn(c.normal_x as int) == sgn(dir)
    ||| -500 < c.normal_x < 500
    ||| sensor
}

/// Whether this tick's contacts make the patrol turn around: the first
/// contact not ignored does.
pub open spec fn spec_turn(contacts: Seq<Contact>, sensors: Seq<bool>, dir: int) -> bool
    decreases contacts.len(),
{
    if contacts.len() == 0 || sensors.len() == 0 {
        false
    } else if contact_ignored(contacts[0], sensors[0], dir) {
        spec_turn(contacts.skip(1), sensors.skip(1), dir)
    } else {
        true
    }
}

/// The walk direction after the undecided start is resolved by the toss.
pub open spec fn spec_resolved_dir(z: Zombie, toss: bool) -> int {
    if z.direction == 0 {
        if toss {
            z.speed as int
        } else {
            -(z.speed as int)
        }
    } else {
        z.direction as int
    }
}

/// The walk direction after wall feedback: a turn reverses the walk into
/// a fixed one-pixel-per-tick stride.
pub open spec fn spec_patrol_dir(
    z: Zombie,
    contacts: Seq<Contact>,
    sensors: Seq<bool>,
    toss: bool,
) -> int {
    let d0 = spec_resolved_dir(z, toss);
    if spec_turn(contacts, sensors, d0) {
        if d0 > 0 {
            -1000
        } else {
            1000
        }
    } else {
        d0
    }
}

/// The knockback decay for one tick: the initial knockback speed spread
/// linearly over the knockback duration.
pub open spec fn spec_kb_decay(delta: int) -> int {
    params::ZOMBIE_INITIAL_KNOCKBACK_SPEED * delta / (params::ZOMBIE_KNOCKBACK_TIME as int)
}

/// One patrol tick with the coin toss given: picks a direction if none is
/// set, turns on the first unignored wall contact, and either rides the
/// decaying knockback or walks. Returns the tick's displacement
/// (milli-pixels) and the facing to show, if the walk sets one.
pub fn patrol_step(
    z: &mut Zombie,
    contacts: &Vec<Contact>,
    sensors: &Vec<bool>,
    toss: bool,
    delta: i64,
) -> (r: ((i64, i64), Option<bool>))
    requires
        wf_zombie(*old(z)),
        contacts@.len() == sensors@.len(),
        0 <= delta <= MAX_DELTA,
    ensures
        wf_zombie(*final(z)),
        final(z).speed == old(z).speed,
        final(z).lives == old(z).lives,
        final(z).direction == spec_patrol_dir(*old(z), contacts@, sensors@, toss),
        (if old(z).knockback_dir > old(z).speed || old(z).knockback_dir < -old(z).speed {
            let dec = spec_kb_decay(delta as int);
            &&& final(z).knockback_dir == (if old(z).knockback_dir > 0 {
                if old(z).knockback_dir - dec >= 0 {
                    old(z).knockback_dir - dec
                } else {
                    0int
                }
            } else {
                if old(z).knockback_dir + dec <= 0 {
                    old(z).knockback_dir + dec
                } else {
                    0int
                }
            })
            &&& r.0 == (final(z).knockback_dir, 0int as i64)
            &&& r.1 is None
        } else {
            &&& final(z).knockback_dir == old(z).knockback_dir
            &&& r.0 == ((final(z).direction, 0int as i64))
            &&& r.1 == Some(final(z).direction > 0)
        }),
{
    if z.direction == 0 {
        if toss {
            z.direction = z.speed;
        } else {
            z.direction = -z.speed;
        }
    }
    let ghost d0 = z.direction as int;

    // Turn on the first contact the patrol cannot ignore
    let mut i: usize = 0;
    let mut turned = false;
    proof {
        assert(contacts@.skip(0) =~= contacts@);
        assert(sensors@.skip(0) =~= sensors@);
    }
    while i < contacts.len() && !turned
        invariant
            contacts@.len() == sensors@.len(),
            0 <= i <= contacts@.len(),
            !turned ==> z.direction == d0,
            !turned ==> spec_turn(contacts@, sensors@, d0) == spec_turn(
                contacts@.skip(i as int),
                sensors@.skip(i as int),
                d0,
            ),
            turned ==> spec_turn(contacts@, sensors@, d0) && z.direction == (if d0 > 0 {
                -1000int
            } else {
                1000int
            }),
            z.speed == old(z).speed,
            z.lives == old(z).lives,
            z.knockback_dir == old(z).knockback_dir,
            -1000000 <= d0 <= 1000000,
            d0 != 0,
        decreases contacts@.len() - i,
    {
        let c = contacts[i];
        let csign: i64 = if c.normal_x > 0 {
            1
        } else if c.normal_x < 0 {
            -1
        } else {
            0
        };
        let dsign: i64 = if z.direction > 0 {
            1
        } else {
            -1
        };
        let ignored = (!c.converged && !c.penetrating) || csign == dsign || (-500 < c.normal_x
            && c.normal_x < 500) || sensors[i];
        proof {
            assert(contacts@.skip(i as int)[0] == contacts@[i as int]);
            assert(sensors@.skip(i as int)[0] == sensors@[i as int]);
            assert(contacts@.skip(i as int).skip(1) =~= contacts@.skip(i + 1));
            assert(sensors@.skip(i as int).skip(1) =~= sensors@.skip(i + 1));
            assert(ignored == contact_ignored(contacts@[i as int], sensors@[i as int], d0));
        }
        if !ignored {
            if z.direction > 0 {
                z.direction = -1000;
            } else {
                z.direction = 1000;
            }
            turned = true;
        }
        i = i + 1;
    }
    proof {
        if !turned {
            assert(contacts@.skip(i as int) =~= contacts@.skip(i as int));
            if i >= contacts@.len() {
                assert(contacts@.skip(i as int).len() == 0);
            }
        }
    }

    // Ride the knockback while it outruns the walk, else walk
    if z.knockback_dir > z.speed || z.knockback_dir < -z.speed {
        let dec: i64 = params::ZOMBIE_INITIAL_KNOCKBACK_SPEED * delta
            / params::ZOMBIE_KNOCKBACK_TIME;
        if z.knockback_dir > 0 {
            if z.knockback_dir - dec >= 0 {
                z.knockback_dir = z.knockback_dir - dec;
            } else {
                z.knockback_dir = 0;
            }
        } else {
            if z.knockback_dir + dec <= 0 {
                z.knockback_dir = z.knockback_dir + dec;
            } else {
                z.knockback_dir = 0;
            }
        }
        ((z.knockback_dir, 0), None)
    } else {
        ((z.direction, 0), Some(z.direction > 0))
    }
}

/// One patrol tick: when the zombie has not picked a direction yet, a coin
/// toss decides it; everything after the toss is exactly `patrol_step`.
pub fn patrol_zombie(
    z: &mut Zombie,
    contacts: &Vec<Contact>,
    sensors: &Vec<bool>,
    delta: i64,
) -> (r: ((i64, i64), Option<bool>))
    requires
        wf_zombie(*old(z)),
        contacts@.len() == sensors@.len(),
        0 <= delta <= MAX_DELTA,
    ensures
        wf_zombie(*final(z)),
        final(z).speed == old(z).speed,
        final(z).lives == old(z).lives,
        exists|toss: bool| #[trigger]
            spec_patrol_dir(*old(z), contacts@, sensors@, toss) == final(z).direction,
        old(z).direction != 0 ==> final(z).direction == spec_patrol_dir(
            *old(z),
            contacts@,
            sensors@,
            true,
        ),
{
    let toss = if z.direction == 0 {
        random_sign()
    } else {
        true
    };
    let r = patrol_step(z, contacts, sensors, toss, delta);
    proof {
        assert(spec_patrol_dir(*old(z), contacts@, sensors@, toss) == final(z).direction);
    }
    r
}

/// A sword strike on a zombie: knockback in the swing's direction, the
/// hurt flash, a global hit-stop, and one life gone; a zombie out of lives
/// is destroyed (`true`).
pub fn zombie_hit(
    z: &mut Zombie,
    hurt: &mut Hurt,
    hit_stop: &mut HitStop,
    right_dir: bool,
) -> (died: bool)
    ensures
        final(z).knockback_dir == (if right_dir {
            params::ZOMBIE_INITIAL_KNOCKBACK_SPEED as int
        } else {
            -(params::ZOMBIE_INITIAL_KNOCKBACK_SPEED as int)
        }),
        final(z).direction == old(z).direction,
        final(z).speed == old(z).speed,
        final(hurt).time_left == params::ENEMY_HURT_TIME,
        final(hit_stop).time_left == params::ZOMBIE_HIT_STOP_DURATION,
        died == (old(z).lives == 0),
        !died ==> final(z).lives == old(z).lives - 1,
        died ==> final(z).lives == old(z).lives,
{
    z.knockback_dir = if right_dir {
        params::ZOMBIE_INITIAL_KNOCKBACK_SPEED
    } else {
        -params::ZOMBIE_INITIAL_KNOCKBACK_SPEED
    };
    hurt.time_left = params::ENEMY_HURT_TIME;
    hit_stop.time_left = params::ZOMBIE_HIT_STOP_DURATION;
    if z.lives > 0 {
        z.lives = z.lives - 1;
        false
    } else {
        true
    }
}

} // verus!
