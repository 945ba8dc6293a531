//! The fade-and-despawn timer attached to collected pickups and vanishing
//! props.

use vstd::prelude::*;

use crate::animation::Millis;
use crate::movement::MAX_DELTA;

verus! {

/// Fade the owning sprite out over `vanish_time`; when the fade completes
/// the entity is despawned (or merely stops fading when `remove` is off).
#[derive(Debug, Clone, Copy)]
pub struct Vanish {
    pub vanish_time: Millis,
    pub remove: bool,
}

impl Vanish {
    pub fn new(vanish_time: Millis) -> (r: Self)
        ensures
            r.vanish_time == vanish_time,
            r.remove,
    {
        Self { vanish_time, remove: true }
    }
}

/// The alpha lost in one tick: the full range spread over the vanish
/// time.
pub open spec fn spec_vanish_drop(vanish_time: int, delta: int) -> int {
    1000 * delta / vanish_time
}

/// One vanish tick: the sprite's alpha (thousandths) sinks toward zero;
/// reports whether the fade has completed, at which point the caller
/// despawns the entity or detaches the timer per `remove`.
pub fn update_vanish(v: &Vanish, alpha: &mut i64, delta: Millis) -> (done: bool)
    requires
        0 < v.vanish_time <= 1000000,
        0 <= delta <= MAX_DELTA,
        0 <= *old(alpha) <= 1000,
    ensures
        *final(alpha) == (if *old(alpha) - spec_vanish_drop(v.vanish_time as int, delta as int)
            >= 0 {
            *old(alpha) - spec_vanish_drop(v.vanish_time as int, delta as int)
        } else {
            0int
        }),
        done == (*final(alpha) == 0),
{
    let drop: i64 = 1000 * delta / v.vanish_time;
    proof {
        assert(1000 * delta / (v.vanish_time as int) >= 0) by (nonlinear_arith)
            requires delta >= 0, v.vanish_time > 0;
    }
    if *alpha - drop >= 0 {
        *alpha = *alpha - drop;
    } else {
        *alpha = 0;
    }
    *alpha == 0
}

} // verus!
