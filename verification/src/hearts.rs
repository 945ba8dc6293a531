//! The player's health pool, the heart display indices derived from it,
//! and the consequences of death and of picking up a new heart container.

use vstd::prelude::*;

use crate::data::{Flags, GameData};

verus! {

/// Current and maximum health, two points per displayed heart.
pub struct PlayerLife {
    max: usize,
    current: usize,
}

impl PlayerLife {
    pub closed spec fn spec_max(&self) -> usize {
        self.max
    }

    pub closed spec fn spec_current(&self) -> usize {
        self.current
    }

    pub fn new(max: usize, current: usize) -> (r: Self)
        ensures
            r.spec_max() == max && r.spec_current() == current,
    {
        PlayerLife { max, current }
    }

    pub fn max_life(&self) -> (r: usize)
        ensures
            r == self.spec_max(),
    {
        self.max
    }

    pub fn current(&self) -> (r: usize)
        ensures
            r == self.spec_current(),
    {
        self.current
    }

    /// Loses one point of health, never below zero.
    pub fn lose(&mut self)
        ensures
            final(self).spec_max() == old(self).spec_max(),
            final(self).spec_current() == if old(self).spec_current() >= 1 {
                (old(self).spec_current() - 1) as usize
            } else {
                0usize
            },
    {
        if self.current >= 1 {
            self.current = self.current - 1;
        }
    }

    /// Gains one point of health, capped at the maximum: an over-full pool
    /// (a shrunken maximum) settles back down to it.
    pub fn gain(&mut self)
        ensures
            final(self).spec_max() == old(self).spec_max(),
            final(self).spec_current() == if old(self).spec_current() < old(self).spec_max() {
                (old(self).spec_current() + 1) as usize
            } else {
                old(self).spec_max()
            },
    {
        if self.current < self.max {
            self.current = self.current + 1;
        } else {
            self.current = self.max;
        }
    }

    /// Restores health to the maximum.
    pub fn heal(&mut self)
        ensures
            final(self).spec_max() == old(self).spec_max(),
            final(self).spec_current() == old(self).spec_max(),
    {
        self.current = self.max;
    }

    pub fn set_current(&mut self, to: usize)
        ensures
            final(self).spec_max() == old(self).spec_max(),
            final(self).spec_current() == to,
    {
        self.current = to;
    }

    /// Grows the pool by one heart (two points) and heals; for new heart
    /// containers.
    pub fn grow(&mut self)
        requires
            old(self).spec_max() + 2 <= usize::MAX,
        ensures
            final(self).spec_max() == old(self).spec_max() + 2,
            final(self).spec_current() == final(self).spec_max(),
    {
        self.max = self.max + 2;
        self.heal();
    }
}

/// The atlas frame for the heart at display position `idx`: 0 full, 1 half,
/// 2 empty.
pub fn heart_index(current: usize, idx: usize) -> (r: usize)
    requires
        idx <= usize::MAX / 2,
    ensures
        current <= 2 * idx ==> r == 2,
        current == 2 * idx + 1 ==> r == 1,
        current >= 2 * idx + 2 ==> r == 0,
{
    if current <= 2 * idx {
        2
    } else if current - 2 * idx == 1 {
        1
    } else {
        0
    }
}

/// On death (health reached zero this tick), boss progress that must be
/// replayed is cleared; the caller starts the death cutscene and screen
/// shake exactly when this returns true.
pub fn die(life: &PlayerLife, life_changed: bool, data: &mut GameData) -> (dead: bool)
    requires
        old(data).inv(),
    ensures
        final(data).inv(),
        dead == (life_changed && life.spec_current() == 0),
        dead ==> forall|f: Flags|
            final(data).spec_has_flag(f) == (old(data).spec_has_flag(f) && f != Flags::Boss1Start
                && f != Flags::Boss2Start && f != Flags::Boss3Start && f
                != Flags::Boss1WallPresent && f != Flags::Boss2WallPresent),
        !dead ==> *final(data) == *old(data),
        final(data).spec_last_spawner() == old(data).spec_last_spawner(),
        final(data).spec_max_life() == old(data).spec_max_life(),
        final(data).spec_removed_names() == old(data).spec_removed_names(),
{
    if life_changed && life.current() == 0 {
        data.remove_flag(Flags::Boss1Start);
        data.remove_flag(Flags::Boss2Start);
        data.remove_flag(Flags::Boss3Start);
        data.remove_flag(Flags::Boss1WallPresent);
        data.remove_flag(Flags::Boss2WallPresent);
        true
    } else {
        false
    }
}

/// A new-heart sensor fired for `target`: the first heart entity of that
/// name not yet consumed is recorded, vanishes (its index is returned), and
/// the pool grows by one heart.
pub fn collect_new_heart(
    target: &String,
    names: &Vec<String>,
    data: &mut GameData,
    life: &mut PlayerLife,
) -> (r: Option<usize>)
    requires
        old(data).inv(),
        old(life).spec_max() + 2 <= usize::MAX,
    ensures
        final(data).inv(),
        (match r {
            Some(i) => {
                &&& i < names@.len()
                &&& names@[i as int]@ == target@
                &&& !old(data).spec_removed(target@)
                &&& final(data).spec_removed_names() == old(data).spec_removed_names().push(
                    target@,
                )
                &&& final(life).spec_max() == old(life).spec_max() + 2
                &&& final(life).spec_current() == final(life).spec_max()
            },
            None => {
                &&& *final(life) == *old(life)
                &&& *final(data) == *old(data)
                &&& (forall|i: int|
                    0 <= i < names@.len() ==> #[trigger] names@[i]@ != target@ || old(
                        data,
                    ).spec_removed(target@))
            },
        }),
{
    let mut i: usize = 0;
    loop
        invariant
            old(data).inv(),
            old(life).spec_max() + 2 <= usize::MAX,
            *data == *old(data),
            *life == *old(life),
            0 <= i <= names@.len(),
            forall|k: int|
                0 <= k < i ==> #[trigger] names@[k]@ != target@ || old(data).spec_removed(
                    target@,
                ),
        decreases names@.len() - i,
    {
        if i >= names.len() {
            return None;
        }
        let name = &names[i];
        if *name == *target {
            if !data.removed_named_contains(name) {
                data.removed_named_insert(name.clone());
                life.grow();
                return Some(i);
            }
        }
        i = i + 1;
    }
}

} // verus!
