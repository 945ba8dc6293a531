//! Persisted game data: the flag set of feature unlocks and story
//! progress, the last checkpoint's spawner id, and the maximum health.
//! These fields are the only state the engine reads or writes across
//! save/load boundaries; the storage itself lives outside.

use vstd::prelude::*;

use crate::params;

verus! {

/// Boolean feature unlocks and story progress markers.
#[derive(Copy, Clone, Eq, PartialEq, Structural, Debug, Hash)]
pub enum Flags {
    /// The intro has been seen.
    Intro,
    /// The player can become small.
    SizeS,
    /// The player can become large.
    SizeL,
    /// The player can dash.
    Dash,
    /// The 1st boss fight has begun.
    Boss1Start,
    /// The 1st boss is defeated.
    Boss1Defeated,
    /// The 2nd boss fight has begun.
    Boss2Start,
    /// The 2nd boss is defeated.
    Boss2Defeated,
    /// Tension music.
    Tension,
    /// The 3rd boss fight has begun.
    Boss3Start,
    /// The 3rd boss is defeated.
    Boss3Defeated,
    /// Whether to show the boss1 wall.
    Boss1WallPresent,
    /// Whether to show the boss2 wall.
    Boss2WallPresent,
    /// Whether to show the boss3 wall.
    Boss3WallPresent,
}

/// Persisted game data.
pub struct GameData {
    flags: Vec<Flags>,
    last_spawner: String,
    max_life: usize,
    removed_named: Vec<String>,
}

impl GameData {
    /// No flag and no removed name is recorded twice.
    pub closed spec fn inv(&self) -> bool {
        &&& (forall|i: int, j: int|
            0 <= i < j < self.flags@.len() ==> self.flags@[i] != self.flags@[j])
        &&& (forall|i: int, j: int|
            0 <= i < j < self.removed_named@.len() ==> #[trigger] self.removed_named@[i]@
                != #[trigger] self.removed_named@[j]@)
    }

    pub closed spec fn spec_flags(&self) -> Seq<Flags> {
        self.flags@
    }

    pub open spec fn spec_has_flag(&self, flag: Flags) -> bool {
        self.spec_flags().contains(flag)
    }

    pub closed spec fn spec_removed_names(&self) -> Seq<Seq<char>> {
        self.removed_named@.map_values(|s: String| s@)
    }

    pub open spec fn spec_removed(&self, name: Seq<char>) -> bool {
        self.spec_removed_names().contains(name)
    }

    pub closed spec fn spec_last_spawner(&self) -> Seq<char> {
        self.last_spawner@
    }

    pub closed spec fn spec_max_life(&self) -> usize {
        self.max_life
    }

    /// The spawner id of the last checkpoint reached.
    pub fn last_spawner(&self) -> (r: &String)
        ensures
            r@ == self.spec_last_spawner(),
    {
        &self.last_spawner
    }

    pub fn max_life(&self) -> (r: usize)
        ensures
            r == self.spec_max_life(),
    {
        self.max_life
    }

    /// The recorded flags, for the save-data collaborator.
    pub fn flags_list(&self) -> (r: &Vec<Flags>)
        ensures
            r@ == self.spec_flags(),
    {
        &self.flags
    }

    /// The consumed names, for the save-data collaborator.
    pub fn removed_named_list(&self) -> (r: &Vec<String>)
        ensures
            r@.map_values(|s: String| s@) == self.spec_removed_names(),
    {
        &self.removed_named
    }

    pub fn default() -> (r: Self)
        ensures
            r.inv(),
            r.spec_flags() == Seq::<Flags>::empty(),
            r.spec_removed_names() == Seq::<Seq<char>>::empty(),
            forall|f: Flags| !r.spec_has_flag(f),
            forall|n: Seq<char>| !r.spec_removed(n),
            r.spec_last_spawner() == "start"@,
            r.spec_max_life() == params::STARTING_LIFE,
    {
        let r = GameData {
            flags: Vec::new(),
            last_spawner: params::initial_spawner_id(),
            max_life: params::STARTING_LIFE,
            removed_named: Vec::new(),
        };
        proof {
            assert(r.spec_removed_names() =~= Seq::<Seq<char>>::empty());
        }
        r
    }

    pub fn has_flag(&self, flag: Flags) -> (r: bool)
        ensures
            r == self.spec_has_flag(flag),
    {
        let mut i: usize = 0;
        loop
            invariant
                0 <= i <= self.flags@.len(),
                forall|k: int| 0 <= k < i ==> self.flags@[k] != flag,
            decreases self.flags@.len() - i,
        {
            if i >= self.flags.len() {
                proof {
                    assert(!self.flags@.contains(flag));
                }
                return false;
            }
            if self.flags[i] == flag {
                proof {
                    assert(self.flags@[i as int] == flag);
                }
                return true;
            }
            i = i + 1;
        }
    }

    /// Sets the flag; setting a flag that is already set changes nothing.
    pub fn set_flag(&mut self, flag: Flags)
        requires
            old(self).inv(),
        ensures
            final(self).inv(),
            forall|f: Flags| final(self).spec_has_flag(f) == (old(self).spec_has_flag(f) || f
                == flag),
            final(self).spec_removed_names() == old(self).spec_removed_names(),
            final(self).spec_last_spawner() == old(self).spec_last_spawner(),
            final(self).spec_max_life() == old(self).spec_max_life(),
    {
        let ghost flags0 = self.flags@;
        if !self.has_flag(flag) {
            self.flags.push(flag);
            proof {
                let now = self.flags@;
                assert(now[flags0.len() as int] == flag);
                assert forall|f: Flags| now.contains(f) implies (flags0.contains(f) || f
                    == flag) by {
                    let k = choose|k: int| 0 <= k < now.len() && now[k] == f;
                    if k < flags0.len() {
                        assert(flags0[k] == f);
                    }
                }
                assert forall|f: Flags| flags0.contains(f) implies now.contains(f) by {
                    let k = choose|k: int| 0 <= k < flags0.len() && flags0[k] == f;
                    assert(now[k] == f);
                }
                assert forall|i: int, j: int| 0 <= i < j < now.len() implies now[i] != now[j] by {
                    if j == now.len() - 1 {
                        assert(now[i] == flags0[i]);
                        assert(flags0[i] != flag);
                    }
                }
            }
        }
    }

    /// Clears the flag; clearing an unset flag changes nothing.
    pub fn remove_flag(&mut self, flag: Flags)
        requires
            old(self).inv(),
        ensures
            final(self).inv(),
            forall|f: Flags| final(self).spec_has_flag(f) == (old(self).spec_has_flag(f) && f
                != flag),
            final(self).spec_removed_names() == old(self).spec_removed_names(),
            final(self).spec_last_spawner() == old(self).spec_last_spawner(),
            final(self).spec_max_life() == old(self).spec_max_life(),
    {
        let ghost flags0 = self.flags@;
        let mut i: usize = 0;
        loop
            invariant
                self.flags@ == flags0,
                flags0 == old(self).flags@,
                self.last_spawner == old(self).last_spawner,
                self.max_life == old(self).max_life,
                self.removed_named == old(self).removed_named,
                old(self).inv(),
                0 <= i <= flags0.len(),
                forall|k: int| 0 <= k < i ==> flags0[k] != flag,
            decreases flags0.len() - i,
        {
            if i >= self.flags.len() {
                proof {
                    assert(!flags0.contains(flag));
                }
                return;
            }
            if self.flags[i] == flag {
                self.flags.remove(i);
                proof {
                    flags0.remove_ensures(i as int);
                    let now = self.flags@;
                    assert(forall|k: int| 0 <= k < i ==> #[trigger] now[k] == flags0[k]);
                    assert(forall|k: int|
                        i <= k < now.len() ==> #[trigger] now[k] == flags0[k + 1]);
                    assert forall|f: Flags| now.contains(f) implies (flags0.contains(f) && f
                        != flag) by {
                        let k = choose|k: int| 0 <= k < now.len() && now[k] == f;
                        if k < i {
                            assert(flags0[k] == f);
                        } else {
                            assert(flags0[k + 1] == f);
                        }
                    }
                    assert forall|f: Flags| flags0.contains(f) && f != flag implies now.contains(
                        f,
                    ) by {
                        let k = choose|k: int| 0 <= k < flags0.len() && flags0[k] == f;
                        if k < i {
                            assert(now[k] == f);
                        } else if k == i {
                            assert(false);
                        } else {
                            assert(now[k - 1] == f);
                        }
                    }
                    assert forall|a: int, b: int| 0 <= a < b < now.len() implies now[a]
                        != now[b] by {
                        if b < i {
                        } else if a < i {
                            assert(now[a] == flags0[a] && now[b] == flags0[b + 1]);
                        } else {
                            assert(now[a] == flags0[a + 1] && now[b] == flags0[b + 1]);
                        }
                    }
                }
                return;
            }
            i = i + 1;
        }
    }

    /// Whether this level-authored name was already consumed (for one-time
    /// pickups that must not respawn).
    pub fn removed_named_contains(&self, name: &String) -> (r: bool)
        ensures
            r == self.spec_removed(name@),
    {
        let ghost names = self.spec_removed_names();
        let mut i: usize = 0;
        loop
            invariant
                names == self.spec_removed_names(),
                names.len() == self.removed_named@.len(),
                forall|k: int|
                    0 <= k < names.len() ==> names[k] == #[trigger] self.removed_named@[k]@,
                0 <= i <= names.len(),
                forall|k: int| 0 <= k < i ==> names[k] != name@,
            decreases names.len() - i,
        {
            if i >= self.removed_named.len() {
                proof {
                    assert(!names.contains(name@));
                }
                return false;
            }
            let cur = &self.removed_named[i];
            if *cur == *name {
                proof {
                    assert(names[i as int] == name@);
                }
                return true;
            }
            i = i + 1;
        }
    }

    /// Records a consumed name; says whether it was new.
    pub fn removed_named_insert(&mut self, name: String) -> (fresh: bool)
        requires
            old(self).inv(),
        ensures
            final(self).inv(),
            fresh == !old(self).spec_removed(name@),
            fresh ==> final(self).spec_removed_names() == old(self).spec_removed_names().push(
                name@,
            ),
            !fresh ==> final(self).spec_removed_names() == old(self).spec_removed_names(),
            forall|n: Seq<char>| final(self).spec_removed(n) == (old(self).spec_removed(n) || n
                == name@),
            final(self).spec_flags() == old(self).spec_flags(),
            final(self).spec_last_spawner() == old(self).spec_last_spawner(),
            final(self).spec_max_life() == old(self).spec_max_life(),
    {
        let ghost names0 = self.spec_removed_names();
        if self.removed_named_contains(&name) {
            false
        } else {
            self.removed_named.push(name);
            proof {
                let names = self.spec_removed_names();
                assert(names =~= names0.push(name@));
                let l = names.len() - 1;
                assert(names[l] == name@);
                assert forall|n: Seq<char>| names.contains(n) implies (names0.contains(n) || n
                    == name@) by {
                    let k = choose|k: int| 0 <= k < names.len() && names[k] == n;
                    if k < l {
                        assert(names0[k] == n);
                    }
                }
                assert forall|n: Seq<char>| names0.contains(n) implies names.contains(n) by {
                    let k = choose|k: int| 0 <= k < names0.len() && names0[k] == n;
                    assert(names[k] == n);
                }
                assert forall|a: int, b: int|
                    0 <= a < b < self.removed_named@.len() implies #[trigger] self
                        .removed_named@[a]@ != #[trigger] self.removed_named@[b]@ by {
                    assert(self.removed_named@[a]@ == names[a]);
                    assert(self.removed_named@[b]@ == names[b]);
                    if b == l {
                        assert(names[a] == names0[a]);
                        assert(!names0.contains(name@));
                    } else {
                        assert(old(self).removed_named@[a]@ == names0[a]);
                        assert(old(self).removed_named@[b]@ == names0[b]);
                    }
                }
            }
            true
        }
    }
}

/// The flag a wall's authored name refers to, if any.
pub open spec fn spec_wall_flag(name: Seq<char>) -> Option<Flags> {
    if name == "Boss1Wall"@ {
        Some(Flags::Boss1WallPresent)
    } else if name == "Boss2Wall"@ {
        Some(Flags::Boss2WallPresent)
    } else if name == "Boss3Wall"@ {
        Some(Flags::Boss3WallPresent)
    } else {
        None
    }
}

/// Maps a wall's authored name to the flag that governs its presence;
/// an unknown name is a data-authoring error the caller surfaces.
pub fn name_to_flag(name: &String) -> (r: Option<Flags>)
    ensures
        name@ == "Boss1Wall"@ ==> r == Some(Flags::Boss1WallPresent),
        name@ == "Boss2Wall"@ ==> r == Some(Flags::Boss2WallPresent),
        name@ == "Boss3Wall"@ ==> r == Some(Flags::Boss3WallPresent),
        name@ != "Boss1Wall"@ && name@ != "Boss2Wall"@ && name@ != "Boss3Wall"@ ==> r is None,
{
    proof {
        reveal_strlit("Boss1Wall");
        reveal_strlit("Boss2Wall");
        reveal_strlit("Boss3Wall");
        assert("Boss1Wall"@ != "Boss2Wall"@) by {
            assert("Boss1Wall"@[4] == '1');
            assert("Boss2Wall"@[4] == '2');
        }
        assert("Boss1Wall"@ != "Boss3Wall"@) by {
            assert("Boss1Wall"@[4] == '1');
            assert("Boss3Wall"@[4] == '3');
        }
        assert("Boss2Wall"@ != "Boss3Wall"@) by {
            assert("Boss2Wall"@[4] == '2');
            assert("Boss3Wall"@[4] == '3');
        }
    }
    let b1: String = "Boss1Wall".to_owned();
    let b2: String = "Boss2Wall".to_owned();
    let b3: String = "Boss3Wall".to_owned();
    if *name == b1 {
        Some(Flags::Boss1WallPresent)
    } else if *name == b2 {
        Some(Flags::Boss2WallPresent)
    } else if *name == b3 {
        Some(Flags::Boss3WallPresent)
    } else {
        None
    }
}

/// Debug-reset: wipes the game data back to a fresh state when the reset
/// input was pressed.
pub fn reset(data: &mut GameData, pressed: bool)
    ensures
        pressed ==> final(data).inv() && (forall|f: Flags| !final(data).spec_has_flag(f))
            && final(data).spec_last_spawner() == "start"@ && final(data).spec_max_life()
            == params::STARTING_LIFE,
        !pressed ==> *final(data) == *old(data),
{
    if pressed {
        *data = GameData::default();
    }
}

/// Folds the tick's checkpoint and health changes into the persisted data;
/// the caller hands the result to the storage collaborator when anything
/// changed.
pub fn save(
    data: &mut GameData,
    spawner_id: &String,
    max_life: usize,
    level_changed: bool,
    life_changed: bool,
)
    ensures
        level_changed ==> final(data).spec_last_spawner() == spawner_id@,
        !level_changed ==> final(data).spec_last_spawner() == old(data).spec_last_spawner(),
        life_changed ==> final(data).spec_max_life() == max_life,
        !life_changed ==> final(data).spec_max_life() == old(data).spec_max_life(),
        final(data).spec_flags() == old(data).spec_flags(),
        final(data).spec_removed_names() == old(data).spec_removed_names(),
        old(data).inv() ==> final(data).inv(),
{
    if level_changed {
        data.last_spawner = spawner_id.clone();
    }
    if life_changed {
        data.max_life = max_life;
    }
}


/// The flag a level-authored name refers to: the variant with exactly
/// that name.
pub open spec fn spec_flag_name(f: Flags) -> Seq<char> {
    match f {
        Flags::Intro => "Intro"@,
        Flags::SizeS => "SizeS"@,
        Flags::SizeL => "SizeL"@,
        Flags::Dash => "Dash"@,
        Flags::Boss1Start => "Boss1Start"@,
        Flags::Boss1Defeated => "Boss1Defeated"@,
        Flags::Boss2Start => "Boss2Start"@,
        Flags::Boss2Defeated => "Boss2Defeated"@,
        Flags::Tension => "Tension"@,
        Flags::Boss3Start => "Boss3Start"@,
        Flags::Boss3Defeated => "Boss3Defeated"@,
        Flags::Boss1WallPresent => "Boss1WallPresent"@,
        Flags::Boss2WallPresent => "Boss2WallPresent"@,
        Flags::Boss3WallPresent => "Boss3WallPresent"@,
    }
}

/// Parses a flag's name, for flag-gated level entities; an unknown name
/// is a data-authoring error the caller surfaces.
pub fn parse_flag(name: &String) -> (r: Option<Flags>)
    ensures
        (r matches Some(f) ==> name@ == spec_flag_name(f)),
        (r is None ==> forall|f: Flags| name@ != #[trigger] spec_flag_name(f)),
{
    proof {
        reveal_strlit("Intro");
        reveal_strlit("SizeS");
        reveal_strlit("SizeL");
        reveal_strlit("Dash");
        reveal_strlit("Boss1Start");
        reveal_strlit("Boss2Start");
        reveal_strlit("Boss3Start");
        reveal_strlit("Boss1Defeated");
        reveal_strlit("Boss2Defeated");
        reveal_strlit("Boss3Defeated");
        reveal_strlit("Boss1WallPresent");
        reveal_strlit("Boss2WallPresent");
        reveal_strlit("Boss3WallPresent");
        reveal_strlit("Tension");
    }
    let cands: Vec<(String, Flags)> = vec![
        ("Intro".to_owned(), Flags::Intro),
        ("SizeS".to_owned(), Flags::SizeS),
        ("SizeL".to_owned(), Flags::SizeL),
        ("Dash".to_owned(), Flags::Dash),
        ("Boss1Start".to_owned(), Flags::Boss1Start),
        ("Boss1Defeated".to_owned(), Flags::Boss1Defeated),
        ("Boss2Start".to_owned(), Flags::Boss2Start),
        ("Boss2Defeated".to_owned(), Flags::Boss2Defeated),
        ("Tension".to_owned(), Flags::Tension),
        ("Boss3Start".to_owned(), Flags::Boss3Start),
        ("Boss3Defeated".to_owned(), Flags::Boss3Defeated),
        ("Boss1WallPresent".to_owned(), Flags::Boss1WallPresent),
        ("Boss2WallPresent".to_owned(), Flags::Boss2WallPresent),
        ("Boss3WallPresent".to_owned(), Flags::Boss3WallPresent),
    ];
    proof {
        assert forall|k: int|
            0 <= k < cands@.len() implies (#[trigger] cands@[k]).0@ == spec_flag_name(
            cands@[k].1,
        ) by {
            if k == 0 {
            } else if k == 1 {
            } else if k == 2 {
            } else if k == 3 {
            } else if k == 4 {
            } else if k == 5 {
            } else if k == 6 {
            } else if k == 7 {
            } else if k == 8 {
            } else if k == 9 {
            } else if k == 10 {
            } else if k == 11 {
            } else if k == 12 {
            } else {
                assert(k == 13);
            }
        }
        assert(forall|f: Flags| exists|i: int|
            0 <= i < cands@.len() && (#[trigger] cands@[i]).1 == f && cands@[i].0@
                == #[trigger] spec_flag_name(f)) by {
            assert(cands@[0].1 == Flags::Intro && cands@[0].0@ == spec_flag_name(Flags::Intro));
            assert(cands@[1].1 == Flags::SizeS && cands@[1].0@ == spec_flag_name(Flags::SizeS));
            assert(cands@[2].1 == Flags::SizeL && cands@[2].0@ == spec_flag_name(Flags::SizeL));
            assert(cands@[3].1 == Flags::Dash && cands@[3].0@ == spec_flag_name(Flags::Dash));
            assert(cands@[4].1 == Flags::Boss1Start && cands@[4].0@ == spec_flag_name(
                Flags::Boss1Start,
            ));
            assert(cands@[5].1 == Flags::Boss1Defeated && cands@[5].0@ == spec_flag_name(
                Flags::Boss1Defeated,
            ));
            assert(cands@[6].1 == Flags::Boss2Start && cands@[6].0@ == spec_flag_name(
                Flags::Boss2Start,
            ));
            assert(cands@[7].1 == Flags::Boss2Defeated && cands@[7].0@ == spec_flag_name(
                Flags::Boss2Defeated,
            ));
            assert(cands@[8].1 == Flags::Tension && cands@[8].0@ == spec_flag_name(
                Flags::Tension,
            ));
            assert(cands@[9].1 == Flags::Boss3Start && cands@[9].0@ == spec_flag_name(
                Flags::Boss3Start,
            ));
            assert(cands@[10].1 == Flags::Boss3Defeated && cands@[10].0@ == spec_flag_name(
                Flags::Boss3Defeated,
            ));
            assert(cands@[11].1 == Flags::Boss1WallPresent && cands@[11].0@ == spec_flag_name(
                Flags::Boss1WallPresent,
            ));
            assert(cands@[12].1 == Flags::Boss2WallPresent && cands@[12].0@ == spec_flag_name(
                Flags::Boss2WallPresent,
            ));
            assert(cands@[13].1 == Flags::Boss3WallPresent && cands@[13].0@ == spec_flag_name(
                Flags::Boss3WallPresent,
            ));
        }
    }
    let mut i: usize = 0;
    while i < cands.len()
        invariant
            forall|k: int|
                0 <= k < cands@.len() ==> (#[trigger] cands@[k]).0@ == spec_flag_name(
                    cands@[k].1,
                ),
            forall|f: Flags| exists|k: int|
                0 <= k < cands@.len() && (#[trigger] cands@[k]).1 == f && cands@[k].0@
                    == #[trigger] spec_flag_name(f),
            0 <= i <= cands@.len(),
            forall|k: int| 0 <= k < i ==> (#[trigger] cands@[k]).0@ != name@,
        decreases cands@.len() - i,
    {
        if cands[i].0 == *name {
            proof {
                assert(cands@[i as int].0@ == name@);
            }
            let f = cands[i].1;
            proof {
                assert(name@ == cands@[i as int].0@);
            }
            return Some(cands[i].1);
        }
        i = i + 1;
    }
    proof {
        assert forall|f: Flags| name@ != #[trigger] spec_flag_name(f) by {
            let k = choose|k: int|
                0 <= k < cands@.len() && (#[trigger] cands@[k]).1 == f && cands@[k].0@
                    == spec_flag_name(f);
            assert(cands@[k].0@ != name@);
        }
    }
    None
}

} // verus!
