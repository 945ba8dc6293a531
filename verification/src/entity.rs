//! Entity identities and the shared per-kind combat statistics.

use vstd::prelude::*;

use vstd::string::StringSliceAdditionalSpecFns;

use crate::data::{Flags, GameData};
use crate::params;
use crate::player::PlayerSize;

verus! {

/// Which kind of animated entity a clock and state belong to; timelines are
/// looked up by this tag together with the current state.
#[derive(Copy, Clone, Eq, PartialEq, Structural, Debug, Hash)]
pub enum EntityID {
    Player(PlayerSize),
    Zombie(usize),
    Bird(PlayerSize),
    DetectionPlatform(PlayerSize),
    OldGuy,
    Boss1,
    Boss2,
    Boss3,
}

/// A level-authored name carried by an entity, used to match persisted
/// removals and flag-driven walls.
#[derive(Debug)]
pub struct NamedEntity(pub String);

/// What touching this entity does to the player.
///
/// Speeds are milli-pixels per second, durations milliseconds.
#[derive(Copy, Clone, Debug)]
pub struct Enemy {
    pub player_knockback_speed: i64,
    pub player_knockback_time: i64,
    pub player_hurt_time: i64,
}

/// Combat statistics per enemy kind: what touching one of these does to
/// the player. Unknown kinds are harmless.
pub fn get_enemy(id: &String) -> (r: Option<Enemy>)
    ensures
        (id@ == "Zombie"@ || id@ == "ZombieL"@ || id@ == "Eye1"@ || id@ == "Bird"@ || id@
            == "Boss1"@ || id@ == "Boss2"@ || id@ == "Eye2"@ || id@ == "Boss3"@) ==> (r matches
        Some(e) && e.player_knockback_speed == params::ENEMIES_KNOCKBACK_SPEED
            && e.player_knockback_time == params::ENEMIES_KNOCKBACK_TIME && e.player_hurt_time
            == params::ENEMIES_KNOCKBACK_TIME),
        id@ == "DamageZone"@ ==> (r matches Some(e) && e.player_knockback_speed
            == params::SPIKES_KNOCKBACK_SPEED && e.player_knockback_time
            == params::SPIKES_KNOCKBACK_TIME && e.player_hurt_time
            == params::SPIKES_KNOCKBACK_TIME),
        !(id@ == "Zombie"@ || id@ == "ZombieL"@ || id@ == "Eye1"@ || id@ == "Bird"@ || id@
            == "Boss1"@ || id@ == "Boss2"@ || id@ == "Eye2"@ || id@ == "Boss3"@ || id@
            == "DamageZone"@) ==> r is None,
{
    proof {
        reveal_strlit("Zombie");
        reveal_strlit("ZombieL");
        reveal_strlit("Eye1");
        reveal_strlit("Bird");
        reveal_strlit("Boss1");
        reveal_strlit("Boss2");
        reveal_strlit("Eye2");
        reveal_strlit("Boss3");
        reveal_strlit("DamageZone");
        assert("DamageZone"@.len() == 10);
        assert("Zombie"@.len() == 6);
        assert("ZombieL"@.len() == 7);
        assert("Eye1"@.len() == 4);
        assert("Bird"@.len() == 4);
        assert("Boss1"@.len() == 5);
        assert("Boss2"@.len() == 5);
        assert("Eye2"@.len() == 4);
        assert("Boss3"@.len() == 5);
    }
    let standard = Enemy {
        player_knockback_speed: params::ENEMIES_KNOCKBACK_SPEED,
        player_knockback_time: params::ENEMIES_KNOCKBACK_TIME,
        player_hurt_time: params::ENEMIES_KNOCKBACK_TIME,
    };
    if *id == "Zombie".to_owned() || *id == "ZombieL".to_owned() || *id == "Eye1".to_owned()
        || *id == "Bird".to_owned() || *id == "Boss1".to_owned() || *id == "Boss2".to_owned()
        || *id == "Eye2".to_owned() || *id == "Boss3".to_owned() {
        Some(standard)
    } else if *id == "DamageZone".to_owned() {
        Some(
            Enemy {
                player_knockback_speed: params::SPIKES_KNOCKBACK_SPEED,
                player_knockback_time: params::SPIKES_KNOCKBACK_TIME,
                player_hurt_time: params::SPIKES_KNOCKBACK_TIME,
            },
        )
    } else {
        None
    }
}

/// Splits a sensor's event name off its routing prefix, byte-exactly:
/// `Some(payload)` when the name starts with the prefix and the cut falls
/// on a character boundary.
pub fn sensor_payload(name: &str, prefix: &str) -> (r: Option<String>)
    ensures
        r is Some <==> (name.spec_bytes().len() >= prefix.spec_bytes().len()
            && name.spec_bytes().subrange(0, prefix.spec_bytes().len() as int)
            == prefix.spec_bytes() && vstd::utf8::is_char_boundary(
            name.spec_bytes(),
            prefix.spec_bytes().len() as int,
        )),
        (r matches Some(s) ==> vstd::utf8::encode_utf8(s@) == name.spec_bytes().subrange(
            prefix.spec_bytes().len() as int,
            name.spec_bytes().len() as int,
        )),
{
    let nb = name.as_bytes();
    let pb = prefix.as_bytes();
    if nb.len() < pb.len() {
        return None;
    }
    let mut i: usize = 0;
    while i < pb.len()
        invariant
            nb@ == name.spec_bytes(),
            pb@ == prefix.spec_bytes(),
            nb@.len() >= pb@.len(),
            0 <= i <= pb@.len(),
            forall|k: int| 0 <= k < i ==> nb@[k] == pb@[k],
        decreases pb@.len() - i,
    {
        if nb[i] != pb[i] {
            proof {
                assert(name.spec_bytes().subrange(0, pb@.len() as int) != prefix.spec_bytes())
                    by {
                    assert(name.spec_bytes().subrange(0, pb@.len() as int)[i as int]
                        == nb@[i as int]);
                }
            }
            return None;
        }
        i = i + 1;
    }
    proof {
        assert(name.spec_bytes().subrange(0, pb@.len() as int) =~= prefix.spec_bytes());
    }
    if !name.is_char_boundary(pb.len()) {
        return None;
    }
    let (_, rest) = name.split_at(pb.len());
    let payload = rest.to_owned();
    proof {
        assert(payload@ == rest@);
        assert(vstd::utf8::encode_utf8(payload@) == rest.spec_bytes());
        assert(vstd::utf8::encode_utf8(payload@) =~= name.spec_bytes().subrange(
            prefix.spec_bytes().len() as int,
            name.spec_bytes().len() as int,
        ));
    }
    Some(payload)
}

/// One sensor's enter/exit transition for the tick: entered when the
/// player newly overlaps it, exited when a recorded overlap ends.
pub fn sensor_transition(was_inside: bool, overlapping: bool) -> (r: (bool, bool))
    ensures
        r.0 == (!was_inside && overlapping),
        r.1 == (was_inside && !overlapping),
{
    (!was_inside && overlapping, was_inside && !overlapping)
}

/// Whether a flag-gated wall is present this tick; unknown wall names are
/// a data-authoring error.
pub fn wall_should_be_present(name: &String, data: &GameData) -> (r: Option<bool>)
    ensures
        (match crate::data::spec_wall_flag(name@) {
            Some(f) => r == Some(data.spec_has_flag(f)),
            None => r is None,
        }),
{
    match crate::data::name_to_flag(name) {
        Some(f) => Some(data.has_flag(f)),
        None => None,
    }
}

/// A sword prop vanishes once its power has been claimed.
pub fn sword_should_disappear(name: &String, data: &GameData) -> (r: bool)
    ensures
        r == ((name@ == "Sword1"@ && data.spec_has_flag(Flags::SizeS)) || (name@ == "Sword2"@
            && data.spec_has_flag(Flags::SizeL))),
{
    proof {
        reveal_strlit("Sword1");
        reveal_strlit("Sword2");
        assert("Sword1"@ != "Sword2"@) by {
            assert("Sword1"@[5] == '1');
            assert("Sword2"@[5] == '2');
        }
    }
    let s1: String = "Sword1".to_owned();
    let s2: String = "Sword2".to_owned();
    if *name == s1 {
        data.has_flag(Flags::SizeS)
    } else if *name == s2 {
        data.has_flag(Flags::SizeL)
    } else {
        false
    }
}


/// The engine identity of a level-authored entity kind; `Some(None)` for
/// auxiliary kinds that carry no animated identity, `None` for an unknown
/// kind (a data-authoring error). The zombie's size field rides along.
pub fn get_entity_id(identifier: &String, zombie_size: usize) -> (r: Option<Option<EntityID>>)
    ensures
        identifier@ == "Player"@ ==> r == Some(Some(EntityID::Player(PlayerSize::M))),
        identifier@ == "Zombie"@ ==> r == Some(Some(EntityID::Zombie(zombie_size))),
        identifier@ == "Bird"@ ==> r == Some(Some(EntityID::Bird(PlayerSize::S))),
        identifier@ == "Boss1"@ ==> r == Some(Some(EntityID::Boss1)),
        identifier@ == "Boss2"@ ==> r == Some(Some(EntityID::Boss2)),
        identifier@ == "Boss3"@ ==> r == Some(Some(EntityID::Boss3)),
        identifier@ == "OldGuy"@ ==> r == Some(Some(EntityID::OldGuy)),
        (identifier@ == "Spawner"@ || identifier@ == "Checkpoint"@ || identifier@
            == "DamageZone"@ || identifier@ == "PlayerSensor"@ || identifier@ == "ImageEntity"@
            || identifier@ == "Wall"@) ==> r == Some(None::<EntityID>),
        !(identifier@ == "Player"@ || identifier@ == "Zombie"@ || identifier@ == "Bird"@
            || identifier@ == "Boss1"@ || identifier@ == "Boss2"@ || identifier@ == "Boss3"@
            || identifier@ == "OldGuy"@ || identifier@ == "Spawner"@ || identifier@
            == "Checkpoint"@ || identifier@ == "DamageZone"@ || identifier@ == "PlayerSensor"@
            || identifier@ == "ImageEntity"@ || identifier@ == "Wall"@) ==> r is None,
{
    proof {
        reveal_strlit("Player");
        reveal_strlit("Zombie");
        reveal_strlit("Bird");
        reveal_strlit("Boss1");
        reveal_strlit("Boss2");
        reveal_strlit("Boss3");
        reveal_strlit("OldGuy");
        reveal_strlit("Spawner");
        reveal_strlit("Checkpoint");
        reveal_strlit("DamageZone");
        reveal_strlit("PlayerSensor");
        reveal_strlit("ImageEntity");
        reveal_strlit("Wall");
        assert("Player"@.len() == 6);
        assert("Zombie"@.len() == 6);
        assert("Bird"@.len() == 4);
        assert("Boss1"@.len() == 5);
        assert("Boss2"@.len() == 5);
        assert("Boss3"@.len() == 5);
        assert("OldGuy"@.len() == 6);
        assert("Spawner"@.len() == 7);
        assert("Checkpoint"@.len() == 10);
        assert("DamageZone"@.len() == 10);
        assert("PlayerSensor"@.len() == 12);
        assert("ImageEntity"@.len() == 11);
        assert("Wall"@.len() == 4);
        assert("Player"@ != "Zombie"@ && "Player"@ != "OldGuy"@ && "Zombie"@ != "OldGuy"@) by {
            assert("Player"@[0] == 'P');
            assert("Zombie"@[0] == 'Z');
            assert("OldGuy"@[0] == 'O');
        }
        assert("Bird"@ != "Wall"@) by {
            assert("Bird"@[0] == 'B');
            assert("Wall"@[0] == 'W');
        }
        assert("Boss1"@ != "Boss2"@ && "Boss1"@ != "Boss3"@ && "Boss2"@ != "Boss3"@) by {
            assert("Boss1"@[4] == '1');
            assert("Boss2"@[4] == '2');
            assert("Boss3"@[4] == '3');
        }
        assert("Checkpoint"@ != "DamageZone"@) by {
            assert("Checkpoint"@[0] == 'C');
            assert("DamageZone"@[0] == 'D');
        }
    }
    if *identifier == "Player".to_owned() {
        Some(Some(EntityID::Player(PlayerSize::M)))
    } else if *identifier == "Zombie".to_owned() {
        Some(Some(EntityID::Zombie(zombie_size)))
    } else if *identifier == "Bird".to_owned() {
        Some(Some(EntityID::Bird(PlayerSize::S)))
    } else if *identifier == "Boss1".to_owned() {
        Some(Some(EntityID::Boss1))
    } else if *identifier == "Boss2".to_owned() {
        Some(Some(EntityID::Boss2))
    } else if *identifier == "Boss3".to_owned() {
        Some(Some(EntityID::Boss3))
    } else if *identifier == "OldGuy".to_owned() {
        Some(Some(EntityID::OldGuy))
    } else if *identifier == "Spawner".to_owned() || *identifier == "Checkpoint".to_owned()
        || *identifier == "DamageZone".to_owned() || *identifier == "PlayerSensor".to_owned()
        || *identifier == "ImageEntity".to_owned() || *identifier == "Wall".to_owned() {
        Some(None)
    } else {
        None
    }
}

} // verus!
