//! The player's size classes and the decisions that belong to the player
//! entity itself: growing and shrinking, and the timer-driven state
//! transitions that the motion state machine defers to.

use vstd::prelude::*;

use crate::animation::AnimStep;
use crate::combat::{Contact, PlayerHitEvent};
use crate::data::{Flags, GameData};
use crate::entity::Enemy;

verus! {

/// The three body-size variants. Each size has its own hitbox, gravity,
/// jump impulse and step durations, looked up in `params`.
#[derive(Copy, Clone, Eq, PartialEq, Structural, Debug, Hash)]
pub enum PlayerSize {
    S,
    M,
    L,
}

impl Default for PlayerSize {
    fn default() -> (r: Self)
        ensures
            r == PlayerSize::M,
    {
        PlayerSize::M
    }
}

impl PlayerSize {
    /// Hitbox dimensions in milli-pixels: (width, height).
    pub fn hitbox(&self) -> (r: (i64, i64))
        ensures
            r == spec_hitbox(*self),
    {
        match self {
            PlayerSize::S => (5000, 10000),
            PlayerSize::M => (6000, 17000),
            PlayerSize::L => (8000, 32000),
        }
    }
}

pub open spec fn spec_hitbox(size: PlayerSize) -> (i64, i64) {
    match size {
        PlayerSize::S => (5000int as i64, 10000int as i64),
        PlayerSize::M => (6000int as i64, 17000int as i64),
        PlayerSize::L => (8000int as i64, 32000int as i64),
    }
}

/// The size a level-authored field names; anything unrecognized falls
/// back to medium (a data-authoring slip, not a crash).
pub fn size_from_name(value: &String) -> (r: PlayerSize)
    ensures
        value@ == "S"@ ==> r == PlayerSize::S,
        value@ == "M"@ ==> r == PlayerSize::M,
        value@ != "S"@ && value@ != "M"@ ==> r == PlayerSize::M,
{
    proof {
        reveal_strlit("S");
        reveal_strlit("M");
        assert("S"@ != "M"@) by {
            assert("S"@[0] == 'S');
            assert("M"@[0] == 'M');
        }
    }
    let s: String = "S".to_owned();
    if *value == s {
        PlayerSize::S
    } else {
        PlayerSize::M
    }
}

/// The next size up; large is the ceiling.
pub open spec fn spec_size_up(s: PlayerSize) -> PlayerSize {
    match s {
        PlayerSize::S => PlayerSize::M,
        PlayerSize::M => PlayerSize::L,
        PlayerSize::L => PlayerSize::L,
    }
}

/// The next size down; small is the floor.
pub open spec fn spec_size_down(s: PlayerSize) -> PlayerSize {
    match s {
        PlayerSize::S => PlayerSize::S,
        PlayerSize::M => PlayerSize::S,
        PlayerSize::L => PlayerSize::M,
    }
}

/// The size the change input asks for, before any gate.
pub open spec fn spec_requested_size(size: PlayerSize, up: bool, down: bool) -> PlayerSize {
    if up {
        spec_size_up(size)
    } else {
        spec_size_down(size)
    }
}

/// The size-change decision for one tick: an up or down input changes the
/// size one step, gated on the matching sword having been found, on not
/// being mid-attack, and on the target hitbox not overlapping level
/// geometry (the `blocked` report). `None` keeps the current size.
pub fn change_size(
    size: PlayerSize,
    up: bool,
    down: bool,
    state: AnimStep,
    data: &GameData,
    blocked: bool,
) -> (r: Option<PlayerSize>)
    ensures
        r is Some <==> {
            &&& (up || down)
            &&& state != AnimStep::Attack
            &&& spec_requested_size(size, up, down) != size
            &&& (spec_requested_size(size, up, down) == PlayerSize::S ==> data.spec_has_flag(
                Flags::SizeS,
            ))
            &&& (spec_requested_size(size, up, down) == PlayerSize::L ==> data.spec_has_flag(
                Flags::SizeL,
            ))
            &&& !blocked
        },
        r matches Some(n) ==> n == spec_requested_size(size, up, down),
{
    if !up && !down {
        return None;
    }
    if state == AnimStep::Attack {
        return None;
    }
    let new_size = if up {
        match size {
            PlayerSize::S => PlayerSize::M,
            PlayerSize::M => PlayerSize::L,
            PlayerSize::L => PlayerSize::L,
        }
    } else {
        match size {
            PlayerSize::S => PlayerSize::S,
            PlayerSize::M => PlayerSize::S,
            PlayerSize::L => PlayerSize::M,
        }
    };
    if new_size == size {
        return None;
    }
    if new_size == PlayerSize::S && !data.has_flag(Flags::SizeS) {
        return None;
    }
    if new_size == PlayerSize::L && !data.has_flag(Flags::SizeL) {
        return None;
    }
    if blocked {
        return None;
    }
    Some(new_size)
}

/// The first enemy among the listed pairs with this entity id.
pub open spec fn find_enemy(enemies: Seq<(u64, Enemy)>, id: u64) -> Option<int>
    decreases enemies.len(),
{
    if enemies.len() == 0 {
        None
    } else if enemies[0].0 == id {
        Some(0int)
    } else {
        match find_enemy(enemies.skip(1), id) {
            Some(j) => Some(j + 1),
            None => None,
        }
    }
}

/// The hit event a contact with an enemy produces: the reported normal for
/// a converged contact, straight up for a penetrating one.
pub open spec fn spec_touch_event(c: Contact, enemy: Enemy) -> PlayerHitEvent {
    if c.converged {
        PlayerHitEvent { enemy_entity: c.other, enemy, normal_x: c.normal_x, normal_y: c.normal_y }
    } else {
        PlayerHitEvent { enemy_entity: c.other, enemy, normal_x: 0int as i64, normal_y: 1000int as i64 }
    }
}

/// The first resolvable enemy contact of the player's tick, as a hit
/// event.
pub open spec fn spec_player_touch(
    contacts: Seq<Contact>,
    enemies: Seq<(u64, Enemy)>,
) -> Option<PlayerHitEvent>
    decreases contacts.len(),
{
    if contacts.len() == 0 {
        None
    } else {
        let c = contacts[0];
        match find_enemy(enemies, c.other) {
            Some(j) => if c.converged || c.penetrating {
                Some(spec_touch_event(c, enemies[j].1))
            } else {
                spec_player_touch(contacts.skip(1), enemies)
            },
            None => spec_player_touch(contacts.skip(1), enemies),
        }
    }
}

fn lookup_enemy(enemies: &Vec<(u64, Enemy)>, id: u64) -> (r: Option<Enemy>)
    ensures
        (match find_enemy(enemies@, id) {
            Some(j) => r == Some(enemies@[j].1),
            None => r is None,
        }),
{
    let mut i: usize = 0;
    while i < enemies.len()
        invariant
            0 <= i <= enemies@.len(),
            forall|k: int| 0 <= k < i ==> (#[trigger] enemies@[k]).0 != id,
        decreases enemies@.len() - i,
    {
        if enemies[i].0 == id {
            proof {
                lemma_find_enemy(enemies@, id, i as int);
            }
            return Some(enemies[i].1);
        }
        i = i + 1;
    }
    proof {
        lemma_find_enemy_none(enemies@, id);
    }
    None
}

proof fn lemma_find_enemy(es: Seq<(u64, Enemy)>, id: u64, j: int)
    requires
        0 <= j < es.len(),
        es[j].0 == id,
        forall|k: int| 0 <= k < j ==> (#[trigger] es[k]).0 != id,
    ensures
        find_enemy(es, id) == Some(j),
    decreases j,
{
    if j == 0 {
    } else {
        assert(es.skip(1)[j - 1] == es[j]);
        assert(forall|k: int| 0 <= k < j - 1 ==> (#[trigger] es.skip(1)[k]).0 != id);
        lemma_find_enemy(es.skip(1), id, j - 1);
    }
}

proof fn lemma_find_enemy_none(es: Seq<(u64, Enemy)>, id: u64)
    requires
        forall|k: int| 0 <= k < es.len() ==> (#[trigger] es[k]).0 != id,
    ensures
        find_enemy(es, id) is None,
    decreases es.len(),
{
    if es.len() == 0 {
    } else {
        assert(forall|k: int| 0 <= k < es.skip(1).len() ==> (#[trigger] es.skip(1)[k]).0 != id);
        lemma_find_enemy_none(es.skip(1), id);
    }
}

/// Scans the player's contacts for the first resolvable touch of an
/// enemy.
pub fn player_touches_enemy(
    contacts: &Vec<Contact>,
    enemies: &Vec<(u64, Enemy)>,
) -> (r: Option<PlayerHitEvent>)
    ensures
        r == spec_player_touch(contacts@, enemies@),
{
    let mut i: usize = 0;
    proof {
        assert(contacts@.skip(0) =~= contacts@);
    }
    while i < contacts.len()
        invariant
            0 <= i <= contacts@.len(),
            spec_player_touch(contacts@, enemies@) == spec_player_touch(
                contacts@.skip(i as int),
                enemies@,
            ),
        decreases contacts@.len() - i,
    {
        let c = contacts[i];
        proof {
            assert(contacts@.skip(i as int)[0] == contacts@[i as int]);
            assert(contacts@.skip(i as int).skip(1) =~= contacts@.skip(i + 1));
        }
        match lookup_enemy(enemies, c.other) {
            Some(enemy) => {
                if c.converged {
                    return Some(
                        PlayerHitEvent {
                            enemy_entity: c.other,
                            enemy,
                            normal_x: c.normal_x,
                            normal_y: c.normal_y,
                        },
                    );
                } else if c.penetrating {
                    return Some(
                        PlayerHitEvent {
                            enemy_entity: c.other,
                            enemy,
                            normal_x: 0,
                            normal_y: 1000,
                        },
                    );
                }
            },
            None => {},
        }
        i = i + 1;
    }
    proof {
        assert(contacts@.skip(i as int).len() == 0);
    }
    None
}

/// The first converged contact an enemy reports against the player, as a
/// hit event (the enemy ran into the player, so the player's own contacts
/// missed it).
pub open spec fn spec_enemy_touch(
    contacts: Seq<Contact>,
    enemy_entity: u64,
    enemy: Enemy,
    player: u64,
) -> Option<PlayerHitEvent>
    decreases contacts.len(),
{
    if contacts.len() == 0 {
        None
    } else {
        let c = contacts[0];
        if c.converged && c.other == player {
            Some(
                PlayerHitEvent {
                    enemy_entity,
                    enemy,
                    normal_x: c.normal_x,
                    normal_y: c.normal_y,
                },
            )
        } else {
            spec_enemy_touch(contacts.skip(1), enemy_entity, enemy, player)
        }
    }
}

/// Scans one enemy's contacts for a converged touch of the player.
pub fn enemy_touches_player(
    contacts: &Vec<Contact>,
    enemy_entity: u64,
    enemy: &Enemy,
    player: u64,
) -> (r: Option<PlayerHitEvent>)
    ensures
        r == spec_enemy_touch(contacts@, enemy_entity, *enemy, player),
{
    let mut i: usize = 0;
    proof {
        assert(contacts@.skip(0) =~= contacts@);
    }
    while i < contacts.len()
        invariant
            0 <= i <= contacts@.len(),
            spec_enemy_touch(contacts@, enemy_entity, *enemy, player) == spec_enemy_touch(
                contacts@.skip(i as int),
                enemy_entity,
                *enemy,
                player,
            ),
        decreases contacts@.len() - i,
    {
        let c = contacts[i];
        proof {
            assert(contacts@.skip(i as int)[0] == contacts@[i as int]);
            assert(contacts@.skip(i as int).skip(1) =~= contacts@.skip(i + 1));
        }
        if c.converged && c.other == player {
            return Some(
                PlayerHitEvent {
                    enemy_entity,
                    enemy: *enemy,
                    normal_x: c.normal_x,
                    normal_y: c.normal_y,
                },
            );
        }
        i = i + 1;
    }
    proof {
        assert(contacts@.skip(i as int).len() == 0);
    }
    None
}

} // verus!
