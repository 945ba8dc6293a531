//! Music-track and sound-cue identities, and the decisions that pick them.
//!
//! The audio collaborator polls the current track and plays one-shot cues;
//! this module only decides which track or cue is wanted.

use vstd::prelude::*;

use crate::data::{Flags, GameData};

verus! {

/// Background music tracks.
#[derive(Copy, Clone, Eq, PartialEq, Structural, Debug)]
pub enum BGM {
    Intro,
    Caves,
    CavesBoss,
    Forest,
    ForestBoss,
    Tension,
    FinalBoss,
    Outro,
}

impl BGM {
    /// The track's loop point in milliseconds: playback restarts there when
    /// the track ends. Tracks that play once have none.
    pub fn get_loop(&self) -> (r: Option<i64>)
        ensures
            r == (match *self {
                BGM::Intro => None::<i64>,
                BGM::Caves => Some(36571int as i64),
                BGM::CavesBoss => Some(16271int as i64),
                BGM::Forest => Some(36571int as i64),
                BGM::ForestBoss => Some(16000int as i64),
                BGM::Tension => None::<i64>,
                BGM::FinalBoss => Some(45939int as i64),
                BGM::Outro => None::<i64>,
            }),
    {
        match self {
            BGM::Intro => None,
            BGM::Caves => Some(36571),
            BGM::CavesBoss => Some(16271),
            BGM::Forest => Some(36571),
            BGM::ForestBoss => Some(16000),
            BGM::Tension => None,
            BGM::FinalBoss => Some(45939),
            BGM::Outro => None,
        }
    }
}

/// One-shot sound cues, fired from state transitions and timeline events.
#[derive(Copy, Clone, Eq, PartialEq, Structural, Debug)]
pub enum SFX {
    JumpS,
    JumpM,
    JumpL,
    Downsize,
    Upsize,
    Hurt,
    PlayerHurt,
    Sword,
    Step,
    Dash,
    BossOut,
    BossKilled,
    NewHeart,
    Heal,
}

/// The background track a level starts with.
pub fn bgm_for_level(id: &String) -> (r: BGM)
    ensures
        r == BGM::Caves,
{
    let zone1: String = "Zone_1".to_owned();
    if *id == zone1 {
        BGM::Caves
    } else {
        BGM::Caves
    }
}

/// A music sensor fired: picks the zone's track, unless the tension track
/// has taken over the score. An unknown zone id is a data-authoring
/// mistake and plays nothing.
pub fn trigger_bgm(zone: &String, data: &GameData) -> (r: Option<BGM>)
    ensures
        zone@ == "zone1"@ && !data.spec_has_flag(Flags::Tension) ==> r == Some(BGM::Caves),
        zone@ == "zone2"@ && !data.spec_has_flag(Flags::Tension) ==> r == Some(BGM::Forest),
        data.spec_has_flag(Flags::Tension) ==> r is None,
        zone@ != "zone1"@ && zone@ != "zone2"@ ==> r is None,
{
    proof {
        reveal_strlit("zone1");
        reveal_strlit("zone2");
        assert("zone1"@ != "zone2"@) by {
            assert("zone1"@[4] == '1');
            assert("zone2"@[4] == '2');
        }
    }
    let z1: String = "zone1".to_owned();
    let z2: String = "zone2".to_owned();
    if *zone == z1 {
        if !data.has_flag(Flags::Tension) {
            Some(BGM::Caves)
        } else {
            None
        }
    } else if *zone == z2 {
        if !data.has_flag(Flags::Tension) {
            Some(BGM::Forest)
        } else {
            None
        }
    } else {
        None
    }
}

} // verus!
