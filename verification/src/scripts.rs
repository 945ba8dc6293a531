//! The static cutscene scripts, one per story beat, built fresh each time
//! a trigger fires. Scripts are fixed ordered lists of instructions; no
//! runtime mutation of the tables exists.

use vstd::prelude::*;

use std::collections::VecDeque;

use crate::cutscene::{queue_model, CSEvent, Cutscene, ScriptStep, wf_event, wf_queue};
use crate::data::{Flags, GameData};
use crate::music::BGM;
use crate::params;

verus! {

/// Moves a built script into queue form.
fn to_queue(v: Vec<CSEvent>, Ghost(orig): Ghost<Seq<CSEvent>>) -> (q: VecDeque<CSEvent>)
    requires
        v@ == orig,
    ensures
        q@ == orig,
{
    let mut rest = v;
    let mut q: VecDeque<CSEvent> = VecDeque::new();
    loop
        invariant
            rest@ + q@ == orig,
        decreases rest@.len(),
    {
        let e = rest.pop();
        match e {
            None => {
                proof {
                    assert(q@ =~= orig);
                }
                return q;
            },
            Some(e) => {
                q.push_front(e);
                proof {
                    assert(rest@ + q@ =~= orig);
                }
            },
        }
    }
}

/// The specification-level table the built script must equal.
pub open spec fn spec_intro() -> Seq<ScriptStep> {
    seq![
        ScriptStep::ToggleCinema(true),
        ScriptStep::AddFlag(Flags::Boss3WallPresent),
        ScriptStep::BGM(BGM::Intro),
        ScriptStep::Wait(1500),
        ScriptStep::Text("TOTENINSEL\n\nby LaDorille, Vico, Tobias & yopox"@, 0, 0, 0),
        ScriptStep::Wait(1500),
        ScriptStep::Teleport("intro_ship"@),
        ScriptStep::FadeIn(0, 1000),
        ScriptStep::Text("I still don't know how\nthis journey started..."@, -96000, 0, 0),
        ScriptStep::Text("I have been on this sea\nfor days, maybe weeks..."@, -96000, 0, 0),
        ScriptStep::Text("Perhaps years."@, -96000, 0, 0),
        ScriptStep::Text("I need to find it..."@, -96000, 0, 0),
        ScriptStep::Text("I need to find TOTENINSLE!"@, -96000, 0, 0),
        ScriptStep::Text("It is said that there\nlies a secret,"@, -96000, 0, 0),
        ScriptStep::Text("The secret of\nLife itself."@, -96000, 0, 0),
        ScriptStep::Text("I need to\nunderstand"@, -96000, 0, 0),
        ScriptStep::Text("I need to\nunderst..."@, -96000, 0, 0),
        ScriptStep::Text("I need to..."@, -96000, 0, 0),
        ScriptStep::Wait(1000),
        ScriptStep::Text("Wait."@, -96000, 0, 0),
        ScriptStep::Text("I see it!"@, -96000, 0, 0),
        ScriptStep::Text("I can finaly see\nits shores!"@, -96000, 0, 0),
        ScriptStep::FadeOut(0, 1000),
        ScriptStep::Wait(1500),
        ScriptStep::Teleport("intro_dock"@),
        ScriptStep::FadeIn(0, 1000),
        ScriptStep::Text("I can't believe\nI made it!"@, -96000, 0, 0),
        ScriptStep::Text("The atmosphere, the landscape..."@, -96000, 0, 0),
        ScriptStep::Text("It all seems eery."@, -96000, 0, 0),
        ScriptStep::Text("Wait.\nHow can it be ?"@, -96000, 0, 0),
        ScriptStep::Text("I think there's a hut over there!"@, -96000, 0, 0),
        ScriptStep::FadeOut(0, 1000),
        ScriptStep::Wait(1500),
        ScriptStep::Teleport("intro_house"@),
        ScriptStep::FadeIn(0, 1000),
        ScriptStep::Text("You have come!"@, -92000, 32000, 0),
        ScriptStep::Wait(1500),
        ScriptStep::Text("I've been waiting\nfor you..."@, -92000, 32000, 0),
        ScriptStep::Wait(1500),
        ScriptStep::Text("You should have come here\na long time ago!"@, -92000, 32000, 0),
        ScriptStep::Wait(1500),
        ScriptStep::Text("This island is the key\nto your future."@, -92000, 32000, 0),
        ScriptStep::Wait(1500),
        ScriptStep::Text("It is a mystical place,\nfull of dangers."@, -92000, 32000, 0),
        ScriptStep::Wait(1500),
        ScriptStep::Text("You might find\nstrange encounters..."@, -92000, 32000, 0),
        ScriptStep::Wait(1500),
        ScriptStep::Text("You will need the two\nsacred swords!"@, -92000, 32000, 0),
        ScriptStep::Wait(1500),
        ScriptStep::Text("They will help you\ngain powers."@, -92000, 32000, 0),
        ScriptStep::Wait(1500),
        ScriptStep::Text("Powers that will help you\ndefeating Death itself!"@, -92000, 32000, 0),
        ScriptStep::Wait(1500),
        ScriptStep::Text("Enter the cave.\nHere your journey truly begins..."@, -92000, 32000, 0),
        ScriptStep::Wait(1500),
        ScriptStep::FadeOut(0, 1000),
        ScriptStep::Wait(2000),
        ScriptStep::Teleport("z1_start"@),
        ScriptStep::FadeIn(0, 1000),
        ScriptStep::BGM(BGM::Caves),
        ScriptStep::AddFlag(Flags::Intro),
    ]
}

/// The opening cutscene: title card, the voyage, the landing, the old
/// guy's welcome, and the descent into the caves.
pub fn intro() -> (r: VecDeque<CSEvent>)
    ensures
        wf_queue(r@),
        r@.len() == 61,
        queue_model(r@) == spec_intro(),
{
    let v: Vec<CSEvent> = vec![
        CSEvent::ToggleCinema(true),
        CSEvent::AddFlag(Flags::Boss3WallPresent),
        CSEvent::BGM(BGM::Intro),
        CSEvent::Wait(1500),
        CSEvent::text_centered("TOTENINSEL\n\nby LaDorille, Vico, Tobias & yopox".to_owned()),
        CSEvent::Wait(1500),
        CSEvent::Teleport("intro_ship".to_owned()),
        CSEvent::fade_in(),
        CSEvent::text_offset("I still don't know how\nthis journey started...".to_owned(), -96000, 0),
        CSEvent::text_offset("I have been on this sea\nfor days, maybe weeks...".to_owned(), -96000, 0),
        CSEvent::text_offset("Perhaps years.".to_owned(), -96000, 0),
        CSEvent::text_offset("I need to find it...".to_owned(), -96000, 0),
        CSEvent::text_offset("I need to find TOTENINSLE!".to_owned(), -96000, 0),
        CSEvent::text_offset("It is said that there\nlies a secret,".to_owned(), -96000, 0),
        CSEvent::text_offset("The secret of\nLife itself.".to_owned(), -96000, 0),
        CSEvent::text_offset("I need to\nunderstand".to_owned(), -96000, 0),
        CSEvent::text_offset("I need to\nunderst...".to_owned(), -96000, 0),
        CSEvent::text_offset("I need to...".to_owned(), -96000, 0),
        CSEvent::Wait(1000),
        CSEvent::text_offset("Wait.".to_owned(), -96000, 0),
        CSEvent::text_offset("I see it!".to_owned(), -96000, 0),
        CSEvent::text_offset("I can finaly see\nits shores!".to_owned(), -96000, 0),
        CSEvent::fade_out(),
        CSEvent::Wait(1500),
        CSEvent::Teleport("intro_dock".to_owned()),
        CSEvent::fade_in(),
        CSEvent::text_offset("I can't believe\nI made it!".to_owned(), -96000, 0),
        CSEvent::text_offset("The atmosphere, the landscape...".to_owned(), -96000, 0),
        CSEvent::text_offset("It all seems eery.".to_owned(), -96000, 0),
        CSEvent::text_offset("Wait.\nHow can it be ?".to_owned(), -96000, 0),
        CSEvent::text_offset("I think there's a hut over there!".to_owned(), -96000, 0),
        CSEvent::fade_out(),
        CSEvent::Wait(1500),
        CSEvent::Teleport("intro_house".to_owned()),
        CSEvent::fade_in(),
        CSEvent::text_offset("You have come!".to_owned(), -92000, 32000),
        CSEvent::Wait(1500),
        CSEvent::text_offset("I've been waiting\nfor you...".to_owned(), -92000, 32000),
        CSEvent::Wait(1500),
        CSEvent::text_offset("You should have come here\na long time ago!".to_owned(), -92000, 32000),
        CSEvent::Wait(1500),
        CSEvent::text_offset("This island is the key\nto your future.".to_owned(), -92000, 32000),
        CSEvent::Wait(1500),
        CSEvent::text_offset("It is a mystical place,\nfull of dangers.".to_owned(), -92000, 32000),
        CSEvent::Wait(1500),
        CSEvent::text_offset("You might find\nstrange encounters...".to_owned(), -92000, 32000),
        CSEvent::Wait(1500),
        CSEvent::text_offset("You will need the two\nsacred swords!".to_owned(), -92000, 32000),
        CSEvent::Wait(1500),
        CSEvent::text_offset("They will help you\ngain powers.".to_owned(), -92000, 32000),
        CSEvent::Wait(1500),
        CSEvent::text_offset("Powers that will help you\ndefeating Death itself!".to_owned(), -92000, 32000),
        CSEvent::Wait(1500),
        CSEvent::text_offset("Enter the cave.\nHere your journey truly begins...".to_owned(), -92000, 32000),
        CSEvent::Wait(1500),
        CSEvent::fade_out(),
        CSEvent::Wait(2000),
        CSEvent::Teleport("z1_start".to_owned()),
        CSEvent::fade_in(),
        CSEvent::BGM(BGM::Caves),
        CSEvent::AddFlag(Flags::Intro),
    ];
    proof {
        assert(wf_queue(v@));
        assert(queue_model(v@) =~= spec_intro());
    }
    to_queue(v, Ghost(v@))
}

/// The specification-level table the built script must equal.
pub open spec fn spec_outro() -> Seq<ScriptStep> {
    seq![
        ScriptStep::ToggleCinema(true),
        ScriptStep::Wait(1000),
        ScriptStep::BGM(BGM::Outro),
        ScriptStep::FadeOut(0, 1000),
        ScriptStep::Teleport("outro_rip"@),
        ScriptStep::Wait(4000),
        ScriptStep::FadeIn(0, 1000),
        ScriptStep::Wait(4000),
        ScriptStep::Text("Was he..."@, -92000, 0, 0),
        ScriptStep::Wait(2000),
        ScriptStep::Text("Was he Death itself?"@, -92000, 0, 0),
        ScriptStep::Wait(4000),
        ScriptStep::FadeOut(0, 1000),
        ScriptStep::Reset,
        ScriptStep::EternalText("THE END"@, 0, 0, 0),
    ]
}

/// The closing cutscene.
pub fn outro() -> (r: VecDeque<CSEvent>)
    ensures
        wf_queue(r@),
        r@.len() == 15,
        queue_model(r@) == spec_outro(),
{
    let v: Vec<CSEvent> = vec![
        CSEvent::ToggleCinema(true),
        CSEvent::Wait(1000),
        CSEvent::BGM(BGM::Outro),
        CSEvent::fade_out(),
        CSEvent::Teleport("outro_rip".to_owned()),
        CSEvent::Wait(4000),
        CSEvent::fade_in(),
        CSEvent::Wait(4000),
        CSEvent::text_offset("Was he...".to_owned(), -92000, 0),
        CSEvent::Wait(2000),
        CSEvent::text_offset("Was he Death itself?".to_owned(), -92000, 0),
        CSEvent::Wait(4000),
        CSEvent::fade_out(),
        CSEvent::Reset,
        CSEvent::eternal_text("THE END".to_owned()),
    ];
    proof {
        assert(wf_queue(v@));
        assert(queue_model(v@) =~= spec_outro());
    }
    to_queue(v, Ghost(v@))
}

/// The specification-level table the built script must equal.
pub open spec fn spec_dash() -> Seq<ScriptStep> {
    seq![
        ScriptStep::Wait(1000),
        ScriptStep::FadeOut(0, 1000),
        ScriptStep::Text("You found the dash!"@, 0, 0, 0),
        ScriptStep::Text("Try double tapping left/right."@, 0, 0, 0),
        ScriptStep::FadeIn(0, 1000),
    ]
}

/// The dash tutorial beat.
pub fn dash() -> (r: VecDeque<CSEvent>)
    ensures
        wf_queue(r@),
        r@.len() == 5,
        queue_model(r@) == spec_dash(),
{
    let v: Vec<CSEvent> = vec![
        CSEvent::Wait(1000),
        CSEvent::fade_out(),
        CSEvent::text_centered("You found the dash!".to_owned()),
        CSEvent::text_centered("Try double tapping left/right.".to_owned()),
        CSEvent::fade_in(),
    ];
    proof {
        assert(wf_queue(v@));
        assert(queue_model(v@) =~= spec_dash());
    }
    to_queue(v, Ghost(v@))
}

/// The specification-level table the built script must equal.
pub open spec fn spec_boss_1() -> Seq<ScriptStep> {
    seq![
        ScriptStep::AddFlag(Flags::Boss1Start),
        ScriptStep::AddFlag(Flags::Boss1WallPresent),
        ScriptStep::BGM(BGM::CavesBoss),
    ]
}

/// The first boss's intro.
pub fn boss_1() -> (r: VecDeque<CSEvent>)
    ensures
        wf_queue(r@),
        r@.len() == 3,
        queue_model(r@) == spec_boss_1(),
{
    let v: Vec<CSEvent> = vec![
        CSEvent::AddFlag(Flags::Boss1Start),
        CSEvent::AddFlag(Flags::Boss1WallPresent),
        CSEvent::BGM(BGM::CavesBoss),
    ];
    proof {
        assert(wf_queue(v@));
        assert(queue_model(v@) =~= spec_boss_1());
    }
    to_queue(v, Ghost(v@))
}

/// The specification-level table the built script must equal.
pub open spec fn spec_boss_2() -> Seq<ScriptStep> {
    seq![
        ScriptStep::AddFlag(Flags::Boss2Start),
        ScriptStep::AddFlag(Flags::Boss2WallPresent),
        ScriptStep::BGM(BGM::ForestBoss),
    ]
}

/// The second boss's intro.
pub fn boss_2() -> (r: VecDeque<CSEvent>)
    ensures
        wf_queue(r@),
        r@.len() == 3,
        queue_model(r@) == spec_boss_2(),
{
    let v: Vec<CSEvent> = vec![
        CSEvent::AddFlag(Flags::Boss2Start),
        CSEvent::AddFlag(Flags::Boss2WallPresent),
        CSEvent::BGM(BGM::ForestBoss),
    ];
    proof {
        assert(wf_queue(v@));
        assert(queue_model(v@) =~= spec_boss_2());
    }
    to_queue(v, Ghost(v@))
}

/// The specification-level table the built script must equal.
pub open spec fn spec_boss_2_end() -> Seq<ScriptStep> {
    seq![
        ScriptStep::Wait(1000),
        ScriptStep::FadeOut(0, 1000),
        ScriptStep::Text("Well done!"@, 0, 0, 0),
        ScriptStep::Wait(1000),
        ScriptStep::BGM(BGM::Tension),
        ScriptStep::AddFlag(Flags::Tension),
        ScriptStep::RemoveFlag(Flags::Boss2WallPresent),
        ScriptStep::RemoveFlag(Flags::Boss3WallPresent),
        ScriptStep::Text("Find me in the caves."@, 0, 0, 0),
        ScriptStep::FadeIn(0, 1000),
    ]
}

/// The second boss's outro.
pub fn boss_2_end() -> (r: VecDeque<CSEvent>)
    ensures
        wf_queue(r@),
        r@.len() == 10,
        queue_model(r@) == spec_boss_2_end(),
{
    let v: Vec<CSEvent> = vec![
        CSEvent::Wait(1000),
        CSEvent::fade_out(),
        CSEvent::text_centered("Well done!".to_owned()),
        CSEvent::Wait(1000),
        CSEvent::BGM(BGM::Tension),
        CSEvent::AddFlag(Flags::Tension),
        CSEvent::RemoveFlag(Flags::Boss2WallPresent),
        CSEvent::RemoveFlag(Flags::Boss3WallPresent),
        CSEvent::text_centered("Find me in the caves.".to_owned()),
        CSEvent::fade_in(),
    ];
    proof {
        assert(wf_queue(v@));
        assert(queue_model(v@) =~= spec_boss_2_end());
    }
    to_queue(v, Ghost(v@))
}

/// The specification-level table the built script must equal.
pub open spec fn spec_boss_3() -> Seq<ScriptStep> {
    seq![
        ScriptStep::ToggleCinema(true),
        ScriptStep::Wait(1000),
        ScriptStep::Text("Hehehe!!"@, -64000, 0, 0),
        ScriptStep::Text("Thanks for the swords."@, -64000, 0, 0),
        ScriptStep::Text("This is your final test"@, -64000, 0, 0),
        ScriptStep::AddFlag(Flags::Boss3Start),
        ScriptStep::BGM(BGM::FinalBoss),
        ScriptStep::RemoveFlag(Flags::SizeS),
        ScriptStep::RemoveFlag(Flags::SizeL),
    ]
}

/// The final boss's intro.
pub fn boss_3() -> (r: VecDeque<CSEvent>)
    ensures
        wf_queue(r@),
        r@.len() == 9,
        queue_model(r@) == spec_boss_3(),
{
    let v: Vec<CSEvent> = vec![
        CSEvent::ToggleCinema(true),
        CSEvent::Wait(1000),
        CSEvent::text_offset("Hehehe!!".to_owned(), -64000, 0),
        CSEvent::text_offset("Thanks for the swords.".to_owned(), -64000, 0),
        CSEvent::text_offset("This is your final test".to_owned(), -64000, 0),
        CSEvent::AddFlag(Flags::Boss3Start),
        CSEvent::BGM(BGM::FinalBoss),
        CSEvent::RemoveFlag(Flags::SizeS),
        CSEvent::RemoveFlag(Flags::SizeL),
    ];
    proof {
        assert(wf_queue(v@));
        assert(queue_model(v@) =~= spec_boss_3());
    }
    to_queue(v, Ghost(v@))
}

/// The specification-level table the built script must equal.
pub open spec fn spec_death() -> Seq<ScriptStep> {
    seq![
        ScriptStep::ToggleCinema(false),
        ScriptStep::SetRelativeTime(250),
        ScriptStep::Wait(400),
        ScriptStep::FadeOut(0, 8000),
        ScriptStep::SetLife(params::STARTING_LIFE as int),
        ScriptStep::Wait(1000),
        ScriptStep::SetRelativeTime(1000),
        ScriptStep::Reload,
        ScriptStep::FadeIn(0, 2000),
    ]
}

/// The death-and-respawn beat.
pub fn death() -> (r: VecDeque<CSEvent>)
    ensures
        wf_queue(r@),
        r@.len() == 9,
        queue_model(r@) == spec_death(),
{
    let v: Vec<CSEvent> = vec![
        CSEvent::ToggleCinema(false),
        CSEvent::SetRelativeTime(250),
        CSEvent::Wait(400),
        CSEvent::fade_out_with_speed(8000),
        CSEvent::SetLife(params::STARTING_LIFE),
        CSEvent::Wait(1000),
        CSEvent::SetRelativeTime(1000),
        CSEvent::Reload,
        CSEvent::fade_in_with_speed(2000),
    ];
    proof {
        assert(wf_queue(v@));
        assert(queue_model(v@) =~= spec_death());
    }
    to_queue(v, Ghost(v@))
}

/// The specification-level table the built script must equal.
pub open spec fn spec_sword_1() -> Seq<ScriptStep> {
    seq![
        ScriptStep::ToggleCinema(true),
        ScriptStep::Wait(500),
        ScriptStep::Text("Here is it!"@, -64000, 0, 0),
        ScriptStep::Wait(250),
        ScriptStep::Text("The first sword."@, -64000, 0, 0),
        ScriptStep::FadeOut(0, 1000),
        ScriptStep::Text("Press [down] to become small."@, 0, 0, 0),
        ScriptStep::AddFlag(Flags::SizeS),
        ScriptStep::FadeIn(0, 1000),
    ]
}

/// The first sword pickup.
pub fn sword_1() -> (r: VecDeque<CSEvent>)
    ensures
        wf_queue(r@),
        r@.len() == 9,
        queue_model(r@) == spec_sword_1(),
{
    let v: Vec<CSEvent> = vec![
        CSEvent::ToggleCinema(true),
        CSEvent::Wait(500),
        CSEvent::text_offset("Here is it!".to_owned(), -64000, 0),
        CSEvent::Wait(250),
        CSEvent::text_offset("The first sword.".to_owned(), -64000, 0),
        CSEvent::fade_out(),
        CSEvent::text_centered("Press [down] to become small.".to_owned()),
        CSEvent::AddFlag(Flags::SizeS),
        CSEvent::fade_in(),
    ];
    proof {
        assert(wf_queue(v@));
        assert(queue_model(v@) =~= spec_sword_1());
    }
    to_queue(v, Ghost(v@))
}

/// The specification-level table the built script must equal.
pub open spec fn spec_sword_2() -> Seq<ScriptStep> {
    seq![
        ScriptStep::ToggleCinema(true),
        ScriptStep::Wait(500),
        ScriptStep::Text("At last!"@, -64000, 0, 0),
        ScriptStep::Wait(250),
        ScriptStep::Text("The second sword."@, -64000, 0, 0),
        ScriptStep::FadeOut(0, 1000),
        ScriptStep::Text("Press [up] to become tall."@, 0, 0, 0),
        ScriptStep::AddFlag(Flags::SizeL),
        ScriptStep::FadeIn(0, 1000),
    ]
}

/// The second sword pickup.
pub fn sword_2() -> (r: VecDeque<CSEvent>)
    ensures
        wf_queue(r@),
        r@.len() == 9,
        queue_model(r@) == spec_sword_2(),
{
    let v: Vec<CSEvent> = vec![
        CSEvent::ToggleCinema(true),
        CSEvent::Wait(500),
        CSEvent::text_offset("At last!".to_owned(), -64000, 0),
        CSEvent::Wait(250),
        CSEvent::text_offset("The second sword.".to_owned(), -64000, 0),
        CSEvent::fade_out(),
        CSEvent::text_centered("Press [up] to become tall.".to_owned()),
        CSEvent::AddFlag(Flags::SizeL),
        CSEvent::fade_in(),
    ];
    proof {
        assert(wf_queue(v@));
        assert(queue_model(v@) =~= spec_sword_2());
    }
    to_queue(v, Ghost(v@))
}

/// A cutscene sensor fired: picks the story beat for the sensor's id,
/// gated by the flags, and says whether the player is forced idle first.
/// Unknown ids start nothing.
pub fn trigger_cutscene(id: &String, data: &GameData) -> (r: Option<(Cutscene, bool)>)
    ensures
        (r matches Some(pair) ==> wf_queue(pair.0@)),
        id@ == "sword1"@ ==> (r is Some <==> !data.spec_has_flag(Flags::SizeS)),
        id@ == "sword1"@ && r is Some ==> r.unwrap().1 && queue_model(r.unwrap().0@)
            == spec_sword_1(),
        id@ == "sword2"@ ==> (r is Some <==> !data.spec_has_flag(Flags::SizeL)),
        id@ == "sword2"@ && r is Some ==> r.unwrap().1 && queue_model(r.unwrap().0@)
            == spec_sword_2(),
        id@ == "boss1"@ ==> (r is Some <==> !data.spec_has_flag(Flags::Boss1Start)
            && !data.spec_has_flag(Flags::Boss1Defeated)),
        id@ == "boss1"@ && r is Some ==> !r.unwrap().1 && queue_model(r.unwrap().0@)
            == spec_boss_1(),
        id@ == "boss3"@ ==> (r is Some <==> !data.spec_has_flag(Flags::Boss3Start)),
        id@ == "boss3"@ && r is Some ==> !r.unwrap().1 && queue_model(r.unwrap().0@)
            == spec_boss_3(),
        id@ != "sword1"@ && id@ != "sword2"@ && id@ != "boss1"@ && id@ != "boss3"@ ==> r is None,
{
    proof {
        reveal_strlit("sword1");
        reveal_strlit("sword2");
        reveal_strlit("boss1");
        reveal_strlit("boss3");
        assert("sword1"@ != "sword2"@) by {
            assert("sword1"@[5] == '1');
            assert("sword2"@[5] == '2');
        }
        assert("sword1"@ != "boss1"@ && "sword1"@ != "boss3"@ && "sword2"@ != "boss1"@
            && "sword2"@ != "boss3"@) by {
            assert("sword1"@.len() == 6);
            assert("sword2"@.len() == 6);
            assert("boss1"@.len() == 5);
            assert("boss3"@.len() == 5);
        }
        assert("boss1"@ != "boss3"@) by {
            assert("boss1"@[4] == '1');
            assert("boss3"@[4] == '3');
        }
    }
    let s1: String = "sword1".to_owned();
    let s2: String = "sword2".to_owned();
    let b1: String = "boss1".to_owned();
    let b3: String = "boss3".to_owned();
    if *id == s1 {
        if !data.has_flag(Flags::SizeS) {
            Some((Cutscene::from(sword_1()), true))
        } else {
            None
        }
    } else if *id == s2 {
        if !data.has_flag(Flags::SizeL) {
            Some((Cutscene::from(sword_2()), true))
        } else {
            None
        }
    } else if *id == b1 {
        if !data.has_flag(Flags::Boss1Start) && !data.has_flag(Flags::Boss1Defeated) {
            Some((Cutscene::from(boss_1()), false))
        } else {
            None
        }
    } else if *id == b3 {
        if !data.has_flag(Flags::Boss3Start) {
            Some((Cutscene::from(boss_3()), false))
        } else {
            None
        }
    } else {
        None
    }
}

} // verus!
