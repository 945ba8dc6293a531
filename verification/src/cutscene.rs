//! The cutscene sequencer: an ordered queue of timed script instructions,
//! consumed strictly front to back. Exactly one instruction is active; it
//! is popped when its completion predicate holds or when the player issues
//! a skip input, except for instructions that are instantaneous (nothing to
//! skip) or deliberately eternal.

use vstd::prelude::*;

use std::collections::VecDeque;

use crate::animation::Millis;
use crate::data::{Flags, GameData};
use crate::hearts::PlayerLife;
use crate::movement::MAX_DELTA;
use crate::music::BGM;
use crate::params;

verus! {

/// Largest clock a timed instruction ever carries, ms.
pub const EVENT_TIME_CAP: i64 = 1000000000000;

/// One scripted instruction.
#[derive(Debug)]
pub enum CSEvent {
    /// Do nothing for the given amount of raw milliseconds (counts down).
    Wait(Millis),
    /// Show a text: content, top and left offsets in milli-pixels, and the
    /// running display clock.
    Text(String, i64, i64, Millis),
    /// Show a text that never completes on its own and ignores skips.
    EternalText(String, i64, i64, Millis),
    /// Fade the screen overlay to black: elapsed ms and speed in
    /// thousandths per second.
    FadeOut(Millis, i64),
    /// Fade the overlay from black.
    FadeIn(Millis, i64),
    /// Move the player to the spawner with this id.
    Teleport(String),
    /// Play a music track.
    BGM(BGM),
    /// Set the flag.
    AddFlag(Flags),
    /// Clear the flag.
    RemoveFlag(Flags),
    /// Respawn the level.
    Reload,
    /// Show or hide the cinema bars.
    ToggleCinema(bool),
    /// Set the player's current health.
    SetLife(usize),
    /// Scale the simulation clock, thousandths.
    SetRelativeTime(i64),
    /// Reset the game data.
    Reset,
}

/// Bounds under which every instruction's clock arithmetic stays exact.
pub open spec fn wf_event(e: CSEvent) -> bool {
    match e {
        CSEvent::Wait(t) => -MAX_DELTA <= t <= EVENT_TIME_CAP,
        CSEvent::Text(_, _, _, timer) => 0 <= timer <= EVENT_TIME_CAP,
        CSEvent::EternalText(_, _, _, timer) => 0 <= timer <= EVENT_TIME_CAP,
        CSEvent::FadeOut(t, speed) => 0 <= t <= EVENT_TIME_CAP && 1 <= speed <= 1000000,
        CSEvent::FadeIn(t, speed) => 0 <= t <= EVENT_TIME_CAP && 1 <= speed <= 1000000,
        _ => true,
    }
}

/// Texts longer than this display as if they had this many characters, so
/// the clock arithmetic stays bounded.
pub const TEXT_LEN_CAP: i64 = 1000000;

/// Total display time of a text of `n` characters: a fixed reveal time per
/// character plus the fade-in and the fade-out.
pub open spec fn text_total(n: int) -> int {
    (if n > TEXT_LEN_CAP { TEXT_LEN_CAP as int } else { n }) * params::CHAR_DISPLAY_TIME + 2
        * params::TEXT_FADE_TIME
}

/// The overlay alpha a fade has reached: the cubic ease
/// `(elapsed * speed)^3`, clamped to opaque; in thousandths.
pub open spec fn spec_fade_alpha(t: int, speed: int) -> int {
    let u = t * speed;
    if u >= 1000000 {
        1000
    } else {
        u * u * u / 1000000000000000
    }
}

/// The text alpha at `timer` into a text of `n` characters: fade in, hold,
/// fade out; in thousandths.
pub open spec fn spec_text_alpha(timer: int, n: int) -> int {
    let t_fade_out = text_total(n) - params::TEXT_FADE_TIME;
    if timer <= params::TEXT_FADE_TIME {
        timer * 1000 / (params::TEXT_FADE_TIME as int)
    } else if timer >= t_fade_out {
        if 1000 - (timer - t_fade_out) * 1000 / (params::TEXT_FADE_TIME as int) >= 0 {
            1000 - (timer - t_fade_out) * 1000 / (params::TEXT_FADE_TIME as int)
        } else {
            0
        }
    } else {
        1000
    }
}

/// How playing one tick changes the active instruction: waits count down,
/// texts and fades accumulate, everything else is untouched.
pub open spec fn spec_play(e: CSEvent, delta: int) -> CSEvent {
    match e {
        CSEvent::Wait(t) => CSEvent::Wait((t - delta) as i64),
        CSEvent::Text(txt, top, left, timer) => CSEvent::Text(
            txt,
            top,
            left,
            (timer + delta) as i64,
        ),
        CSEvent::EternalText(txt, top, left, timer) => CSEvent::EternalText(
            txt,
            top,
            left,
            if timer + delta > EVENT_TIME_CAP {
                EVENT_TIME_CAP
            } else {
                (timer + delta) as i64
            },
        ),
        CSEvent::FadeOut(t, speed) => CSEvent::FadeOut((t + delta) as i64, speed),
        CSEvent::FadeIn(t, speed) => CSEvent::FadeIn((t + delta) as i64, speed),
        _ => e,
    }
}

/// The clock bounds under which a completion check's arithmetic is exact;
/// playing a well-formed instruction for one tick keeps it within them.
pub open spec fn evaluable(e: CSEvent) -> bool {
    match e {
        CSEvent::FadeOut(t, speed) => 0 <= t <= EVENT_TIME_CAP + MAX_DELTA && 0 <= speed
            <= 1000000,
        CSEvent::FadeIn(t, speed) => 0 <= t <= EVENT_TIME_CAP + MAX_DELTA && 0 <= speed
            <= 1000000,
        _ => true,
    }
}

/// Each variant's completion predicate. Timed instructions also complete
/// on a skip input; instantaneous ones complete immediately either way;
/// an eternal text never completes.
pub open spec fn spec_is_over(e: CSEvent, skip: bool) -> bool {
    match e {
        CSEvent::Wait(t) => skip || t <= 0,
        CSEvent::FadeOut(t, speed) => skip || t * speed >= 1000000,
        CSEvent::FadeIn(t, speed) => skip || t * speed >= 1000000,
        CSEvent::Text(txt, _, _, timer) => skip || timer >= text_total(txt@.len() as int),
        CSEvent::EternalText(..) => false,
        _ => true,
    }
}

impl CSEvent {
    pub fn fade_in() -> (r: Self)
        ensures
            r == CSEvent::FadeIn(0int as i64, 1000int as i64),
    {
        CSEvent::FadeIn(0, 1000)
    }

    pub fn fade_in_with_speed(speed: i64) -> (r: Self)
        ensures
            r == CSEvent::FadeIn(0int as i64, speed),
    {
        CSEvent::FadeIn(0, speed)
    }

    pub fn fade_out() -> (r: Self)
        ensures
            r == CSEvent::FadeOut(0int as i64, 1000int as i64),
    {
        CSEvent::FadeOut(0, 1000)
    }

    pub fn fade_out_with_speed(speed: i64) -> (r: Self)
        ensures
            r == CSEvent::FadeOut(0int as i64, speed),
    {
        CSEvent::FadeOut(0, speed)
    }

    pub fn text_centered(text: String) -> (r: Self)
        ensures
            r == CSEvent::Text(text, 0int as i64, 0int as i64, 0int as i64),
    {
        CSEvent::Text(text, 0, 0, 0)
    }

    pub fn eternal_text(text: String) -> (r: Self)
        ensures
            r == CSEvent::EternalText(text, 0int as i64, 0int as i64, 0int as i64),
    {
        CSEvent::EternalText(text, 0, 0, 0)
    }

    pub fn text_offset(text: String, top: i64, left: i64) -> (r: Self)
        ensures
            r == CSEvent::Text(text, top, left, 0int as i64),
    {
        CSEvent::Text(text, top, left, 0)
    }

    /// This instruction's completion predicate, after this tick's play.
    pub fn is_over(&self, skip: bool) -> (r: bool)
        requires
            evaluable(*self),
        ensures
            r == spec_is_over(*self, skip),
    {
        match self {
            CSEvent::Wait(t) => skip || *t <= 0,
            CSEvent::FadeOut(t, speed) => {
                proof {
                    assert((*t) * (*speed) <= (EVENT_TIME_CAP + MAX_DELTA) * 1000000)
                        by (nonlinear_arith)
                        requires
                            0 <= *t <= EVENT_TIME_CAP + MAX_DELTA,
                            0 <= *speed <= 1000000;
                    assert((*t) * (*speed) >= 0) by (nonlinear_arith)
                        requires *t >= 0, *speed >= 0;
                }
                skip || *t * *speed >= 1000000
            },
            CSEvent::FadeIn(t, speed) => {
                proof {
                    assert((*t) * (*speed) <= (EVENT_TIME_CAP + MAX_DELTA) * 1000000)
                        by (nonlinear_arith)
                        requires
                            0 <= *t <= EVENT_TIME_CAP + MAX_DELTA,
                            0 <= *speed <= 1000000;
                    assert((*t) * (*speed) >= 0) by (nonlinear_arith)
                        requires *t >= 0, *speed >= 0;
                }
                skip || *t * *speed >= 1000000
            },
            CSEvent::Text(txt, _, _, timer) => {
                if skip {
                    true
                } else {
                    let n = txt.as_str().unicode_len();
                    let n_i: i64 = if n >= 1000000 {
                        1000000
                    } else {
                        n as i64
                    };
                    *timer >= n_i * params::CHAR_DISPLAY_TIME + 2 * params::TEXT_FADE_TIME
                }
            },
            CSEvent::EternalText(..) => false,
            _ => true,
        }
    }
}

/// A script instruction at the specification level: the same shape as
/// `CSEvent` with mathematical strings and integers, so that the static
/// script tables can be pinned exactly by a contract.
pub enum ScriptStep {
    Wait(int),
    Text(Seq<char>, int, int, int),
    EternalText(Seq<char>, int, int, int),
    FadeOut(int, int),
    FadeIn(int, int),
    Teleport(Seq<char>),
    BGM(BGM),
    AddFlag(Flags),
    RemoveFlag(Flags),
    Reload,
    ToggleCinema(bool),
    SetLife(int),
    SetRelativeTime(int),
    Reset,
}

/// The specification-level value of one instruction.
pub open spec fn event_model(e: CSEvent) -> ScriptStep {
    match e {
        CSEvent::Wait(t) => ScriptStep::Wait(t as int),
        CSEvent::Text(txt, top, left, timer) => ScriptStep::Text(
            txt@,
            top as int,
            left as int,
            timer as int,
        ),
        CSEvent::EternalText(txt, top, left, timer) => ScriptStep::EternalText(
            txt@,
            top as int,
            left as int,
            timer as int,
        ),
        CSEvent::FadeOut(t, speed) => ScriptStep::FadeOut(t as int, speed as int),
        CSEvent::FadeIn(t, speed) => ScriptStep::FadeIn(t as int, speed as int),
        CSEvent::Teleport(id) => ScriptStep::Teleport(id@),
        CSEvent::BGM(m) => ScriptStep::BGM(m),
        CSEvent::AddFlag(f) => ScriptStep::AddFlag(f),
        CSEvent::RemoveFlag(f) => ScriptStep::RemoveFlag(f),
        CSEvent::Reload => ScriptStep::Reload,
        CSEvent::ToggleCinema(b) => ScriptStep::ToggleCinema(b),
        CSEvent::SetLife(n) => ScriptStep::SetLife(n as int),
        CSEvent::SetRelativeTime(f) => ScriptStep::SetRelativeTime(f as int),
        CSEvent::Reset => ScriptStep::Reset,
    }
}

/// The specification-level value of a whole queue.
pub open spec fn queue_model(q: Seq<CSEvent>) -> Seq<ScriptStep> {
    q.map_values(|e: CSEvent| event_model(e))
}

/// The queue of a running cutscene.
#[derive(Debug)]
pub struct Cutscene(VecDeque<CSEvent>);

impl View for Cutscene {
    type V = Seq<CSEvent>;

    closed spec fn view(&self) -> Seq<CSEvent> {
        self.0@
    }
}

/// Every queued instruction within clock bounds.
pub open spec fn wf_queue(q: Seq<CSEvent>) -> bool {
    forall|i: int| 0 <= i < q.len() ==> wf_event(#[trigger] q[i])
}

impl Cutscene {
    /// Starts a cutscene from a script.
    pub fn from(script: VecDeque<CSEvent>) -> (r: Self)
        ensures
            r@ == script@,
    {
        Cutscene(script)
    }

    pub fn len(&self) -> (r: usize)
        ensures
            r == self@.len(),
    {
        self.0.len()
    }
}

/// What one sequencer tick asks of the collaborators around it. Fields are
/// `None` (or `false`) when the tick asks nothing of that collaborator.
pub struct CutsceneOutput {
    /// Play this music track.
    pub bgm: Option<BGM>,
    /// Move the player to this spawner, then respawn the level.
    pub teleport: Option<String>,
    /// Respawn the level.
    pub reload: bool,
    /// Scale the simulation clock by this factor, thousandths.
    pub time_factor: Option<i64>,
    /// Show or hide the cinema bars.
    pub cinema_visible: Option<bool>,
    /// Set the screen overlay to this alpha, thousandths.
    pub frame_alpha: Option<i64>,
    /// Display this text at this alpha; `fresh` marks the first tick, when
    /// the content and offsets are to be installed.
    pub text: Option<TextDisplay>,
    /// The queue emptied this tick: the active-cutscene marker goes away.
    pub finished: bool,
}

/// A text display request.
pub struct TextDisplay {
    pub content: String,
    pub top: i64,
    pub left: i64,
    pub alpha: i64,
    pub fresh: bool,
}

impl CutsceneOutput {
    fn quiet() -> (r: Self)
        ensures
            r.bgm is None && r.teleport is None && !r.reload && r.time_factor is None
                && r.cinema_visible is None && r.frame_alpha is None && r.text is None
                && !r.finished,
    {
        CutsceneOutput {
            bgm: None,
            teleport: None,
            reload: false,
            time_factor: None,
            cinema_visible: None,
            frame_alpha: None,
            text: None,
            finished: false,
        }
    }
}

/// The overlay alpha this tick puts on screen for the active instruction,
/// after its clock advanced: skipping a fade snaps it to its extremum, it
/// does not bypass the visual effect.
pub open spec fn spec_frame_alpha(e: CSEvent, skip: bool) -> Option<i64> {
    match e {
        CSEvent::FadeOut(t, speed) => Some(
            (if skip {
                1000int
            } else {
                spec_fade_alpha(t as int, speed as int)
            }) as i64,
        ),
        CSEvent::FadeIn(t, speed) => Some(
            (if skip {
                0int
            } else {
                1000 - spec_fade_alpha(t as int, speed as int)
            }) as i64,
        ),
        _ => None::<i64>,
    }
}

/// The cubic ease stays within the alpha range.
proof fn lemma_fade_alpha_range(t: int, speed: int)
    requires
        0 <= t,
        0 <= speed,
    ensures
        0 <= spec_fade_alpha(t, speed) <= 1000,
{
    let u = t * speed;
    assert(t * speed >= 0) by (nonlinear_arith)
        requires t >= 0, speed >= 0;
    if u < 1000000 {
        assert(0 <= u * u * u <= 999999999999999999) by (nonlinear_arith)
            requires 0 <= u < 1000000;
        assert(0 <= u * u * u / 1000000000000000 <= 1000) by (nonlinear_arith)
            requires 0 <= u * u * u <= 999999999999999999;
    }
}

/// Computes the cubic ease exactly.
fn fade_alpha(t: i64, speed: i64) -> (r: i64)
    requires
        0 <= t <= EVENT_TIME_CAP + MAX_DELTA,
        0 <= speed <= 1000000,
    ensures
        r == spec_fade_alpha(t as int, speed as int),
        0 <= r <= 1000,
{
    proof {
        assert(t * speed <= (EVENT_TIME_CAP + MAX_DELTA) * 1000000) by (nonlinear_arith)
            requires 0 <= t <= EVENT_TIME_CAP + MAX_DELTA, 0 <= speed <= 1000000;
        assert(t * speed >= 0) by (nonlinear_arith)
            requires t >= 0, speed >= 0;
        lemma_fade_alpha_range(t as int, speed as int);
    }
    let u: i64 = t * speed;
    if u >= 1000000 {
        1000
    } else {
        proof {
            assert(0 <= u * u && u * u <= 1000000000000) by (nonlinear_arith)
                requires 0 <= u < 1000000;
            assert(0 <= u * u * u && u * u * u <= 1000000000000000000) by (nonlinear_arith)
                requires 0 <= u < 1000000, 0 <= u * u <= 1000000000000;
        }
        let uu: i64 = u * u;
        let uuu: i64 = uu * u;
        proof {
            assert(uu * u == u * u * u) by (nonlinear_arith)
                requires uu == u * u;
        }
        uuu / 1000000000000000
    }
}

/// Computes a text's display alpha exactly.
fn text_alpha(timer: i64, txt: &String) -> (r: i64)
    requires
        0 <= timer <= EVENT_TIME_CAP + MAX_DELTA,
    ensures
        r == spec_text_alpha(timer as int, txt@.len() as int),
        0 <= r <= 1000,
{
    let n = txt.as_str().unicode_len();
    let n_i: i64 = if n >= 1000000 {
        1000000
    } else {
        n as i64
    };
    let total: i64 = n_i * params::CHAR_DISPLAY_TIME + 2 * params::TEXT_FADE_TIME;
    let t_fade_out: i64 = total - params::TEXT_FADE_TIME;
    if timer <= params::TEXT_FADE_TIME {
        timer * 1000 / params::TEXT_FADE_TIME
    } else if timer >= t_fade_out {
        let drop: i64 = (timer - t_fade_out) * 1000 / params::TEXT_FADE_TIME;
        if 1000 - drop >= 0 {
            1000 - drop
        } else {
            0
        }
    } else {
        1000
    }
}

/// One sequencer tick.
///
/// Plays the active (front) instruction: advances its clock, applies its
/// mutation to the game data or health, and reports what the rendering,
/// audio, level and clock collaborators are to do. Then pops it exactly
/// when its completion predicate holds or the instruction is skippable and
/// `skip` was pressed. A sequencer whose queue is already empty does
/// nothing at all.
pub fn update(
    cutscene: &mut Cutscene,
    data: &mut GameData,
    life: &mut PlayerLife,
    skip: bool,
    delta: Millis,
) -> (out: CutsceneOutput)
    requires
        0 <= delta <= MAX_DELTA,
        wf_queue(old(cutscene)@),
        old(data).inv(),
    ensures
        wf_queue(final(cutscene)@),
        final(data).inv(),
        old(cutscene)@.len() == 0 ==> final(cutscene)@ == old(cutscene)@ && *final(data) == *old(data) && *final(life) == *old(life) && !out.finished,
        old(cutscene)@.len() > 0 ==> {
            let e0 = old(cutscene)@[0];
            let e1 = spec_play(e0, delta as int);
            let over = spec_is_over(e1, skip);
            &&& (over ==> final(cutscene)@ == old(cutscene)@.skip(1))
            &&& (!over ==> final(cutscene)@ == old(cutscene)@.update(0, e1))
            &&& out.finished == (over && old(cutscene)@.len() == 1)
            &&& out.bgm == (if e0 is BGM {
                Some(e0->BGM_0)
            } else {
                None::<BGM>
            })
            &&& (e0 matches CSEvent::Teleport(s) ==> out.teleport matches Some(s2) && s2@ == s@
                && out.reload)
            &&& (!(e0 is Teleport) ==> out.teleport is None && (out.reload == (e0 is Reload)))
            &&& out.time_factor == (if e0 is SetRelativeTime {
                Some(e0->SetRelativeTime_0)
            } else {
                None::<i64>
            })
            &&& out.cinema_visible == (if e0 is ToggleCinema {
                Some(e0->ToggleCinema_0)
            } else {
                None::<bool>
            })
            &&& out.frame_alpha == spec_frame_alpha(e1, skip)
            &&& (e0 matches CSEvent::Text(txt, top, left, timer) ==> out.text matches Some(td)
                && td.content@ == txt@ && td.top == top && td.left == left && td.alpha == (
                if skip {
                    0int
                } else {
                    spec_text_alpha(timer + delta, txt@.len() as int)
                }) && td.fresh == (timer == 0))
            &&& (e0 matches CSEvent::EternalText(txt, top, left, timer) ==> out.text matches Some(
                td,
            ) && td.content@ == txt@ && td.top == top && td.left == left && td.alpha
                == spec_text_alpha(
                if timer + delta > EVENT_TIME_CAP {
                    EVENT_TIME_CAP as int
                } else {
                    timer + delta
                },
                txt@.len() as int,
            ) && td.fresh == (timer == 0))
            &&& (!(e0 is Text) && !(e0 is EternalText) ==> out.text is None)
            &&& (e0 matches CSEvent::AddFlag(f) ==> (forall|f2: Flags|
                final(data).spec_has_flag(f2) == (old(data).spec_has_flag(f2) || f2 == f))
                && final(data).spec_removed_names() == old(data).spec_removed_names() && final(data).spec_last_spawner() == old(data).spec_last_spawner() && final(data).spec_max_life()
                == old(data).spec_max_life())
            &&& (e0 matches CSEvent::RemoveFlag(f) ==> (forall|f2: Flags|
                final(data).spec_has_flag(f2) == (old(data).spec_has_flag(f2) && f2 != f))
                && final(data).spec_removed_names() == old(data).spec_removed_names() && final(data).spec_last_spawner() == old(data).spec_last_spawner() && final(data).spec_max_life()
                == old(data).spec_max_life())
            &&& (e0 is Reset ==> (forall|f2: Flags| !final(data).spec_has_flag(f2)) && final(data).spec_last_spawner() == "start"@ && final(data).spec_max_life()
                == params::STARTING_LIFE)
            &&& (!(e0 is AddFlag) && !(e0 is RemoveFlag) && !(e0 is Reset) ==> *final(data)
                == *old(data))
            &&& (e0 matches CSEvent::SetLife(n) ==> final(life).spec_current() == n && final(life).spec_max() == old(life).spec_max())
            &&& (!(e0 is SetLife) ==> *final(life) == *old(life))
        },
{
    let front = cutscene.0.pop_front();
    match front {
        None => {
            proof {
                assert(cutscene@ == old(cutscene)@);
                assert forall|i: int| 0 <= i < cutscene@.len() implies wf_event(
                    #[trigger] cutscene@[i],
                ) by {
                    assert(wf_event(old(cutscene)@[i]));
                }
            }
            CutsceneOutput::quiet()
        },
        Some(event) => {
            proof {
                assert(old(cutscene)@[0] == event);
                assert(wf_event(event));
            }
            let mut out = CutsceneOutput::quiet();
            // Play the instruction
            let played: CSEvent = match event {
                CSEvent::Wait(t) => CSEvent::Wait(t - delta),
                CSEvent::BGM(music) => {
                    out.bgm = Some(music);
                    CSEvent::BGM(music)
                },
                CSEvent::Text(txt, top, left, timer) => {
                    let new_timer = timer + delta;
                    let alpha: i64 = if skip {
                        0
                    } else {
                        text_alpha(new_timer, &txt)
                    };
                    out.text = Some(
                        TextDisplay {
                            content: txt.clone(),
                            top,
                            left,
                            alpha,
                            fresh: timer == 0,
                        },
                    );
                    CSEvent::Text(txt, top, left, new_timer)
                },
                CSEvent::EternalText(txt, top, left, timer) => {
                    let new_timer: i64 = if timer + delta > EVENT_TIME_CAP {
                        EVENT_TIME_CAP
                    } else {
                        timer + delta
                    };
                    let alpha = text_alpha(new_timer, &txt);
                    out.text = Some(
                        TextDisplay {
                            content: txt.clone(),
                            top,
                            left,
                            alpha,
                            fresh: timer == 0,
                        },
                    );
                    CSEvent::EternalText(txt, top, left, new_timer)
                },
                CSEvent::FadeOut(t, speed) => {
                    let new_t = t + delta;
                    out.frame_alpha = Some(
                        if skip {
                            1000
                        } else {
                            fade_alpha(new_t, speed)
                        },
                    );
                    CSEvent::FadeOut(new_t, speed)
                },
                CSEvent::FadeIn(t, speed) => {
                    let new_t = t + delta;
                    out.frame_alpha = Some(
                        if skip {
                            0
                        } else {
                            1000 - fade_alpha(new_t, speed)
                        },
                    );
                    CSEvent::FadeIn(new_t, speed)
                },
                CSEvent::ToggleCinema(show) => {
                    out.cinema_visible = Some(show);
                    CSEvent::ToggleCinema(show)
                },
                CSEvent::Teleport(spawner_id) => {
                    out.teleport = Some(spawner_id.clone());
                    out.reload = true;
                    CSEvent::Teleport(spawner_id)
                },
                CSEvent::AddFlag(flag) => {
                    data.set_flag(flag);
                    CSEvent::AddFlag(flag)
                },
                CSEvent::RemoveFlag(flag) => {
                    data.remove_flag(flag);
                    CSEvent::RemoveFlag(flag)
                },
                CSEvent::Reload => {
                    out.reload = true;
                    CSEvent::Reload
                },
                CSEvent::SetLife(n) => {
                    life.set_current(n);
                    CSEvent::SetLife(n)
                },
                CSEvent::SetRelativeTime(factor) => {
                    out.time_factor = Some(factor);
                    CSEvent::SetRelativeTime(factor)
                },
                CSEvent::Reset => {
                    *data = GameData::default();
                    CSEvent::Reset
                },
            };
            proof {
                assert(played == spec_play(old(cutscene)@[0], delta as int));
            }
            proof {
                assert(evaluable(played));
            }
            // Advance past a completed instruction
            if played.is_over(skip) {
                if cutscene.0.len() == 0 {
                    out.finished = true;
                }
                proof {
                    assert forall|i: int| 0 <= i < cutscene@.len() implies wf_event(
                        #[trigger] cutscene@[i],
                    ) by {
                        assert(cutscene@[i] == old(cutscene)@[i + 1]);
                        assert(wf_event(old(cutscene)@[i + 1]));
                    }
                }
            } else {
                proof {
                    match played {
                        CSEvent::FadeOut(t, speed) => {
                            assert(t <= t * speed) by (nonlinear_arith)
                                requires t >= 0, speed >= 1;
                        },
                        CSEvent::FadeIn(t, speed) => {
                            assert(t <= t * speed) by (nonlinear_arith)
                                requires t >= 0, speed >= 1;
                        },
                        _ => {},
                    }
                    assert(wf_event(played));
                }
                cutscene.0.push_front(played);
                proof {
                    assert(cutscene@ =~= old(cutscene)@.update(
                        0,
                        spec_play(old(cutscene)@[0], delta as int),
                    ));
                    assert forall|i: int| 0 <= i < cutscene@.len() implies wf_event(
                        #[trigger] cutscene@[i],
                    ) by {
                        if i > 0 {
                            assert(cutscene@[i] == old(cutscene)@[i]);
                            assert(wf_event(old(cutscene)@[i]));
                        }
                    }
                }
            }
            out
        },
    }
}

/// While a cutscene is active the cinema overlay fades in; this advances
/// its alpha one tick toward opaque, a thousandth per millisecond.
pub fn cinema_fade_in(alpha: &mut i64, delta: Millis)
    requires
        0 <= *old(alpha) <= 1000,
        0 <= delta <= MAX_DELTA,
    ensures
        *final(alpha) == if *old(alpha) + delta <= 1000 {
            *old(alpha) + delta
        } else {
            1000int
        },
{
    if *alpha + delta <= 1000 {
        *alpha = *alpha + delta;
    } else {
        *alpha = 1000;
    }
}

/// With no cutscene active, leftover overlay alpha decays back to
/// transparent at the same rate, so removal is never visually abrupt.
pub fn cutscene_idle_decay(alpha: &mut i64, delta: Millis)
    requires
        0 <= *old(alpha) <= 1000,
        0 <= delta <= MAX_DELTA,
    ensures
        *final(alpha) == if *old(alpha) - delta >= 0 {
            *old(alpha) - delta
        } else {
            0int
        },
{
    if *alpha - delta >= 0 {
        *alpha = *alpha - delta;
    } else {
        *alpha = 0;
    }
}

/// Skip semantics: a skip input completes a wait, a fade or a text within
/// the same tick, whatever their clocks say; an instantaneous instruction
/// (a flag mutation and its kin) completes immediately with or without
/// skip, is not changed by playing, and so a skip has no additional effect
/// on it; an eternal text ignores skips altogether.
pub proof fn lemma_skip_semantics(e: CSEvent, delta: int)
    ensures
        (e is Wait || e is FadeOut || e is FadeIn || e is Text) ==> spec_is_over(
            spec_play(e, delta),
            true,
        ),
        (e is Teleport || e is BGM || e is AddFlag || e is RemoveFlag || e is Reload
            || e is ToggleCinema || e is SetLife || e is SetRelativeTime || e is Reset) ==> (
        spec_play(e, delta) == e && spec_is_over(spec_play(e, delta), true) && spec_is_over(
            spec_play(e, delta),
            false,
        )),
        e is EternalText ==> !spec_is_over(spec_play(e, delta), true),
{
}

} // verus!
