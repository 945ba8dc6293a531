//! Timed state/event sequencing engine for a 2D action platformer.
//!
//! Every time-based behaviour of the game is an instance of one problem:
//! advance a per-entity clock once per simulation tick and decide, from that
//! clock plus external input and physics signals, which discrete step an
//! entity is in and which one-shot events fire as steps are entered or
//! crossed.
//!
//! All times are integer milliseconds, all speeds integer milli-pixels per
//! second, so every evaluation is exact; the rendering, audio, input and
//! physics collaborators around this crate trade in the same plain values.

pub mod animation;
pub mod boss;
pub mod combat;
pub mod cutscene;
pub mod data;
pub mod entity;
pub mod graphics;
pub mod hearts;
pub mod level;
pub mod movement;
pub mod music;
pub mod params;
pub mod platform;
pub mod player;
pub mod scripts;
pub mod vanish;
pub mod zombie;
