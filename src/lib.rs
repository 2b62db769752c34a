//! Playback engine for a four-channel tracker soundtrack: a lock-free control
//! channel, a row/tick sequencer, a per-channel effect processor and a mixer.

pub mod control;
pub mod song;
pub mod channel;
pub mod player;
pub mod config;
pub mod view;
