//! Backend command layer for a single-track audio player.
//!
//! The library models the player's control surface and its dedicated
//! playback worker.  The control surface keeps a small status cache and
//! turns requests into playback commands; the worker consumes those
//! commands in order and decides which actions to perform on the audio
//! sink.  Durations and volumes are carried as integers (milliseconds,
//! thousandths of full volume) so that every rule about them is checked.

pub mod command;
pub mod control;
pub mod duration;
pub mod paths;
pub mod worker;
