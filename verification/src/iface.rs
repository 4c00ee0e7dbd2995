//! Events the controller consumes and commands it emits, as plain values.
//!
//! The renderer and the audio engine live outside the library; they receive
//! these commands over channels and hand events back.

use vstd::prelude::*;
use vstd::view::View as _;
use crate::btn::ButtonRef;
use crate::config::PlaySoundSettings;

verus! {

/// Input events from the physical keys, carrying the tapped grid button.
#[derive(Debug)]
pub enum UiEvent {
    ButtonTap(ButtonRef),
    ButtonHold(ButtonRef),
}

/// Display commands: re-render the current grid from current button state,
/// or flip to a new grid.
#[derive(Debug)]
pub enum UiCommand {
    Refresh,
    Flip(Vec<Option<ButtonRef>>),
}

/// A track as handed to the audio engine: the sound's path and its playback
/// settings.
#[derive(Debug)]
pub struct Track {
    pub path: String,
    pub settings: PlaySoundSettings,
}

impl Clone for Track {
    fn clone(&self) -> (r: Self)
        ensures
            r == *self,
    {
        Track { path: self.path.clone(), settings: self.settings }
    }
}

/// Commands to the audio engine. The global volume is in whole decibels
/// relative to unity.
#[derive(Debug)]
pub enum AudioCommand {
    Play(Track),
    Stop(Track),
    SetGlobalVolume(i64),
    GetGlobalVolume,
}

/// Events from the audio engine. A state change carries the track's path,
/// whether playback is advancing, and the remaining time in milliseconds
/// where known.
#[derive(Debug)]
pub enum AudioEvent {
    TrackStateChanged { path: String, advancing: bool, remaining_ms: Option<usize> },
    GlobalVolumeChanged(i64),
}

} // verus!
