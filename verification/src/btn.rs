//! Semantic buttons: display state, tap/hold behavior, and the grid slots
//! emitted to the renderer.
//!
//! Buttons built from configuration live in the deck's button arena and are
//! identified by their arena index; membership of the playing set and the
//! layout engine's deduplication compare those indices, mirroring the
//! identity (not value) comparison of shared button handles. Buttons the
//! layout engine synthesizes per pass (back, next) carry no index.

use vstd::prelude::*;
use crate::config::PageId;

verus! {

/// Displayable state of a button: its label and an optional notification
/// line rendered over it.
#[derive(Debug)]
pub struct ButtonData {
    pub label: String,
    pub notification: Option<String>,
}

impl Clone for ButtonData {
    fn clone(&self) -> (r: Self)
        ensures
            r == *self,
    {
        ButtonData {
            label: self.label.clone(),
            notification: match &self.notification {
                Some(n) => Some(n.clone()),
                None => None,
            },
        }
    }
}

impl Default for ButtonData {
    fn default() -> (r: Self)
        ensures
            r.label@ == Seq::<char>::empty(),
            r.notification is None,
    {
        ButtonData { label: String::new(), notification: None }
    }
}

/// What a tap or hold on a button does.
#[derive(Debug, Clone, Copy)]
pub enum ButtonBehavior {
    /// Push the library page onto the view stack.
    Push(PageId),
    /// Start the bound track, or stop it if it is advancing.
    PlayStop,
    /// Pop the current view; a no-op at the home frame.
    Pop,
    /// Clear the stack and open the page.
    Goto(PageId),
    /// Advance the content offset and the playing set's offset.
    Rotate,
    /// Zero the content offset and the playing set's offset.
    ResetOffset,
    VolumeUp,
    VolumeDown,
    /// Open the volume-control view.
    ShowVolumeControl,
}

/// A semantic button: display state, an optional bound track (an index into
/// the deck's track table), and optional tap/hold behaviors.
#[derive(Debug)]
pub struct Button {
    pub data: ButtonData,
    pub track: Option<usize>,
    pub on_tap: Option<ButtonBehavior>,
    pub on_hold: Option<ButtonBehavior>,
}

impl Clone for Button {
    fn clone(&self) -> (r: Self)
        ensures
            r == *self,
    {
        Button {
            data: self.data.clone(),
            track: self.track,
            on_tap: self.on_tap,
            on_hold: self.on_hold,
        }
    }
}

/// A button as it appears in an emitted grid: a snapshot of its state plus
/// its identity in the deck's button arena. Synthesized buttons (back, next,
/// explicit empty slots) have no identity.
#[derive(Debug)]
pub struct ButtonRef {
    pub id: Option<usize>,
    pub button: Button,
}

impl ButtonRef {
    /// The display state captured by this snapshot.
    pub fn read(&self) -> (d: ButtonData)
        ensures
            d == self.button.data,
    {
        self.button.data.clone()
    }
}

impl Clone for ButtonRef {
    fn clone(&self) -> (r: Self)
        ensures
            r == *self,
    {
        ButtonRef { id: self.id, button: self.button.clone() }
    }
}

/// Result of invoking a button behavior: whether the handler already emitted
/// a grid update, so the automatic post-tap refresh must be suppressed.
#[derive(Debug, Clone, Copy)]
pub struct BtnInvokeStatus {
    pub skip_refresh: bool,
}

impl Default for BtnInvokeStatus {
    fn default() -> (r: Self)
        ensures
            !r.skip_refresh,
    {
        BtnInvokeStatus { skip_refresh: false }
    }
}

} // verus!
