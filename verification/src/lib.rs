//! A reactive controller for a fixed-grid key device driving a soundboard.
//!
//! The library owns hierarchical navigation state (a never-empty view stack),
//! derives the physical button grid from an immutable configuration tree, and
//! keeps the grid synchronized with the playback state of concurrently running
//! audio tracks. All device, audio and import plumbing stays outside; the
//! controller consumes plain-valued events and emits plain-valued commands.

pub mod args;
pub mod btn;
pub mod config;
pub mod deck;
pub mod elgato;
pub mod geometry;
pub mod iface;
pub mod layout;
pub mod text;
pub mod view;
