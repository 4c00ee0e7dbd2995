//! Startup arguments, as plain values. Command-line parsing happens
//! outside the library and hands these in.

use vstd::prelude::*;

verus! {

/// Arguments of the one-shot profile import: the archive path, the base
/// paths to strip from sound paths, and the profile to select.
#[derive(Debug)]
pub struct ImportArgs {
    pub path: String,
    pub base_paths: Vec<String>,
    pub profile_name: String,
}

/// Arguments of the controller daemon: the import to run first, where the
/// sounds live, and whether to check each sound path on startup.
#[derive(Debug)]
pub struct DaemonArgs {
    pub import: ImportArgs,
    pub audio_path: String,
    pub check_paths: bool,
}

} // verus!
