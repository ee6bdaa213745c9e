//! The two UI modes and the pane selection. Exactly one mode is active at a
//! time; transitions happen only in the control loop's key dispatch.

use vstd::prelude::*;

verus! {

/// How key events are interpreted: `Normal` browsing, or `Editing` the feed
/// subscription input line.
#[derive(Clone, Copy, Debug, PartialEq, Eq, Structural)]
pub enum Mode {
    Normal,
    Editing,
}

/// Which logical pane is active; decides what pane-sensitive keys act on.
#[derive(Clone, Copy, Debug, PartialEq, Eq, Structural)]
pub enum Selected {
    Feeds,
    Entries,
    Entry,
}

} // verus!
