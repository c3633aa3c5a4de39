//! Records kept by the application: undoable history events and plugins.
use vstd::prelude::*;

verus! {

/// An event of the application's history, kept for undo and redo.
#[derive(Debug, Clone)]
pub enum AppHistoryEvent {
    Delete { paths: Vec<String> },
    Move { from: String, to: String },
    Rename { from: String, to: String },
    Copy { from: String, to: String },
}

/// A registered plugin.
#[derive(Debug, Clone)]
pub struct PluginInfo {
    pub name: String,
    pub description: String,
    pub loaded: bool,
}

} // verus!
