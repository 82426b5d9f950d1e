//! The state logic of a small tabbed text editor: which tabs are open and
//! which is active, where a save goes, which projects are registered and
//! what the side panel lists.
pub mod config;
pub mod path;
pub mod state;
