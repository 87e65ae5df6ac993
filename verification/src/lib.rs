//! Interactive terminal session for browsing a source-control repository:
//! selecting a repository, walking its commit history, and issuing textual
//! commands from a single-line input. The session control loop, the list and
//! input abstractions shared by every screen, and the history and
//! recent-repository bookkeeping are verified; terminal rendering and the
//! on-disk config format live outside this crate.

pub mod app_flags;
pub mod command;
pub mod commit_table;
pub mod config;
pub mod data_table;
pub mod git;
pub mod input_mode;
pub mod keys;
pub mod text;
pub mod traits;
pub mod view_components;
pub mod views;
pub mod volnita;
