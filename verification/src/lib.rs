//! Run a shell command, treat its output as a whitespace-aligned table, and
//! let the operator browse rows and fire templated commands at the selection.
//!
//! The crate holds the verified core: the column-inference parser, the
//! wildcard profile matcher, placeholder template resolution, the cursor and
//! filter model, and the event state machine that sequences every
//! user-visible transition. Terminal handling, process spawning and config
//! storage live outside, in the surrounding binary.

pub mod app;
pub mod char_pos_iter;
pub mod config;
pub mod events;
pub mod os_commands;
pub mod parse;
pub mod profile_matching;
pub mod regexes;
pub mod selection;
pub mod template;
pub mod text;
pub mod ui_text;
pub mod util;
