//! Model and decision logic of a tray application that runs "smart actions"
//! (speech-to-text and similar scripts) and keeps its menu, tray icon and
//! audio feedback in step with the action's progress.

pub mod commands;
pub mod domain;
pub mod text;
pub mod ordered_map;
pub mod io_error;
pub mod logic;
