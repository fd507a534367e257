//! Turns timestamped CEA-608 caption updates into timed-text cues.

pub mod time;
pub mod decimal;
pub mod format;
pub mod render;
pub mod model;
pub mod state;
pub mod trace;
