//! Verified control logic of a desktop fan controller: fan selection,
//! control-mode detection, preset speeds, the error banner, the retry
//! protocol for manual fan control, and the text the user interface shows.

pub mod mode;
pub mod selection;
pub mod presets;
pub mod active_mode;
pub mod signals;
pub mod model;
pub mod text;
pub mod startup;
