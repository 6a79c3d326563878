//! Decision logic of a kernel-level autoclicker: the click interval and its
//! parts, the hotkey state machine fed by input devices, and the settings
//! model that the window drives.

pub mod interval;
pub mod keys;
pub mod context;
pub mod model;
pub mod laws;
pub mod system;
