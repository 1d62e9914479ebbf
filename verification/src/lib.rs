//! Verified planning core for an OBS screen-recording client.
//!
//! The library decides *what* a recording session does with libobs: which
//! settings every object receives, in which order the libobs calls are made,
//! when a failed call ends the session, which encoder or window is chosen and
//! how log lines are written.  The calls themselves are made by the
//! application around it.
use vstd::prelude::*;

pub mod encoders;
pub mod logging;
pub mod messages;
pub mod names;
pub mod plan;
pub mod presets;
pub mod runner;
pub mod scene_item;
pub mod sessions;
pub mod settings;
pub mod window_select;
