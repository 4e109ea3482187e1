//! Decision and data logic of the Typio input-method host: panel pacing and
//! scheduling, protocol deadline tracking, keyboard chord handling, engine
//! protocol policy, configuration parsing and the engine-vetting report model.
use vstd::prelude::*;

pub mod time;
pub mod panel_scheduler;
pub mod panel_present_gate;
pub mod wayland_pending;
pub mod reactor;
pub mod repeat;
pub mod vet;
pub mod text;
pub mod keyboard;
pub mod panel;
pub mod text_raster;
pub mod engine;
pub mod voice;
pub mod ipc;
pub mod config_value;
pub mod buffer_pool;
pub mod panel_driver;
pub mod input_driver;
pub mod tray;
pub mod settings;
pub mod paths;
pub mod backend;
pub mod platform_config;
