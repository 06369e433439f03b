pub mod seq_util;
pub mod ordered_map;
pub mod types;
pub mod error;
pub mod text;
pub mod renderer;
pub mod handler;
pub mod frame_laws;
pub mod display_laws;
pub mod events;
pub mod peer;
pub mod files;
pub mod ui_events;
pub mod global;
pub mod connection_manager;
pub mod session;
pub mod sessions;
pub mod input;
pub mod session_laws;
pub mod privacy_mode;
pub mod privacy_laws;
