//! Rendering: what is created, what is recorded for a frame, and in which order it is submitted.

pub mod command;
pub mod frame;
pub mod frame_laws;
pub mod gpass;
pub mod gpass_laws;
pub mod instance;
pub mod lighting_pipeline;
pub mod manager;
pub mod outside;
pub mod picture_laws;
pub mod post_process;
pub mod pp_effect;
pub mod presentation;
pub mod recording;
pub mod render_order;
pub mod resolve_pass;
pub mod script;
pub mod setup;
pub mod setup_laws;
pub mod sync_laws;
pub mod teardown;
