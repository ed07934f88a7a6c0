//! Verified core of a terminal deployment assistant: the deployment
//! targets and their scripts, SSH profiles, and the application state
//! machine that reacts to typed commands, key presses and SSH events.

pub mod app;
pub mod deploy;
pub mod event;
pub mod laws;
pub mod pipeline;
pub mod profile;
pub mod ssh;
pub mod text;
pub mod view;
