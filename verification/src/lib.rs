//! Admission control, validation and retry decisions for a text-to-speech
//! reverse proxy, together with the pure rules of its desktop companion.

pub mod bc;
pub mod config;
pub mod context;
pub mod forward;
pub mod msg;
pub mod paths;
pub mod proxy;
pub mod service;
pub mod speak;
pub mod speakers;
pub mod text;
pub mod traces;
pub mod tts;
pub mod ui;
pub mod validate;
