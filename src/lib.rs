//! A keyboard and mouse visualization overlay: per-key bars that travel up the
//! window while keys are held, with layout, fading and frame orchestration.
pub mod app;
pub mod bars;
pub mod color;
pub mod config;
pub mod fading;
pub mod font;
pub mod input;
pub mod key_map;
pub mod layout;
pub mod renderer;
pub mod text;
pub mod types;
