//! Thumb-wheel-to-volume logic.

pub mod config;
pub mod platform;
pub mod text;
pub mod wheel;
