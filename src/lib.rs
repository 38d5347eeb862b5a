//! A chat companion's library: a per-channel turn-based chess session
//! manager, a random "why" phrase generator, and small helpers for weather,
//! stock and message text.

pub mod board;
pub mod chat;
pub mod chess;
pub mod rules;
pub mod store;
pub mod stonk;
pub mod transcript;
pub mod why;
pub mod weather;
pub mod text;
