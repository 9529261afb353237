//! Verified core of a meeting assistant that asks a Gemini-compatible
//! endpoint for suggested replies.

pub mod audio;
pub mod config;
pub mod error;
pub mod hotkey;
pub mod json;
pub mod overlay;
pub mod settings;
pub mod text;
pub mod whisper;
