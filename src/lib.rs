//! Keyboard lock engine: decides for every keyboard event whether it is
//! swallowed or forwarded, and detects the configured unlock chord.
pub mod keys;
pub mod text;
pub mod hotkey;
pub mod matcher;
pub mod engine;
pub mod pump;
pub mod menu;
pub mod state;
pub mod config;
