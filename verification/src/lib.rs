//! The interaction core of a terminal console for a list of named servers:
//! text fields edited at a character cursor, forms that validate their
//! fields, and the screen state machine that key presses drive.

pub mod app;
pub mod config;
pub mod keys;
pub mod modules;
