//! Core logic of a small terminal music player that shows the cover art of
//! the current track as ASCII art.

pub mod decimal;
pub mod args;
pub mod imaging;
pub mod ascii;
pub mod text;
pub mod song;
pub mod cover;
pub mod app;
pub mod player;
