//! Text-mode display.

pub mod terminal;
