//! PS/2 controller, keyboard and mouse.

pub mod controller;
pub mod keyboard;
pub mod mouse;
pub mod setup;
