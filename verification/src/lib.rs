//! The logic of a kiosk camera viewer: what the screen shows, when the device
//! powers itself off, how a camera frame is drawn into the window and how a
//! photo is taken from it.
pub mod app;
pub mod clock;
pub mod config;
pub mod laws;
pub mod text;
pub mod views;
