//! Keycap: the logic of an on-screen keystroke overlay.
//!
//! The library holds the overlay's configuration and its clamping rules,
//! the keyboard model and key labels, the two display modes (a fading
//! timeline of recent presses and a live view of held key combinations),
//! the window show/hide decisions, colour parsing, pixel transfer to the
//! presentation buffer and the tray icon and menu logic.
pub mod config;
pub mod key;
pub mod mode;
pub mod overlay;
pub mod tray;
