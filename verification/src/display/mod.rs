//! Display subsystem: escape-sequence transports, the graphics backend and the status bar.

pub mod backend;
pub mod hud;
pub mod layout;
pub mod terminal_guard;
pub mod transport;
