//! Status-indicator and secure-session layer of a tray utility: a procedural
//! tray icon, its tooltip and badge, a credential vault over the platform
//! secret store, a single-slot notification handoff and the window
//! visibility rules.

pub mod canvas;
pub mod icon;
pub mod text;
pub mod error;
pub mod vault;
pub mod handoff;
pub mod link;
pub mod platform;
pub mod window;
pub mod tray;
