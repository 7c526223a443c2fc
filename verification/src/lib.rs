//! Verified core of PauseCat, a break reminder: the settings model and its
//! sanitising rules, the work/break timer, the application's event handling,
//! the updater's release logic, and the small text protocols spoken with the
//! overlay and settings web views.

pub mod app;
pub mod events;
pub mod json;
pub mod overlay;
pub mod settings;
pub mod settings_ui;
pub mod system;
pub mod text;
pub mod timer;
pub mod tray;
pub mod updater;
