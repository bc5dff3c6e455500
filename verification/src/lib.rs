//! Verified core of the door login surfaces.
pub mod client;
pub mod color;
pub mod config;
pub mod editor;
pub mod greeter;
pub mod greeter_theme;
pub mod host;
pub mod locker;
pub mod modes;
pub mod presets;
pub mod settings;
pub mod text;
pub mod theme;
pub mod window;
