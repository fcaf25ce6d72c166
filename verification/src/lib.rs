//! A focus-session timer core: session configuration, and a formatter that
//! turns an elapsed whole-seconds count into a human-readable phrase such as
//! `"1 hour 12 minutes"` or `"few seconds"`.

pub mod config;
pub mod decimal;
pub mod display;

pub use config::Config;
pub use display::FocusDisplay;
