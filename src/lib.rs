//! Harbor: run a local backend server process and a companion browser
//! window that renders what the backend serves over a local address.
//!
//! The library holds the decisions of the system: the supervision protocol
//! of the backend process, the discovery and launch plan of the companion
//! browser, the translation of structured addresses, and the configuration
//! model. The program around it performs the operating-system work that
//! these decisions call for.

pub mod app;
pub mod backend;
pub mod config;
pub mod frontend;
pub mod servo_api;

pub use app::HarborApp;
pub use config::HarborConfig;
pub use servo_api::{
    is_browser_available, run_browser, servo_version, BrowserConfig, BrowserError, BrowserEvent,
};
